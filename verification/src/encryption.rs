use vstd::prelude::*;

use crate::hexfmt::{
    hex_decode, hex_decoded, hex_encode, hex_encoding, is_hex_seq, lemma_hex_round_trip,
};
use ring::aead::{Aad, LessSafeKey, Nonce, UnboundKey, AES_256_GCM};
use ring::rand::{SecureRandom, SystemRandom};
use vstd::slice::slice_subrange;
use vstd::string::StringSliceAdditionalSpecFns;
use vstd::utf8::{
    decode_utf8, decode_utf8_encode_utf8, encode_utf8, encode_utf8_decode_utf8,
    encode_utf8_valid_utf8, valid_utf8,
};

verus! {

/// What can go wrong around the envelope cipher.
///
/// `InvalidKeyLength` is a configuration fault found at construction;
/// the other three arise while opening an envelope and are surfaced to
/// callers as one internal failure, never detailed to a client.
#[derive(Clone, Copy, Debug, PartialEq, Eq, Structural)]
pub enum EncryptionError {
    InvalidKeyLength,
    EntropyUnavailable,
    MalformedEnvelope,
    AuthenticationFailed,
    InvalidPlaintextEncoding,
}

/// The longest plaintext, in encoded bytes, that one envelope may hold;
/// the cipher refuses inputs past the AES-GCM per-message bound.
pub const MAX_PLAINTEXT_BYTES: usize = 0xFFFF_FFFF;

/// The ciphertext-and-tag bytes that AES-256-GCM sealing produces for a
/// key, a nonce and a plaintext: a fixed function of the three.
pub uninterp spec fn gcm_sealed(key: Seq<u8>, nonce: Seq<u8>, pt: Seq<u8>) -> Seq<u8>;

/// One nonce's view of an envelope: the text is the hex of
/// `nonce ‖ ciphertext ‖ tag` for the encoded plaintext.
pub open spec fn is_envelope_with(
    key: Seq<u8>,
    pt: Seq<char>,
    ct: Seq<char>,
    nonce: Seq<u8>,
) -> bool {
    let sealed = gcm_sealed(key, nonce, encode_utf8(pt));
    &&& nonce.len() == 12
    &&& sealed.len() == encode_utf8(pt).len() + 16
    &&& ct == hex_encoding(nonce + sealed)
}

/// The text is an envelope that seals `pt` under `key`, for some nonce.
pub open spec fn is_envelope_for(key: Seq<u8>, pt: Seq<char>, ct: Seq<char>) -> bool {
    exists|nonce: Seq<u8>| #[trigger] is_envelope_with(key, pt, ct, nonce)
}

/// Decoded envelope bytes whose tail is the sealing of `b` under the
/// leading 12-byte nonce.
pub open spec fn envelope_opens_to(key: Seq<u8>, env: Seq<u8>, b: Seq<u8>) -> bool {
    env.len() >= 28 && env.skip(12) == gcm_sealed(key, env.take(12), b)
}

/// Text that merely has the shape of an envelope: hex of at least
/// 28 bytes (nonce and tag leave no room for less).
pub open spec fn well_formed_envelope_text(s: Seq<char>) -> bool {
    is_hex_seq(s) && hex_decoded(s).len() >= 28
}

/// ring's handle on the system's secure random source, held opaquely.
#[verifier::external_type_specification]
#[verifier::external_body]
pub struct ExSystemRandom(SystemRandom);

/// Relies on ring::rand::SystemRandom::new; the handle draws from the
/// system's secure generator.
#[verifier::external_body]
fn new_system_random() -> (r: SystemRandom) {
    SystemRandom::new()
}

/// Relies on SystemRandom's SecureRandom::fill: on success the buffer
/// holds `n` freshly drawn random bytes; nothing more is promised of
/// their values.
#[verifier::external_body]
fn fill_random(rng: &SystemRandom, n: usize) -> (r: Option<Vec<u8>>)
    ensures
        r matches Some(b) ==> b@.len() == n,
{
    let mut buf = vec![0u8; n];
    rng.fill(&mut buf).ok()?;
    Some(buf)
}

/// Relies on ring::aead with AES_256_GCM:
/// LessSafeKey::seal_in_place_append_tag encrypts deterministically in
/// key, nonce and plaintext, appends the 16-byte tag, and accepts any
/// input within the per-message bound.
#[verifier::external_body]
fn gcm_seal(key: &[u8], nonce: &[u8], pt: &[u8]) -> (r: Option<Vec<u8>>)
    requires
        key@.len() == 32,
        nonce@.len() == 12,
        pt@.len() <= MAX_PLAINTEXT_BYTES,
    ensures
        r is Some,
        r matches Some(c) ==> c@ == gcm_sealed(key@, nonce@, pt@) && c@.len() == pt@.len() + 16,
{
    let unbound = UnboundKey::new(&AES_256_GCM, key).ok()?;
    let nonce = Nonce::try_assume_unique_for_key(nonce).ok()?;
    let mut buf = pt.to_vec();
    LessSafeKey::new(unbound).seal_in_place_append_tag(nonce, Aad::empty(), &mut buf).ok()?;
    Some(buf)
}

/// Relies on ring::aead with AES_256_GCM:
/// LessSafeKey::open_in_place verifies the trailing 16-byte tag and
/// yields the plaintext exactly when the input is what sealing that
/// plaintext under the same key and nonce produces.
#[verifier::external_body]
fn gcm_open(key: &[u8], nonce: &[u8], ct: &[u8]) -> (r: Option<Vec<u8>>)
    requires
        key@.len() == 32,
        nonce@.len() == 12,
    ensures
        r matches Some(p) ==> ct@ == gcm_sealed(key@, nonce@, p@),
        forall|pt: Seq<u8>| ct@ == #[trigger] gcm_sealed(key@, nonce@, pt) ==> (r is Some
            && r->Some_0@ == pt),
{
    let unbound = UnboundKey::new(&AES_256_GCM, key).ok()?;
    let nonce = Nonce::try_assume_unique_for_key(nonce).ok()?;
    let mut buf = ct.to_vec();
    let pt = LessSafeKey::new(unbound).open_in_place(nonce, Aad::empty(), &mut buf).ok()?;
    Some(pt.to_vec())
}

/// Relies on String::from_utf8: succeeds exactly on valid UTF-8 and
/// returns the text those bytes encode.
#[verifier::external_body]
fn bytes_to_string(b: Vec<u8>) -> (r: Option<String>)
    ensures
        r is Some <==> valid_utf8(b@),
        r matches Some(s) ==> s@ == decode_utf8(b@),
{
    String::from_utf8(b).ok()
}

/// The stateless AEAD cipher bound to one 256-bit key.
pub struct EncryptionService {
    key: Vec<u8>,
    rng: SystemRandom,
}

impl EncryptionService {
    /// The key this cipher seals and opens with.
    pub closed spec fn key_bytes(self) -> Seq<u8> {
        self.key@
    }

    /// A usable cipher holds exactly 32 key bytes.
    pub open spec fn wf(self) -> bool {
        self.key_bytes().len() == 32
    }

    /// Builds the cipher from the hex text of a 256-bit key, the form
    /// configuration supplies; anything that does not decode to exactly
    /// 32 bytes is a configuration fault.
    pub fn new(key_hex: &str) -> (r: Result<Self, EncryptionError>)
        ensures
            r is Ok <==> (is_hex_seq(key_hex@) && hex_decoded(key_hex@).len() == 32),
            r matches Ok(s) ==> s.wf() && s.key_bytes() == hex_decoded(key_hex@),
            r matches Err(e) ==> e == EncryptionError::InvalidKeyLength,
    {
        match hex_decode(key_hex) {
            None => Err(EncryptionError::InvalidKeyLength),
            Some(key) => {
                if key.len() != 32 {
                    return Err(EncryptionError::InvalidKeyLength);
                }
                Ok(EncryptionService { key, rng: new_system_random() })
            },
        }
    }

    /// Seals `plaintext`: draws a fresh random nonce, encrypts under the
    /// key, and returns the hex of `nonce ‖ ciphertext ‖ tag`. Fails only
    /// when the entropy source does; a fixed nonce is never substituted.
    pub fn encrypt(&self, plaintext: &str) -> (r: Result<String, EncryptionError>)
        requires
            self.wf(),
            plaintext.spec_bytes().len() <= MAX_PLAINTEXT_BYTES,
        ensures
            r matches Ok(ct) ==> is_envelope_for(self.key_bytes(), plaintext@, ct@),
            r matches Err(e) ==> e == EncryptionError::EntropyUnavailable,
    {
        let nonce = match fill_random(&self.rng, 12) {
            None => {
                return Err(EncryptionError::EntropyUnavailable);
            },
            Some(b) => b,
        };
        let sealed = gcm_seal(self.key.as_slice(), nonce.as_slice(), plaintext.as_bytes());
        let mut env = nonce;
        let mut sealed = sealed.unwrap();
        let ghost nonce_bytes = env@;
        let ghost sealed_bytes = sealed@;
        env.append(&mut sealed);
        let hexed = hex_encode(env.as_slice());
        proof {
            assert(is_envelope_with(self.key_bytes(), plaintext@, hexed@, nonce_bytes));
        }
        Ok(hexed)
    }

    /// Opens an envelope produced by `encrypt` under the same key: the
    /// round trip returns the sealed text exactly. Anything that is not
    /// hex of at least 28 bytes is malformed; a tampered or wrong-key
    /// envelope fails authentication; sealed bytes that are not UTF-8
    /// (a corrupt store) fail decoding. Altered plaintext is never
    /// returned: success means the input seals the output.
    pub fn decrypt(&self, ciphertext_hex: &str) -> (r: Result<String, EncryptionError>)
        requires
            self.wf(),
        ensures
            r == Err::<String, EncryptionError>(EncryptionError::MalformedEnvelope)
                <==> !well_formed_envelope_text(ciphertext_hex@),
            r == Err::<String, EncryptionError>(EncryptionError::AuthenticationFailed) <==> (
            well_formed_envelope_text(ciphertext_hex@) && !(exists|b: Seq<u8>|
                #[trigger] envelope_opens_to(
                    self.key_bytes(),
                    hex_decoded(ciphertext_hex@),
                    b,
                ))),
            r == Err::<String, EncryptionError>(EncryptionError::InvalidPlaintextEncoding) <==> (
            well_formed_envelope_text(ciphertext_hex@) && (exists|b: Seq<u8>|
                #[trigger] envelope_opens_to(self.key_bytes(), hex_decoded(ciphertext_hex@), b)
                    && !valid_utf8(b))),
            r matches Ok(pt) ==> well_formed_envelope_text(ciphertext_hex@) && envelope_opens_to(
                self.key_bytes(),
                hex_decoded(ciphertext_hex@),
                encode_utf8(pt@),
            ),
            forall|pt: Seq<char>| #[trigger] is_envelope_for(self.key_bytes(), pt, ciphertext_hex@)
                ==> (r is Ok && r->Ok_0@ == pt),
            forall|b: Seq<u8>|
                (is_hex_seq(ciphertext_hex@) && #[trigger] envelope_opens_to(
                    self.key_bytes(),
                    hex_decoded(ciphertext_hex@),
                    b,
                ) && valid_utf8(b)) ==> (r is Ok && r->Ok_0@ == decode_utf8(b)),
            r is Err ==> (r->Err_0 == EncryptionError::MalformedEnvelope || r->Err_0
                == EncryptionError::AuthenticationFailed || r->Err_0
                == EncryptionError::InvalidPlaintextEncoding),
    {
        let ghost key = self.key_bytes();
        let ghost s = ciphertext_hex@;
        let decoded = match hex_decode(ciphertext_hex) {
            None => {
                proof {
                    lemma_no_envelope_without_shape(key, s);
                }
                return Err(EncryptionError::MalformedEnvelope);
            },
            Some(b) => b,
        };
        if decoded.len() < 28 {
            proof {
                lemma_no_envelope_without_shape(key, s);
            }
            return Err(EncryptionError::MalformedEnvelope);
        }
        let ghost env = decoded@;
        let nonce = slice_subrange(decoded.as_slice(), 0, 12);
        let body = slice_subrange(decoded.as_slice(), 12, decoded.len());
        proof {
            assert(nonce@ =~= env.take(12));
            assert(body@ =~= env.skip(12));
        }
        let opened = match gcm_open(self.key.as_slice(), nonce, body) {
            None => {
                proof {
                    assert forall|pt: Seq<char>| !#[trigger] is_envelope_for(key, pt, s) by {
                        lemma_envelope_parts(key, s, env);
                    }
                }
                return Err(EncryptionError::AuthenticationFailed);
            },
            Some(p) => p,
        };
        let ghost pb = opened@;
        proof {
            assert forall|b: Seq<u8>| #[trigger] envelope_opens_to(key, env, b) implies b == pb by {}
            assert forall|pt: Seq<char>| #[trigger] is_envelope_for(key, pt, s) implies encode_utf8(
                pt,
            ) == pb by {
                lemma_envelope_parts(key, s, env);
            }
        }
        match bytes_to_string(opened) {
            None => {
                proof {
                    assert(envelope_opens_to(key, env, pb));
                    assert forall|pt: Seq<char>| !#[trigger] is_envelope_for(key, pt, s) by {
                        if is_envelope_for(key, pt, s) {
                            broadcast use encode_utf8_valid_utf8;

                        }
                    }
                }
                Err(EncryptionError::InvalidPlaintextEncoding)
            },
            Some(text) => {
                proof {
                    assert(envelope_opens_to(key, env, pb));
                    broadcast use decode_utf8_encode_utf8, encode_utf8_decode_utf8;

                    assert(encode_utf8(text@) == pb);
                }
                Ok(text)
            },
        }
    }
}

/// Text that is not well-shaped envelope hex seals nothing.
proof fn lemma_no_envelope_without_shape(key: Seq<u8>, s: Seq<char>)
    requires
        !well_formed_envelope_text(s),
    ensures
        forall|pt: Seq<char>| !#[trigger] is_envelope_for(key, pt, s),
{
    assert forall|pt: Seq<char>| !#[trigger] is_envelope_for(key, pt, s) by {
        if is_envelope_for(key, pt, s) {
            let nonce = choose|nonce: Seq<u8>| #[trigger] is_envelope_with(key, pt, s, nonce);
            lemma_hex_round_trip(nonce + gcm_sealed(key, nonce, encode_utf8(pt)));
        }
    }
}

/// Whatever an envelope text seals, its decoded bytes open to the
/// encoded plaintext under the leading nonce.
proof fn lemma_envelope_parts(key: Seq<u8>, s: Seq<char>, env: Seq<u8>)
    requires
        env == hex_decoded(s),
    ensures
        forall|pt: Seq<char>| #[trigger] is_envelope_for(key, pt, s) ==> envelope_opens_to(
            key,
            env,
            encode_utf8(pt),
        ),
{
    assert forall|pt: Seq<char>| #[trigger] is_envelope_for(key, pt, s) implies envelope_opens_to(
        key,
        env,
        encode_utf8(pt),
    ) by {
        let nonce = choose|nonce: Seq<u8>| #[trigger] is_envelope_with(key, pt, s, nonce);
        let sealed = gcm_sealed(key, nonce, encode_utf8(pt));
        lemma_hex_round_trip(nonce + sealed);
        assert(env == nonce + sealed);
        assert(env.take(12) =~= nonce);
        assert(env.skip(12) =~= sealed);
    }
}

/// Seals text for storage: hex of `nonce ‖ ciphertext ‖ tag` under the
/// service's key.
pub fn encrypt_text(svc: &EncryptionService, plaintext: &str) -> (r: Result<String, EncryptionError>)
    requires
        svc.wf(),
        plaintext.spec_bytes().len() <= MAX_PLAINTEXT_BYTES,
    ensures
        r matches Ok(ct) ==> is_envelope_for(svc.key_bytes(), plaintext@, ct@),
        r matches Err(e) ==> e == EncryptionError::EntropyUnavailable,
{
    svc.encrypt(plaintext)
}

/// Opens stored text sealed by `encrypt_text` under the same key.
pub fn decrypt_text(svc: &EncryptionService, ciphertext: &str) -> (r: Result<
    String,
    EncryptionError,
>)
    requires
        svc.wf(),
    ensures
        r matches Ok(pt) ==> well_formed_envelope_text(ciphertext@) && envelope_opens_to(
            svc.key_bytes(),
            hex_decoded(ciphertext@),
            encode_utf8(pt@),
        ),
        forall|pt: Seq<char>| #[trigger] is_envelope_for(svc.key_bytes(), pt, ciphertext@) ==> (r
            is Ok && r->Ok_0@ == pt),
        forall|b: Seq<u8>|
            (is_hex_seq(ciphertext@) && #[trigger] envelope_opens_to(
                svc.key_bytes(),
                hex_decoded(ciphertext@),
                b,
            ) && valid_utf8(b)) ==> (r is Ok && r->Ok_0@ == decode_utf8(b)),
        r == Err::<String, EncryptionError>(EncryptionError::MalformedEnvelope)
            <==> !well_formed_envelope_text(ciphertext@),
        r == Err::<String, EncryptionError>(EncryptionError::AuthenticationFailed) <==> (
        well_formed_envelope_text(ciphertext@) && !(exists|b: Seq<u8>|
            #[trigger] envelope_opens_to(svc.key_bytes(), hex_decoded(ciphertext@), b))),
        r == Err::<String, EncryptionError>(EncryptionError::InvalidPlaintextEncoding) <==> (
        well_formed_envelope_text(ciphertext@) && (exists|b: Seq<u8>|
            #[trigger] envelope_opens_to(svc.key_bytes(), hex_decoded(ciphertext@), b)
                && !valid_utf8(b))),
        r is Err ==> (r->Err_0 == EncryptionError::MalformedEnvelope || r->Err_0
            == EncryptionError::AuthenticationFailed || r->Err_0
            == EncryptionError::InvalidPlaintextEncoding),
{
    svc.decrypt(ciphertext)
}

} // verus!
