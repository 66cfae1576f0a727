use kryptic_journal::{
    decrypt_text, encrypt_text, sealed_content_for_update, EncryptionError, EncryptionService,
    UpdateJournalEntry,
};
use ring::aead::{Aad, LessSafeKey, Nonce, UnboundKey, AES_256_GCM};

const KEY_HEX: &str = "000102030405060708090a0b0c0d0e0f101112131415161718191a1b1c1d1e1f";
const OTHER_KEY_HEX: &str = "ffeeddccbbaa99887766554433221100ffeeddccbbaa99887766554433221100";

fn service() -> EncryptionService {
    EncryptionService::new(KEY_HEX).unwrap()
}

#[test]
fn round_trip_plain_text() {
    let svc = service();
    let sealed = encrypt_text(&svc, "journal day one").unwrap();
    assert_eq!(decrypt_text(&svc, &sealed).unwrap(), "journal day one");
}

#[test]
fn round_trip_empty_string() {
    let svc = service();
    let sealed = encrypt_text(&svc, "").unwrap();
    assert_eq!(decrypt_text(&svc, &sealed).unwrap(), "");
}

#[test]
fn round_trip_multibyte_text() {
    let svc = service();
    let text = "heute war schön — 日記 🙂";
    let sealed = encrypt_text(&svc, text).unwrap();
    assert_eq!(decrypt_text(&svc, &sealed).unwrap(), text);
}

#[test]
fn envelopes_differ_between_calls() {
    let svc = service();
    let first = encrypt_text(&svc, "same text").unwrap();
    let second = encrypt_text(&svc, "same text").unwrap();
    assert_ne!(first, second);
    assert_eq!(decrypt_text(&svc, &first).unwrap(), "same text");
    assert_eq!(decrypt_text(&svc, &second).unwrap(), "same text");
}

#[test]
fn envelope_is_lowercase_hex_of_expected_length() {
    let svc = service();
    let text = "exactly nineteen by";
    let sealed = encrypt_text(&svc, text).unwrap();
    assert_eq!(sealed.len(), 2 * (12 + text.len() + 16));
    assert!(sealed.chars().all(|c| c.is_ascii_hexdigit() && !c.is_ascii_uppercase()));
}

#[test]
fn flipping_any_ciphertext_or_tag_bit_fails() {
    let svc = service();
    let sealed = encrypt_text(&svc, "tamper me").unwrap();
    let bytes = hex::decode(&sealed).unwrap();
    for i in 12..bytes.len() {
        for bit in 0..8 {
            let mut altered = bytes.clone();
            altered[i] ^= 1 << bit;
            let altered_hex = hex::encode(&altered);
            assert!(decrypt_text(&svc, &altered_hex).is_err());
        }
    }
}

#[test]
fn short_envelope_is_malformed() {
    let svc = service();
    let short = "00".repeat(27);
    assert_eq!(decrypt_text(&svc, &short), Err(EncryptionError::MalformedEnvelope));
}

#[test]
fn non_hex_text_is_malformed() {
    let svc = service();
    assert_eq!(decrypt_text(&svc, "not hex at all!!"), Err(EncryptionError::MalformedEnvelope));
}

#[test]
fn odd_length_hex_is_malformed() {
    let svc = service();
    let odd = "0".repeat(57);
    assert_eq!(decrypt_text(&svc, &odd), Err(EncryptionError::MalformedEnvelope));
}

#[test]
fn wrong_key_fails_authentication() {
    let svc = service();
    let other = EncryptionService::new(OTHER_KEY_HEX).unwrap();
    let sealed = encrypt_text(&svc, "for my eyes only").unwrap();
    assert_eq!(decrypt_text(&other, &sealed), Err(EncryptionError::AuthenticationFailed));
}

#[test]
fn key_must_be_32_hex_decoded_bytes() {
    assert!(matches!(EncryptionService::new("aabb"), Err(EncryptionError::InvalidKeyLength)));
    let not_hex = "zz".repeat(32);
    assert!(matches!(EncryptionService::new(&not_hex), Err(EncryptionError::InvalidKeyLength)));
    let thirty_three = "00".repeat(33);
    assert!(matches!(
        EncryptionService::new(&thirty_three),
        Err(EncryptionError::InvalidKeyLength)
    ));
    assert!(EncryptionService::new(KEY_HEX).is_ok());
}

#[test]
fn wire_format_matches_ring_sealing() {
    let key_bytes = hex::decode(KEY_HEX).unwrap();
    let nonce_bytes: [u8; 12] = [9, 8, 7, 6, 5, 4, 3, 2, 1, 0, 1, 2];
    let text = "written by another process";
    let unbound = UnboundKey::new(&AES_256_GCM, &key_bytes).unwrap();
    let key = LessSafeKey::new(unbound);
    let mut buf = text.as_bytes().to_vec();
    key.seal_in_place_append_tag(
        Nonce::assume_unique_for_key(nonce_bytes),
        Aad::empty(),
        &mut buf,
    )
    .unwrap();
    let mut envelope = nonce_bytes.to_vec();
    envelope.extend_from_slice(&buf);
    let sealed_hex = hex::encode(&envelope);

    let svc = service();
    assert_eq!(decrypt_text(&svc, &sealed_hex).unwrap(), text);
}

#[test]
fn uppercase_hex_envelope_still_opens() {
    let svc = service();
    let sealed = encrypt_text(&svc, "case does not matter").unwrap();
    let upper = sealed.to_uppercase();
    assert_eq!(decrypt_text(&svc, &upper).unwrap(), "case does not matter");
}

#[test]
fn decrypt_is_deterministic() {
    let svc = service();
    let sealed = encrypt_text(&svc, "same answer each time").unwrap();
    assert_eq!(decrypt_text(&svc, &sealed), decrypt_text(&svc, &sealed));
    let short = "00".repeat(27);
    assert_eq!(decrypt_text(&svc, &short), decrypt_text(&svc, &short));
}

#[test]
fn update_without_content_keeps_stored_envelope() {
    let svc = service();
    let stored = encrypt_text(&svc, "old entry").unwrap();
    let update = UpdateJournalEntry {
        title: Some("new title".to_string()),
        content: None,
        mood_score: Some(7),
        tags: None,
    };
    let kept = sealed_content_for_update(&svc, &update, &stored).unwrap();
    assert_eq!(kept, stored);
}

#[test]
fn update_with_content_seals_the_new_text() {
    let svc = service();
    let stored = encrypt_text(&svc, "old entry").unwrap();
    let update = UpdateJournalEntry {
        title: None,
        content: Some("new entry".to_string()),
        mood_score: None,
        tags: None,
    };
    let sealed = sealed_content_for_update(&svc, &update, &stored).unwrap();
    assert_ne!(sealed, stored);
    assert_eq!(decrypt_text(&svc, &sealed).unwrap(), "new entry");
}
