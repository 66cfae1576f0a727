use vstd::prelude::*;

use jsonwebtoken::errors::ErrorKind;
use jsonwebtoken::{decode, encode, DecodingKey, EncodingKey, Header, Validation};
use serde_json::Value;
use std::collections::HashSet;

verus! {

/// Identity facts carried by a session token: the subject, when it was
/// issued and when it stops being valid, all in unix seconds.
#[derive(Clone, Debug)]
pub struct Claims {
    pub sub: String,
    pub exp: i64,
    pub iat: i64,
}

/// Why a token failed verification. The three reasons matter only for
/// logging; callers collapse them into one unauthenticated outcome.
#[derive(Clone, Copy, Debug, PartialEq, Eq, Structural)]
pub enum TokenError {
    InvalidSignature,
    Expired,
    Malformed,
}

/// How long a freshly issued token stays valid, in seconds.
pub const TOKEN_LIFETIME_SECS: i64 = 86400;

/// The compact signed token that the default header, these claim fields
/// and this secret always produce: a fixed function of the four, since
/// both the claims serialization and HMAC signing are deterministic.
pub uninterp spec fn signed_token(sub: Seq<char>, iat: int, exp: int, secret: Seq<char>) -> Seq<
    char,
>;

/// What verification under a secret makes of a token, apart from the
/// clock: `Some((sub, iat, exp))` exactly when the token passes every
/// check of the verifier that does not consult the clock — shape, the
/// HS256 signature under the secret, the audience rule — and its
/// subject, issued-at and expiry fields read back as these values. A
/// fixed function of token and secret alone; whether `exp` has passed
/// is decided separately, over an explicit instant.
pub uninterp spec fn verified_claims(token: Seq<char>, secret: Seq<char>) -> Option<
    (Seq<char>, int, int),
>;

/// One clock instant accounts for a verification outcome: a token the
/// verifier accepts apart from timing yields exactly its claims while
/// its expiry lies beyond that instant, and is rejected as expired once
/// the instant reaches it.
pub open spec fn expiry_decided(
    token: Seq<char>,
    secret: Seq<char>,
    r: Result<Claims, TokenError>,
    now: int,
) -> bool {
    let vc = verified_claims(token, secret);
    &&& -377705116800 <= now <= 253402300799
    &&& ((vc is Some && now >= (vc->Some_0).2) ==> r == Err::<Claims, TokenError>(
        TokenError::Expired,
    ))
    &&& ((vc is Some && now < (vc->Some_0).2) ==> (r matches Ok(c) && c.sub@ == (vc->Some_0).0
        && c.iat == (vc->Some_0).1 && c.exp == (vc->Some_0).2))
}

/// Relies on time::OffsetDateTime::now_utc / unix_timestamp: the
/// current instant in unix seconds, always within the type's
/// documented year range. Outside that span — a system clock set past
/// the year 9999 — the call itself panics; no value escapes the range.
#[verifier::external_body]
fn now_unix() -> (r: i64)
    ensures
        -377705116800 <= r <= 253402300799,
{
    time::OffsetDateTime::now_utc().unix_timestamp()
}

/// Relies on jsonwebtoken::encode with the default (HS256) header: the
/// claims object carries exactly the sub, iat and exp fields, its
/// serialization is deterministic, and HMAC signing with a secret key is
/// deterministic and cannot fail — so encoding succeeds and the token is
/// a fixed function of the claims and the secret. A token so produced
/// also passes every clock-free verification check under the same
/// secret, reading back as the very fields that were signed.
#[verifier::external_body]
fn jwt_encode(claims: &Claims, secret: &str) -> (r: Option<String>)
    ensures
        r is Some,
        r matches Some(t) ==> t@ == signed_token(
            claims.sub@,
            claims.iat as int,
            claims.exp as int,
            secret@,
        ),
        r matches Some(t) ==> verified_claims(t@, secret@) == Some(
            (claims.sub@, claims.iat as int, claims.exp as int),
        ),
{
    let mut m = serde_json::Map::new();
    m.insert("sub".to_owned(), Value::from(claims.sub.clone()));
    m.insert("iat".to_owned(), Value::from(claims.iat));
    m.insert("exp".to_owned(), Value::from(claims.exp));
    let key = EncodingKey::from_secret(secret.as_bytes());
    encode(&Header::default(), &Value::Object(m), &key).ok()
}

/// Relies on jsonwebtoken::decode for everything but timing: expiry
/// checking is turned off and no claim is made mandatory, so the call
/// performs exactly the clock-free checks — shape, the HS256 signature
/// under the secret, the audience rule — and the wrapper reads the
/// three claim fields back. Success is exactly the verdict that
/// `verified_claims` names; a failure is a wrong signature, or
/// malformed for everything structural. Expiry is the caller's to
/// decide.
#[verifier::external_body]
fn jwt_decode(token: &str, secret: &str) -> (r: Result<Claims, TokenError>)
    ensures
        r matches Ok(c) ==> verified_claims(token@, secret@) == Some(
            (c.sub@, c.iat as int, c.exp as int),
        ),
        r is Err ==> (r->Err_0 == TokenError::InvalidSignature || r->Err_0
            == TokenError::Malformed),
        verified_claims(token@, secret@) is Some ==> r is Ok,
        forall|sub: Seq<char>, iat: int, exp: int|
            (#[trigger] signed_token(sub, iat, exp, secret@) == token@) ==> ((r matches Ok(c)
                && c.sub@ == sub && c.iat == iat && c.exp == exp) || r == Err::<
                Claims,
                TokenError,
            >(TokenError::Expired)),
{
    let key = DecodingKey::from_secret(secret.as_bytes());
    let mut validation = Validation::default();
    validation.validate_exp = false;
    validation.required_spec_claims = HashSet::new();
    let data = decode::<Value>(token, &key, &validation).map_err(|e| match e.kind() {
        ErrorKind::InvalidSignature => TokenError::InvalidSignature,
        _ => TokenError::Malformed,
    })?;
    let sub = data.claims.get("sub").and_then(|v| v.as_str()).ok_or(TokenError::Malformed)?;
    let iat = data.claims.get("iat").and_then(|v| v.as_i64()).ok_or(TokenError::Malformed)?;
    let exp = data.claims.get("exp").and_then(|v| v.as_i64()).ok_or(TokenError::Malformed)?;
    Ok(Claims { sub: sub.to_owned(), exp, iat })
}

impl Claims {
    /// Fresh claims for a subject: issued at the given instant and
    /// expiring one token lifetime later.
    pub fn new(subject: &str, now: i64) -> (r: Claims)
        requires
            now + TOKEN_LIFETIME_SECS <= i64::MAX,
        ensures
            r.sub@ == subject@,
            r.iat == now,
            r.exp == now + TOKEN_LIFETIME_SECS,
    {
        Claims { sub: subject.to_owned(), exp: now + TOKEN_LIFETIME_SECS, iat: now }
    }
}

/// The timing half of verification: claims whose time is up — the
/// instant at or past `expires_at` — are rejected as expired, anything
/// earlier passes through unchanged.
pub fn check_expiry(claims: Claims, now: i64) -> (r: Result<Claims, TokenError>)
    ensures
        now >= claims.exp <==> r == Err::<Claims, TokenError>(TokenError::Expired),
        now < claims.exp ==> (r matches Ok(c) && c == claims),
{
    if now >= claims.exp {
        Err(TokenError::Expired)
    } else {
        Ok(claims)
    }
}

/// Issues the session token for a subject: claims built at the current
/// instant, signed under the shared secret. Never fails, and the token
/// verifies back (clock aside) to the subject it was issued for.
pub fn create_jwt(subject: &str, secret: &str) -> (r: Result<String, TokenError>)
    ensures
        r is Ok,
        r matches Ok(t) ==> (exists|iat: int|
            -377705116800 <= iat <= 253402300799 && t@ == #[trigger] signed_token(
                subject@,
                iat,
                iat + TOKEN_LIFETIME_SECS,
                secret@,
            ) && verified_claims(t@, secret@) == Some(
                (subject@, iat, iat + TOKEN_LIFETIME_SECS),
            )),
{
    let now = now_unix();
    let claims = Claims::new(subject, now);
    let token = jwt_encode(&claims, secret).unwrap();
    Ok(token)
}

/// Verifies a session token under the shared secret: the clock-free
/// checks — structure, signature, fields — and then expiry against the
/// current instant. Success is sound (the claims handed back are
/// exactly what verification vouches for, never invented), a token the
/// verifier does not accept is never reported expired, and one instant
/// of the clock accounts for the whole outcome: an accepted token
/// yields its claims exactly while that instant lies before its expiry,
/// and is rejected as expired once the instant reaches it.
pub fn verify_jwt(token: &str, secret: &str) -> (r: Result<Claims, TokenError>)
    ensures
        r matches Ok(c) ==> verified_claims(token@, secret@) == Some(
            (c.sub@, c.iat as int, c.exp as int),
        ),
        verified_claims(token@, secret@) is None ==> (r is Err && r->Err_0 != TokenError::Expired),
        r == Err::<Claims, TokenError>(TokenError::Expired) ==> verified_claims(token@, secret@)
            is Some,
        exists|now: int| #[trigger] expiry_decided(token@, secret@, r, now),
        forall|sub: Seq<char>, iat: int, exp: int|
            #[trigger] signed_token(sub, iat, exp, secret@) == token@ ==> ((r matches Ok(c)
                && c.sub@ == sub && c.iat == iat && c.exp == exp) || r == Err::<
                Claims,
                TokenError,
            >(TokenError::Expired)),
{
    let claims = match jwt_decode(token, secret) {
        Ok(c) => c,
        Err(e) => {
            proof {
                assert(expiry_decided(token@, secret@, Err::<Claims, TokenError>(e), 0));
            }
            return Err(e);
        },
    };
    let now = now_unix();
    let verdict = check_expiry(claims, now);
    proof {
        assert(expiry_decided(token@, secret@, verdict, now as int));
    }
    verdict
}

} // verus!
