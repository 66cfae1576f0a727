use kryptic_journal::{
    authorize_request, check_expiry, create_jwt, extract_bearer_token, verify_jwt, Claims,
    RejectReason, TokenError, TOKEN_LIFETIME_SECS,
};

const SECRET: &str = "unit-test-signing-secret";

fn now_unix() -> i64 {
    time::OffsetDateTime::now_utc().unix_timestamp()
}

fn token_with(sub: Option<&str>, iat: i64, exp: i64, secret: &str) -> String {
    let mut m = serde_json::Map::new();
    if let Some(sub) = sub {
        m.insert("sub".to_owned(), serde_json::Value::from(sub));
    }
    m.insert("iat".to_owned(), serde_json::Value::from(iat));
    m.insert("exp".to_owned(), serde_json::Value::from(exp));
    let key = jsonwebtoken::EncodingKey::from_secret(secret.as_bytes());
    jsonwebtoken::encode(&jsonwebtoken::Header::default(), &serde_json::Value::Object(m), &key)
        .unwrap()
}

#[test]
fn issue_then_verify_returns_the_subject() {
    let token = create_jwt("user-1", SECRET).unwrap();
    let claims = verify_jwt(&token, SECRET).unwrap();
    assert_eq!(claims.sub, "user-1");
    assert_eq!(claims.exp, claims.iat + TOKEN_LIFETIME_SECS);
}

#[test]
fn claims_are_issued_with_one_day_lifetime() {
    let now = now_unix();
    let claims = Claims::new("alice", now);
    assert_eq!(claims.sub, "alice");
    assert_eq!(claims.iat, now);
    assert_eq!(claims.exp, now + 86400);
}

#[test]
fn expiry_check_rejects_exactly_from_the_expiry_instant() {
    let claims = Claims::new("bob", 1_700_000_000);
    assert!(check_expiry(claims.clone(), 1_700_000_000 + 86399).is_ok());
    assert_eq!(
        check_expiry(claims.clone(), 1_700_000_000 + 86400).unwrap_err(),
        TokenError::Expired
    );
    assert_eq!(
        check_expiry(claims, 1_700_000_000 + 86401).unwrap_err(),
        TokenError::Expired
    );
}

#[test]
fn token_signed_with_another_secret_is_rejected() {
    let token = create_jwt("user-1", SECRET).unwrap();
    assert_eq!(verify_jwt(&token, "another secret").unwrap_err(), TokenError::InvalidSignature);
}

#[test]
fn expired_token_is_rejected() {
    let now = now_unix();
    let token = token_with(Some("user-1"), now - 7200, now - 3600, SECRET);
    assert_eq!(verify_jwt(&token, SECRET).unwrap_err(), TokenError::Expired);
}

#[test]
fn token_expiring_at_this_instant_is_rejected() {
    let now = now_unix();
    let token = token_with(Some("user-1"), now - 7200, now, SECRET);
    assert_eq!(verify_jwt(&token, SECRET).unwrap_err(), TokenError::Expired);
}

#[test]
fn token_with_negative_expiry_is_expired() {
    let token = token_with(Some("user-1"), -7200, -3600, SECRET);
    assert_eq!(verify_jwt(&token, SECRET).unwrap_err(), TokenError::Expired);
}

#[test]
fn garbage_token_is_malformed() {
    assert_eq!(verify_jwt("not.a.token", SECRET).unwrap_err(), TokenError::Malformed);
    assert_eq!(verify_jwt("", SECRET).unwrap_err(), TokenError::Malformed);
}

#[test]
fn token_without_subject_is_malformed() {
    let now = now_unix();
    let token = token_with(None, now, now + 3600, SECRET);
    assert_eq!(verify_jwt(&token, SECRET).unwrap_err(), TokenError::Malformed);
}

#[test]
fn non_canonical_but_signed_token_verifies_to_its_subject() {
    let now = now_unix();
    let mut m = serde_json::Map::new();
    m.insert("sub".to_owned(), serde_json::Value::from("user-9"));
    m.insert("iat".to_owned(), serde_json::Value::from(now));
    m.insert("exp".to_owned(), serde_json::Value::from(now + 3600));
    m.insert("role".to_owned(), serde_json::Value::from("editor"));
    let key = jsonwebtoken::EncodingKey::from_secret(SECRET.as_bytes());
    let token = jsonwebtoken::encode(
        &jsonwebtoken::Header::default(),
        &serde_json::Value::Object(m),
        &key,
    )
    .unwrap();
    let claims = verify_jwt(&token, SECRET).unwrap();
    assert_eq!(claims.sub, "user-9");
    assert_eq!(claims.iat, now);
    assert_eq!(claims.exp, now + 3600);
}

#[test]
fn bearer_prefix_is_stripped_once() {
    assert_eq!(extract_bearer_token(Some("Bearer abc")), Ok("abc".to_string()));
    assert_eq!(
        extract_bearer_token(Some("Bearer Bearer abc")),
        Ok("Bearer abc".to_string())
    );
}

#[test]
fn gate_rejects_missing_header() {
    assert_eq!(authorize_request(None, SECRET), Err(RejectReason::MissingCredential));
}

#[test]
fn gate_rejects_malformed_scheme() {
    assert_eq!(
        authorize_request(Some("Token abc"), SECRET),
        Err(RejectReason::MalformedScheme)
    );
    assert_eq!(
        authorize_request(Some("bearer abc"), SECRET),
        Err(RejectReason::MalformedScheme)
    );
    assert_eq!(authorize_request(Some("Bearer"), SECRET), Err(RejectReason::MalformedScheme));
    assert_eq!(authorize_request(Some(""), SECRET), Err(RejectReason::MalformedScheme));
}

#[test]
fn gate_rejects_invalid_and_expired_tokens() {
    assert_eq!(
        authorize_request(Some("Bearer garbage"), SECRET),
        Err(RejectReason::InvalidToken)
    );
    let now = now_unix();
    let stale = token_with(Some("user-1"), now - 7200, now - 3600, SECRET);
    let header = format!("Bearer {stale}");
    assert_eq!(authorize_request(Some(&header), SECRET), Err(RejectReason::InvalidToken));
    let forged = create_jwt("user-1", "another secret").unwrap();
    let header = format!("Bearer {forged}");
    assert_eq!(authorize_request(Some(&header), SECRET), Err(RejectReason::InvalidToken));
}

#[test]
fn gate_admits_a_fresh_token_with_its_principal() {
    let token = create_jwt("user-42", SECRET).unwrap();
    let header = format!("Bearer {token}");
    assert_eq!(authorize_request(Some(&header), SECRET), Ok("user-42".to_string()));
}
