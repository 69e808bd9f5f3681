use gateway_auth::errors::{AppError, TokenError};
use gateway_auth::token::{generate_tokens, issue_at, validate_token};

const SECRET: &str = "test-signing-secret";
const NOW: i64 = 1_700_000_000;

fn issue_pair(hours: i64) -> gateway_auth::token::AuthTokens {
    issue_at(
        "user-1",
        "user@example.com",
        "admin",
        SECRET,
        hours,
        NOW,
        "jti-access-0001".to_string(),
        "jti-refresh-0001".to_string(),
    )
    .expect("issuance should succeed")
}

#[test]
fn issued_access_token_validates_with_exact_lifetime() {
    let tokens = issue_pair(24);
    assert_eq!(tokens.expires_in, 24 * 3600);
    let claims = validate_token(&tokens.access_token, SECRET, NOW).expect("fresh token is valid");
    assert_eq!(claims.sub, "user-1");
    assert_eq!(claims.email, "user@example.com");
    assert_eq!(claims.role, "admin");
    assert_eq!(claims.iat, NOW);
    assert_eq!(claims.exp - claims.iat, 24 * 3600);
    assert_eq!(claims.jti, "jti-access-0001");
}

#[test]
fn validation_succeeds_until_expiry_and_fails_after() {
    let tokens = issue_pair(1);
    let exp = NOW + 3600;
    assert!(validate_token(&tokens.access_token, SECRET, exp - 1).is_ok());
    assert!(matches!(
        validate_token(&tokens.access_token, SECRET, exp),
        Err(TokenError::Expired)
    ));
    assert!(matches!(
        validate_token(&tokens.access_token, SECRET, exp + 12345),
        Err(TokenError::Expired)
    ));
}

#[test]
fn refresh_token_outlives_access_token() {
    let tokens = issue_pair(24);
    let access = validate_token(&tokens.access_token, SECRET, NOW).unwrap();
    let refresh = validate_token(&tokens.refresh_token, SECRET, NOW).unwrap();
    assert!(refresh.exp > access.exp);
    assert_eq!(refresh.exp - refresh.iat, 30 * 24 * 3600);
    assert_ne!(access.jti, refresh.jti);
}

#[test]
fn wrong_secret_is_an_invalid_signature() {
    let tokens = issue_pair(24);
    assert!(matches!(
        validate_token(&tokens.access_token, "another-secret", NOW),
        Err(TokenError::InvalidSignature)
    ));
}

#[test]
fn garbage_is_malformed() {
    assert!(matches!(
        validate_token("not-a-token", SECRET, NOW),
        Err(TokenError::Malformed)
    ));
    assert!(matches!(
        validate_token("still.not.atoken", SECRET, NOW),
        Err(TokenError::Malformed)
    ));
    assert!(matches!(
        validate_token("", SECRET, NOW),
        Err(TokenError::Malformed)
    ));
}

#[test]
fn two_issuances_carry_distinct_token_identifiers() {
    let a = generate_tokens("user-1", "user@example.com", "admin", SECRET, 24).unwrap();
    let b = generate_tokens("user-1", "user@example.com", "admin", SECRET, 24).unwrap();
    let now = chrono::Utc::now().timestamp();
    let ca = validate_token(&a.access_token, SECRET, now).unwrap();
    let cb = validate_token(&b.access_token, SECRET, now).unwrap();
    assert_ne!(ca.jti, cb.jti);
    assert_ne!(a.access_token, b.access_token);
}

#[test]
fn lifetime_out_of_range_is_rejected() {
    assert!(matches!(
        generate_tokens("u", "e", "r", SECRET, 0),
        Err(AppError::BadRequest(_))
    ));
    assert!(matches!(
        generate_tokens("u", "e", "r", SECRET, -3),
        Err(AppError::BadRequest(_))
    ));
    assert!(matches!(
        generate_tokens("u", "e", "r", SECRET, 720),
        Err(AppError::BadRequest(_))
    ));
}

#[test]
fn generated_tokens_validate_at_the_clock_now() {
    let tokens = generate_tokens("user-9", "nine@example.com", "user", SECRET, 2).unwrap();
    let now = chrono::Utc::now().timestamp();
    let claims = validate_token(&tokens.access_token, SECRET, now).unwrap();
    assert_eq!(claims.sub, "user-9");
    assert_eq!(claims.exp - claims.iat, 2 * 3600);
    assert_eq!(tokens.expires_in, 2 * 3600);
}

fn signed_raw_token(exp: i64, secret: &str) -> String {
    let mut m = serde_json::Map::new();
    m.insert("sub".to_string(), serde_json::Value::from("user-1"));
    m.insert("email".to_string(), serde_json::Value::from("user@example.com"));
    m.insert("role".to_string(), serde_json::Value::from("admin"));
    m.insert("exp".to_string(), serde_json::Value::from(exp));
    m.insert("iat".to_string(), serde_json::Value::from(0i64));
    m.insert("jti".to_string(), serde_json::Value::from("jti-raw"));
    jsonwebtoken::encode(
        &jsonwebtoken::Header::default(),
        &serde_json::Value::Object(m),
        &jsonwebtoken::EncodingKey::from_secret(secret.as_bytes()),
    )
    .unwrap()
}

#[test]
fn negative_expiry_token_is_malformed() {
    // the decoder requires a non-negative expiry claim, so a correctly
    // signed token with a negative one is malformed, not expired
    let below = signed_raw_token(-5, SECRET);
    assert!(matches!(
        validate_token(&below, SECRET, 0),
        Err(TokenError::Malformed)
    ));
    let at_zero = signed_raw_token(100, SECRET);
    let claims = validate_token(&at_zero, SECRET, 0).expect("non-negative expiry decodes");
    assert_eq!(claims.exp, 100);
}
