use gateway_auth::errors::{AppError, TokenError};
use gateway_auth::flow::{login, logout, refresh};
use gateway_auth::iam::User;
use gateway_auth::middleware::session_confirms;
use gateway_auth::session::SessionStore;
use gateway_auth::token::validate_token;

const SECRET: &str = "flow-secret";

fn sample_user() -> User {
    User {
        id: "identity-42".to_string(),
        email: "user@example.com".to_string(),
        name: "Sample User".to_string(),
        role: "admin".to_string(),
    }
}

#[test]
fn login_returns_tokens_for_the_identity_the_service_confirmed() {
    let user = sample_user();
    let mut store = SessionStore::new();
    let resp = login(Some(&user), SECRET, 24, &mut store).expect("login succeeds");
    assert_eq!(resp.user.id, "identity-42");
    assert_eq!(resp.user.email, "user@example.com");
    assert_eq!(resp.user.name, "Sample User");
    assert_eq!(resp.user.role, "admin");
    assert_eq!(resp.expires_in, 24 * 3600);

    let now = chrono::Utc::now().timestamp();
    let claims = validate_token(&resp.access_token, SECRET, now).expect("fresh access token");
    assert_eq!(claims.sub, user.id);
    assert_eq!(claims.role, user.role);
    assert_eq!(claims.exp - claims.iat, 24 * 3600);
}

#[test]
fn login_records_the_session_before_returning() {
    let user = sample_user();
    let mut store = SessionStore::new();
    let resp = login(Some(&user), SECRET, 24, &mut store).unwrap();
    let now = chrono::Utc::now().timestamp();
    let claims = validate_token(&resp.access_token, SECRET, now).unwrap();
    let record = store.get("identity-42").expect("session recorded");
    assert_eq!(record.jti, claims.jti);
    assert_eq!(record.user_id, "identity-42");
    assert_eq!(record.role, "admin");
    assert!(session_confirms(&claims, Some(record)));
}

#[test]
fn rejected_credentials_are_one_uniform_failure() {
    let mut store = SessionStore::new();
    let denied = login(None, SECRET, 24, &mut store).unwrap_err();
    assert_eq!(denied, AppError::AuthenticationError);
    assert_eq!(denied.http_status(), 401);
    assert_eq!(denied.message(), "Authentication failed");
    assert_eq!(store.len(), 0, "a failed login records nothing");
}

#[test]
fn second_login_overwrites_the_first_session() {
    let user = sample_user();
    let mut store = SessionStore::new();
    let first = login(Some(&user), SECRET, 24, &mut store).unwrap();
    let second = login(Some(&user), SECRET, 24, &mut store).unwrap();
    let now = chrono::Utc::now().timestamp();
    let first_claims = validate_token(&first.access_token, SECRET, now).unwrap();
    let second_claims = validate_token(&second.access_token, SECRET, now).unwrap();
    assert_ne!(first_claims.jti, second_claims.jti);
    let record = store.get("identity-42").unwrap();
    assert_eq!(record.jti, second_claims.jti);
    assert!(!session_confirms(&first_claims, Some(record)));
    assert!(session_confirms(&second_claims, Some(record)));
}

#[test]
fn refresh_issues_a_new_pair_for_the_same_identity() {
    let user = sample_user();
    let mut store = SessionStore::new();
    let resp = login(Some(&user), SECRET, 24, &mut store).unwrap();
    let now = chrono::Utc::now().timestamp();
    let pair = refresh(&resp.refresh_token, SECRET, 24, now).expect("live refresh token");
    assert_eq!(pair.expires_in, 24 * 3600);
    let claims = validate_token(&pair.access_token, SECRET, now).unwrap();
    assert_eq!(claims.sub, "identity-42");
    assert_eq!(claims.role, "admin");
    assert_eq!(claims.iat, now);
    let old_claims = validate_token(&resp.access_token, SECRET, now).unwrap();
    assert_ne!(claims.jti, old_claims.jti);
}

#[test]
fn an_expired_refresh_token_is_refused() {
    let user = sample_user();
    let mut store = SessionStore::new();
    let resp = login(Some(&user), SECRET, 1, &mut store).unwrap();
    let far_future = chrono::Utc::now().timestamp() + 31 * 24 * 3600;
    assert_eq!(
        refresh(&resp.refresh_token, SECRET, 1, far_future),
        Err(AppError::JwtError(TokenError::Expired))
    );
}

#[test]
fn a_forged_refresh_token_is_refused() {
    let now = chrono::Utc::now().timestamp();
    assert!(matches!(
        refresh("utterly.not.signed", SECRET, 24, now),
        Err(AppError::JwtError(_))
    ));
}

#[test]
fn logout_revokes_the_session() {
    let user = sample_user();
    let mut store = SessionStore::new();
    let resp = login(Some(&user), SECRET, 24, &mut store).unwrap();
    let now = chrono::Utc::now().timestamp();
    let claims = validate_token(&resp.access_token, SECRET, now).unwrap();
    logout(&mut store, "identity-42");
    assert!(store.get("identity-42").is_none());
    assert!(!session_confirms(&claims, store.get("identity-42")));
}
