use gateway_auth::errors::AppError;
use gateway_auth::flow::{login, logout};
use gateway_auth::iam::User;
use gateway_auth::middleware::{authorize_request, authorize_revocable, extract_bearer, session_confirms};
use gateway_auth::session::{SessionRecord, SessionStore};
use gateway_auth::token::issue_at;

const SECRET: &str = "middleware-secret";
const NOW: i64 = 1_700_000_000;

fn bearer_header(hours: i64) -> String {
    let tokens = issue_at(
        "user-7",
        "seven@example.com",
        "operator",
        SECRET,
        hours,
        NOW,
        "jti-mw-access".to_string(),
        "jti-mw-refresh".to_string(),
    )
    .unwrap();
    format!("Bearer {}", tokens.access_token)
}

#[test]
fn valid_bearer_token_reaches_the_handler_with_identity() {
    let header = bearer_header(24);
    let claims = authorize_request(Some(&header), SECRET, NOW).expect("authorized");
    assert_eq!(claims.sub, "user-7");
    assert_eq!(claims.role, "operator");
    assert_eq!(claims.jti, "jti-mw-access");
}

#[test]
fn missing_header_is_rejected() {
    let denied = authorize_request(None, SECRET, NOW).unwrap_err();
    assert_eq!(denied, AppError::Unauthorized);
    assert_eq!(denied.http_status(), 401);
}

#[test]
fn malformed_scheme_is_rejected() {
    let header = bearer_header(24).replace("Bearer ", "Token ");
    assert_eq!(
        authorize_request(Some(&header), SECRET, NOW),
        Err(AppError::Unauthorized)
    );
    assert_eq!(
        authorize_request(Some("bearer lowercase-scheme"), SECRET, NOW),
        Err(AppError::Unauthorized)
    );
    assert_eq!(
        authorize_request(Some(""), SECRET, NOW),
        Err(AppError::Unauthorized)
    );
}

#[test]
fn expired_token_is_rejected() {
    let header = bearer_header(1);
    assert_eq!(
        authorize_request(Some(&header), SECRET, NOW + 3600),
        Err(AppError::Unauthorized)
    );
}

#[test]
fn tampered_token_is_rejected() {
    let mut header = bearer_header(24);
    header.push('x');
    assert_eq!(
        authorize_request(Some(&header), SECRET, NOW),
        Err(AppError::Unauthorized)
    );
}

#[test]
fn bearer_extraction_takes_what_follows_the_scheme() {
    assert_eq!(extract_bearer("Bearer abc.def.ghi"), Some("abc.def.ghi"));
    assert_eq!(extract_bearer("Bearer "), Some(""));
    assert_eq!(extract_bearer("Bearerabc"), None);
    assert_eq!(extract_bearer("abc"), None);
    assert_eq!(extract_bearer(""), None);
}

#[test]
fn session_confirms_only_the_recorded_token() {
    let header = bearer_header(24);
    let claims = authorize_request(Some(&header), SECRET, NOW).unwrap();
    let live = SessionRecord {
        user_id: "user-7".to_string(),
        email: "seven@example.com".to_string(),
        role: "operator".to_string(),
        jti: "jti-mw-access".to_string(),
        expires_at: NOW + 24 * 3600,
    };
    assert!(session_confirms(&claims, Some(&live)));
    let replaced = SessionRecord {
        jti: "jti-of-a-newer-login".to_string(),
        ..live
    };
    assert!(!session_confirms(&claims, Some(&replaced)));
    assert!(!session_confirms(&claims, None));
}

#[test]
fn revocable_authorization_tracks_the_session_store() {
    let user = User {
        id: "user-7".to_string(),
        email: "seven@example.com".to_string(),
        name: "Seven".to_string(),
        role: "operator".to_string(),
    };
    let mut store = SessionStore::new();
    let resp = login(Some(&user), SECRET, 24, &mut store).unwrap();
    let header = format!("Bearer {}", resp.access_token);
    let now = chrono::Utc::now().timestamp();

    let claims =
        authorize_revocable(Some(&header), SECRET, now, &store)
            .expect("live session confirms the token");
    assert_eq!(claims.sub, "user-7");

    // a newer login displaces the first token
    let newer = login(Some(&user), SECRET, 24, &mut store).unwrap();
    assert_eq!(
        authorize_revocable(Some(&header), SECRET, now, &store),
        Err(AppError::Unauthorized)
    );
    let newer_header = format!("Bearer {}", newer.access_token);
    assert!(
        authorize_revocable(Some(&newer_header), SECRET, now, &store)
            .is_ok()
    );

    // logout revokes the rest
    logout(&mut store, "user-7");
    assert_eq!(
        authorize_revocable(Some(&newer_header), SECRET, now, &store),
        Err(AppError::Unauthorized)
    );
}
