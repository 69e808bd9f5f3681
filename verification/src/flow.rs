//! The login, refresh and logout flows.
//!
//! Login delegates the credential check to the identity service and takes
//! its outcome as an argument: a rejected check is one uniform
//! authentication failure, a confirmed identity gets a fresh token pair
//! and a session record keyed by its subject, written before the tokens
//! are returned — a login never succeeds without a recorded session.
//! Refresh trades a live refresh token for a brand-new pair for the same
//! identity.  Logout revokes the subject's session record, so a
//! revocation check no longer confirms the old tokens.

use vstd::prelude::*;

use crate::errors::AppError;
use crate::iam::User;
use crate::session::{SessionRecord, SessionStore};
use crate::token::{
    fresh_token_id, issue_at, token_of, unix_now, validate_token, verifies_under, AuthTokens,
    MAX_EXPIRY_HOURS, REFRESH_LIFETIME_SECONDS,
};

verus! {

/// Body of a login request.
#[derive(Debug, Clone, PartialEq, Eq)]
pub struct LoginRequest {
    pub email: String,
    pub password: String,
}

/// Profile fields returned to the caller at login.
#[derive(Debug, Clone, PartialEq, Eq)]
pub struct UserInfo {
    pub id: String,
    pub email: String,
    pub name: String,
    pub role: String,
}

/// Everything a successful login answers with.
#[derive(Debug, Clone, PartialEq, Eq)]
pub struct LoginResponse {
    pub access_token: String,
    pub refresh_token: String,
    pub expires_in: i64,
    pub user: UserInfo,
}

/// Body of a refresh request.
#[derive(Debug, Clone, PartialEq, Eq)]
pub struct RefreshTokenRequest {
    pub refresh_token: String,
}

/// Completes a login from the identity service's verdict.
///
/// `identity` is what the credential check answered: `None` when the
/// credentials were rejected — the caller learns only that authentication
/// failed, never which field was wrong — and the verified profile
/// otherwise.  For a confirmed identity and an in-range lifetime the login
/// succeeds unless the clock reads outside the supported range: a token
/// pair is issued for the profile and the subject's session record is
/// overwritten with the new access token's identifier.  On any failure the
/// store is untouched, so no tokens exist without a recorded session.
pub fn login(
    identity: Option<&User>,
    secret: &str,
    expiry_hours: i64,
    store: &mut SessionStore,
) -> (r: Result<LoginResponse, AppError>)
    requires
        old(store).wf(),
    ensures
        final(store).wf(),
        identity is None ==> (r matches Err(e) && e is AuthenticationError),
        identity matches Some(u) && !(0 < expiry_hours < MAX_EXPIRY_HOURS) ==> (r matches Err(e)
            && e is BadRequest),
        identity matches Some(u) && 0 < expiry_hours < MAX_EXPIRY_HOURS ==> (r is Err
            ==> (r matches Err(e) && e is InternalServerError)),
        r is Err ==> final(store)@ == old(store)@,
        r matches Ok(resp) ==> (identity matches Some(u) && {
            &&& resp.user.id@ == u.id@
            &&& resp.user.email@ == u.email@
            &&& resp.user.name@ == u.name@
            &&& resp.user.role@ == u.role@
            &&& resp.expires_in == expiry_hours * 3600
            &&& exists|now: int, ja: Seq<char>, jr: Seq<char>|
                {
                    &&& resp.access_token@ == #[trigger] token_of(
                        u.id@, u.email@, u.role@,
                        now + expiry_hours * 3600,
                        now,
                        ja,
                        secret@,
                    )
                    &&& resp.refresh_token@ == #[trigger] token_of(
                        u.id@, u.email@, u.role@,
                        now + REFRESH_LIFETIME_SECONDS,
                        now,
                        jr,
                        secret@,
                    )
                    &&& 0 <= now
                    &&& now + REFRESH_LIFETIME_SECONDS <= i64::MAX
                    &&& final(store)@.contains_key(u.id@)
                    &&& final(store)@[u.id@].jti@ == ja
                    &&& final(store)@[u.id@].user_id@ == u.id@
                    &&& final(store)@[u.id@].email@ == u.email@
                    &&& final(store)@[u.id@].role@ == u.role@
                    &&& final(store)@[u.id@].expires_at == now + expiry_hours * 3600
                    &&& final(store)@ == old(store)@.insert(u.id@, final(store)@[u.id@])
                }
        }),
{
    let user = match identity {
        Some(u) => u,
        None => {
            return Err(AppError::AuthenticationError);
        },
    };
    if !(0 < expiry_hours && expiry_hours < MAX_EXPIRY_HOURS) {
        return Err(AppError::BadRequest("token lifetime out of range".to_owned()));
    }
    let now = unix_now();
    if now < 0 || now > i64::MAX - REFRESH_LIFETIME_SECONDS {
        return Err(AppError::InternalServerError);
    }
    let access_jti = fresh_token_id();
    let refresh_jti = fresh_token_id();
    let record_jti = access_jti.clone();
    let tokens = match issue_at(
        user.id.as_str(),
        user.email.as_str(),
        user.role.as_str(),
        secret,
        expiry_hours,
        now,
        access_jti,
        refresh_jti,
    ) {
        Ok(t) => t,
        Err(e) => {
            return Err(e);
        },
    };
    let record = SessionRecord {
        user_id: user.id.clone(),
        email: user.email.clone(),
        role: user.role.clone(),
        jti: record_jti,
        expires_at: now + expiry_hours * 3600,
    };
    store.put(user.id.as_str(), record);
    Ok(
        LoginResponse {
            access_token: tokens.access_token,
            refresh_token: tokens.refresh_token,
            expires_in: tokens.expires_in,
            user: UserInfo {
                id: user.id.clone(),
                email: user.email.clone(),
                name: user.name.clone(),
                role: user.role.clone(),
            },
        },
    )
}

/// Trades a refresh token for a brand-new pair.
///
/// The presented token must verify and still be live at `now` — no forged
/// or altered token is ever exchanged — and the new pair is then issued at
/// `now` for the same subject, email and role, with fresh token
/// identifiers; within the clock's supported range that issuance always
/// succeeds.  The session record is not rewritten here: that matches the
/// observed behaviour this design documents, so tokens from before and
/// after a refresh stay distinguishable only by their identifiers.
pub fn refresh(
    refresh_token: &str,
    secret: &str,
    expiry_hours: i64,
    now: i64,
) -> (r: Result<AuthTokens, AppError>)
    ensures
        r matches Ok(t) ==> t.expires_in == expiry_hours * 3600,
        r matches Ok(t) ==> verifies_under(refresh_token@, secret@),
        r matches Err(e) ==> (e is BadRequest || e is JwtError || e is InternalServerError),
        !(0 < expiry_hours < MAX_EXPIRY_HOURS) ==> (r matches Err(e) && e is BadRequest),
        forall|sub: Seq<char>, email: Seq<char>, role: Seq<char>, exp: i64, iat: i64, jti: Seq<char>|
            (0 < expiry_hours < MAX_EXPIRY_HOURS && 0 <= exp && refresh_token@
                == #[trigger] token_of(
                sub, email, role, exp as int, iat as int, jti, secret@,
            )) ==> {
                &&& now >= exp ==> (r matches Err(e) && e == AppError::JwtError(
                    crate::errors::TokenError::Expired,
                ))
                &&& (now < exp && 0 <= now && now + REFRESH_LIFETIME_SECONDS <= i64::MAX)
                    ==> (r matches Ok(t) && exists|ja: Seq<char>, jr: Seq<char>|
                    {
                        &&& t.access_token@ == #[trigger] token_of(
                            sub, email, role,
                            now + expiry_hours * 3600,
                            now as int,
                            ja,
                            secret@,
                        )
                        &&& t.refresh_token@ == #[trigger] token_of(
                            sub, email, role,
                            now + REFRESH_LIFETIME_SECONDS,
                            now as int,
                            jr,
                            secret@,
                        )
                    })
            },
{
    if !(0 < expiry_hours && expiry_hours < MAX_EXPIRY_HOURS) {
        return Err(AppError::BadRequest("token lifetime out of range".to_owned()));
    }
    let claims = match validate_token(refresh_token, secret, now) {
        Ok(c) => c,
        Err(e) => {
            return Err(AppError::JwtError(e));
        },
    };
    if now < 0 || now > i64::MAX - REFRESH_LIFETIME_SECONDS {
        return Err(AppError::InternalServerError);
    }
    let access_jti = fresh_token_id();
    let refresh_jti = fresh_token_id();
    issue_at(
        claims.sub.as_str(),
        claims.email.as_str(),
        claims.role.as_str(),
        secret,
        expiry_hours,
        now,
        access_jti,
        refresh_jti,
    )
}

/// Revokes the authenticated subject's session: afterwards the store holds
/// nothing for the subject, and a revocation check no longer confirms any
/// token issued to it.
pub fn logout(store: &mut SessionStore, subject: &str)
    requires
        old(store).wf(),
    ensures
        final(store).wf(),
        final(store)@ == old(store)@.remove(subject@),
        !final(store)@.contains_key(subject@),
{
    store.delete(subject);
}

} // verus!
