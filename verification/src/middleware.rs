//! The authorization check that gates every protected request.
//!
//! A protected request must carry an authorization header of the form
//! `Bearer <token>`.  The check extracts the token, validates it under the
//! shared secret at the current instant, and hands the verified claims to
//! the handler; a missing or malformed header, a bad signature, or an
//! expired token all yield the same unauthorized answer.  Revocation
//! cross-checking against the session store is a separate, composable
//! check: a session confirms the claims only while its recorded token
//! identifier matches the token's.

use vstd::prelude::*;
use vstd::string::StrSliceExecFns;

use crate::errors::AppError;
use crate::session::{SessionRecord, SessionStore};
use crate::token::{token_of, validate_token, verifies_under, Claims};

verus! {

/// The scheme prefix a credential-bearing header value must start with.
pub open spec fn bearer_prefix() -> Seq<char> {
    "Bearer "@
}

/// Whether a header value carries the bearer scheme.
pub open spec fn has_bearer_prefix(h: Seq<char>) -> bool {
    h.len() >= 7 && h.subrange(0, 7) == bearer_prefix()
}

/// The token part of a header value that carries the bearer scheme.
pub open spec fn bearer_token_of(h: Seq<char>) -> Seq<char> {
    h.subrange(7, h.len() as int)
}

/// Pulls the bearer token out of an authorization header value: everything
/// after the `Bearer ` scheme prefix, or nothing when the prefix is absent.
pub fn extract_bearer(header: &str) -> (r: Option<&str>)
    ensures
        r matches Some(t) ==> has_bearer_prefix(header@) && t@ == bearer_token_of(header@),
        r is None ==> !has_bearer_prefix(header@),
{
    let n = header.unicode_len();
    if n < 7 {
        return None;
    }
    let prefix: String = header.substring_char(0, 7).to_owned();
    let want: String = "Bearer ".to_owned();
    if prefix == want {
        Some(header.substring_char(7, n))
    } else {
        None
    }
}

/// Authorizes one protected request from its authorization header value.
///
/// The header must be present, carry the bearer scheme, and hold a token
/// whose signature verifies and whose expiry is still ahead at `now`;
/// every other outcome is the same unauthorized error, so a caller learns
/// nothing about which step failed.  Success attests the signature: no
/// forged or altered token ever authorizes a request.  On success the
/// verified claims are returned for the handler to read.
pub fn authorize_request(header: Option<&str>, secret: &str, now: i64) -> (r: Result<
    Claims,
    AppError,
>)
    ensures
        r matches Err(e) ==> e is Unauthorized,
        r matches Ok(c) ==> now < c.exp,
        r matches Ok(c) ==> (header matches Some(h) && has_bearer_prefix(h@) && verifies_under(
            bearer_token_of(h@),
            secret@,
        )),
        header is None ==> r is Err,
        header matches Some(h) && !has_bearer_prefix(h@) ==> r is Err,
        forall|sub: Seq<char>, email: Seq<char>, role: Seq<char>, exp: i64, iat: i64, jti: Seq<char>|
            (header matches Some(h) && has_bearer_prefix(h@) && 0 <= exp && bearer_token_of(h@)
                == #[trigger] token_of(sub, email, role, exp as int, iat as int, jti, secret@))
                ==> {
                &&& now >= exp ==> r is Err
                &&& now < exp ==> (r matches Ok(c) && c.sub@ == sub && c.email@ == email
                    && c.role@ == role && c.exp == exp && c.iat == iat && c.jti@ == jti)
            },
{
    let h = match header {
        Some(h) => h,
        None => {
            return Err(AppError::Unauthorized);
        },
    };
    let token = match extract_bearer(h) {
        Some(t) => t,
        None => {
            return Err(AppError::Unauthorized);
        },
    };
    match validate_token(token, secret, now) {
        Ok(claims) => Ok(claims),
        Err(_) => Err(AppError::Unauthorized),
    }
}

/// Authorizes one protected request and enforces revocation: beyond the
/// checks of `authorize_request`, the store must hold a session for the
/// token's subject whose recorded token identifier is the token's own.  A
/// token outlived by a logout, or displaced by a newer login, is therefore
/// rejected before its natural expiry.
pub fn authorize_revocable(
    header: Option<&str>,
    secret: &str,
    now: i64,
    store: &SessionStore,
) -> (r: Result<Claims, AppError>)
    requires
        store.wf(),
    ensures
        r matches Err(e) ==> e is Unauthorized,
        r matches Ok(c) ==> {
            &&& now < c.exp
            &&& store@.contains_key(c.sub@)
            &&& store@[c.sub@].jti@ == c.jti@
            &&& header matches Some(h) && has_bearer_prefix(h@) && verifies_under(
                bearer_token_of(h@),
                secret@,
            )
        },
{
    let claims = match authorize_request(header, secret, now) {
        Ok(c) => c,
        Err(e) => {
            return Err(e);
        },
    };
    if session_confirms(&claims, store.get(claims.sub.as_str())) {
        Ok(claims)
    } else {
        Err(AppError::Unauthorized)
    }
}

/// Whether the session store confirms validated claims: the subject has a
/// recorded session and its live token identifier is the token's own.
/// Enforcing this on each request makes logout and overwrite effective
/// before a token's natural expiry.
pub open spec fn spec_session_confirms(claims: Claims, session: Option<SessionRecord>) -> bool {
    session matches Some(rec) && rec.jti@ == claims.jti@
}

/// Revocation cross-check for one validated request: accept only while the
/// store's recorded token identifier for the subject matches the token's.
pub fn session_confirms(claims: &Claims, session: Option<&SessionRecord>) -> (r: bool)
    ensures
        r == spec_session_confirms(
            *claims,
            match session {
                Some(rec) => Some(*rec),
                None => None,
            },
        ),
{
    match session {
        Some(rec) => rec.jti == claims.jti,
        None => false,
    }
}

} // verus!
