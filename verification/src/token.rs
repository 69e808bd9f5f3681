//! Issuance and validation of signed, time-bounded session tokens.
//!
//! A token is an opaque signed string that embeds identity claims: subject,
//! email, role, expiry, issuance time and a unique token identifier.  The
//! signing and signature checking are done by an outside library under a
//! shared symmetric secret; everything around them — lifetimes, expiry
//! checks, and which claims come back for which token — is verified here.

use vstd::prelude::*;

use jsonwebtoken::errors::ErrorKind;
use jsonwebtoken::{decode, encode, DecodingKey, EncodingKey, Header, Validation};
use serde_json::Value;

use crate::errors::{AppError, TokenError};

verus! {

/// Verified payload of a token.
#[derive(Debug, Clone, PartialEq, Eq)]
pub struct Claims {
    /// Subject: the user identifier.
    pub sub: String,
    pub email: String,
    pub role: String,
    /// Expiry, seconds since the Unix epoch.
    pub exp: i64,
    /// Issued at, seconds since the Unix epoch.
    pub iat: i64,
    /// Unique token identifier, used to target revocation.
    pub jti: String,
}

/// The pair handed to a client at login or refresh: a short-lived access
/// token, a long-lived refresh token, and the access lifetime in seconds.
#[derive(Debug, Clone, PartialEq, Eq)]
pub struct AuthTokens {
    pub access_token: String,
    pub refresh_token: String,
    pub expires_in: i64,
}

/// Lifetime of a refresh token: 30 days, in seconds.
pub const REFRESH_LIFETIME_SECONDS: i64 = 2592000;

/// Ceiling on the configured access lifetime, in hours.  Keeping the access
/// lifetime under 30 days preserves the invariant that the refresh expiry
/// strictly exceeds the access expiry.
pub const MAX_EXPIRY_HOURS: i64 = 720;

/// The signed compact encoding of the claims `(sub, email, role, exp, iat,
/// jti)` under `secret`.  The token string is a function of the claims and
/// the secret alone; its exact shape is the signing library's business.
pub uninterp spec fn token_of(
    sub: Seq<char>,
    email: Seq<char>,
    role: Seq<char>,
    exp: int,
    iat: int,
    jti: Seq<char>,
    secret: Seq<char>,
) -> Seq<char>;

/// Whether the signature of a compact token string verifies under
/// `secret`: the outcome of recomputing the HMAC over the token's first
/// two segments and comparing it with the third.  A function of the two
/// arguments alone.
pub uninterp spec fn verifies_under(token: Seq<char>, secret: Seq<char>) -> bool;

/// Relies on `jsonwebtoken::encode` with the default header (HS256): the
/// token it produces is a function of the claims and the secret alone,
/// and its signature verifies under that same secret.  Encoding these
/// claims is total — HMAC accepts a secret of any length, and the payload
/// is a plain JSON object of strings and integers — so a token always
/// comes back.
#[verifier::external_body]
fn jwt_encode(claims: &Claims, secret: &str) -> (r: Option<String>)
    ensures
        r is Some,
        r matches Some(t) ==> t@ == token_of(
            claims.sub@,
            claims.email@,
            claims.role@,
            claims.exp as int,
            claims.iat as int,
            claims.jti@,
            secret@,
        ),
        r matches Some(t) ==> verifies_under(t@, secret@),
{
    let mut m = serde_json::Map::new();
    m.insert("sub".to_owned(), Value::from(claims.sub.clone()));
    m.insert("email".to_owned(), Value::from(claims.email.clone()));
    m.insert("role".to_owned(), Value::from(claims.role.clone()));
    m.insert("exp".to_owned(), Value::from(claims.exp));
    m.insert("iat".to_owned(), Value::from(claims.iat));
    m.insert("jti".to_owned(), Value::from(claims.jti.clone()));
    let key = EncodingKey::from_secret(secret.as_bytes());
    encode(&Header::default(), &Value::Object(m), &key).ok()
}

/// Relies on `jsonwebtoken::decode` with HS256 and the library's expiry
/// check turned off: it verifies the signature under `secret` and hands
/// back the embedded claims, so a token produced by `jsonwebtoken::encode`
/// with a non-negative expiry decodes to exactly the claims it was built
/// from.  (The decoder requires an `exp` claim to be present and reads it
/// as an unsigned number, so an encoding whose expiry is negative is
/// rejected as malformed; the round trip is therefore stated only for
/// non-negative expiries.)  Success means the signature verified; a
/// signature mismatch reports `InvalidSignature`; anything else
/// unparseable reports `Malformed`.
#[verifier::external_body]
fn jwt_decode(token: &str, secret: &str) -> (r: Result<Claims, TokenError>)
    ensures
        r is Err ==> forall|sub: Seq<char>, email: Seq<char>, role: Seq<char>, exp: i64, iat: i64, jti: Seq<char>|
            0 <= exp ==> token@ != #[trigger] token_of(
                sub, email, role, exp as int, iat as int, jti, secret@,
            ),
        r matches Ok(c) ==> forall|sub: Seq<char>, email: Seq<char>, role: Seq<char>, exp: i64, iat: i64, jti: Seq<char>|
            (0 <= exp && token@ == #[trigger] token_of(
                sub, email, role, exp as int, iat as int, jti, secret@,
            )) ==> c.sub@ == sub && c.email@ == email && c.role@ == role
                && c.exp == exp && c.iat == iat && c.jti@ == jti,
        r matches Ok(c) ==> verifies_under(token@, secret@),
        r matches Err(e) ==> (e is InvalidSignature || e is Malformed),
        r matches Err(e) && e is InvalidSignature ==> !verifies_under(token@, secret@),
{
    let mut v = Validation::default();
    v.validate_exp = false;
    let d = decode::<Value>(token, &DecodingKey::from_secret(secret.as_bytes()), &v)
        .map_err(|e| match e.kind() {
            ErrorKind::InvalidSignature => TokenError::InvalidSignature,
            _ => TokenError::Malformed,
        })?
        .claims;
    let text = |k: &str| d[k].as_str().map(str::to_owned);
    match (text("sub"), text("email"), text("role"), d["exp"].as_i64(), d["iat"].as_i64(), text("jti")) {
        (Some(sub), Some(email), Some(role), Some(exp), Some(iat), Some(jti)) => Ok(Claims { sub, email, role, exp, iat, jti }),
        _ => Err(TokenError::Malformed),
    }
}

/// Relies on `uuid::Uuid::new_v4`: a fresh random identifier, rendered in
/// the 36-character hyphenated form.
#[verifier::external_body]
pub(crate) fn fresh_token_id() -> (r: String)
    ensures
        r@.len() == 36,
{
    uuid::Uuid::new_v4().to_string()
}

/// Relies on `chrono::Utc::now`: seconds since the Unix epoch, as the
/// system clock reads now.  Nothing is promised of the value.
#[verifier::external_body]
pub(crate) fn unix_now() -> (r: i64) {
    chrono::Utc::now().timestamp()
}

/// Builds and signs a token pair at the given instant with the given token
/// identifiers: an access token expiring `expiry_hours` hours after `now`,
/// and a refresh token expiring 30 days after `now`.  Signing is total,
/// so within the stated bounds issuance always succeeds.
pub fn issue_at(
    user_id: &str,
    email: &str,
    role: &str,
    secret: &str,
    expiry_hours: i64,
    now: i64,
    access_jti: String,
    refresh_jti: String,
) -> (r: Result<AuthTokens, AppError>)
    requires
        0 < expiry_hours < MAX_EXPIRY_HOURS,
        0 <= now,
        now + REFRESH_LIFETIME_SECONDS <= i64::MAX,
    ensures
        r is Ok,
        r matches Ok(t) ==> {
            &&& t.access_token@ == token_of(
                user_id@, email@, role@,
                now + expiry_hours * 3600,
                now as int,
                access_jti@,
                secret@,
            )
            &&& t.refresh_token@ == token_of(
                user_id@, email@, role@,
                now + REFRESH_LIFETIME_SECONDS,
                now as int,
                refresh_jti@,
                secret@,
            )
            &&& t.expires_in == expiry_hours * 3600
            &&& verifies_under(t.access_token@, secret@)
            &&& verifies_under(t.refresh_token@, secret@)
        },
{
    let expires_in: i64 = expiry_hours * 3600;
    let access = Claims {
        sub: user_id.to_owned(),
        email: email.to_owned(),
        role: role.to_owned(),
        exp: now + expires_in,
        iat: now,
        jti: access_jti,
    };
    let refresh = Claims {
        sub: user_id.to_owned(),
        email: email.to_owned(),
        role: role.to_owned(),
        exp: now + REFRESH_LIFETIME_SECONDS,
        iat: now,
        jti: refresh_jti,
    };
    let access_token = match jwt_encode(&access, secret) {
        Some(t) => t,
        None => {
            return Err(AppError::InternalServerError);
        },
    };
    let refresh_token = match jwt_encode(&refresh, secret) {
        Some(t) => t,
        None => {
            return Err(AppError::InternalServerError);
        },
    };
    Ok(AuthTokens { access_token, refresh_token, expires_in })
}

/// Issues a token pair for the given identity: claims are built at the
/// clock's current instant with fresh token identifiers for both tokens,
/// and signed under `secret`.  The access token lives `expiry_hours`
/// hours, the refresh token 30 days.  A lifetime out of range is a bad
/// request; the one other failure is a clock reading outside the
/// supported range, which no contract on the clock can exclude.
pub fn generate_tokens(
    user_id: &str,
    email: &str,
    role: &str,
    secret: &str,
    expiry_hours: i64,
) -> (r: Result<AuthTokens, AppError>)
    ensures
        r matches Ok(t) ==> {
            &&& t.expires_in == expiry_hours * 3600
            &&& exists|now: int, ja: Seq<char>, jr: Seq<char>|
                {
                    &&& t.access_token@ == #[trigger] token_of(
                        user_id@, email@, role@,
                        now + expiry_hours * 3600,
                        now,
                        ja,
                        secret@,
                    )
                    &&& t.refresh_token@ == #[trigger] token_of(
                        user_id@, email@, role@,
                        now + REFRESH_LIFETIME_SECONDS,
                        now,
                        jr,
                        secret@,
                    )
                    &&& 0 <= now
                    &&& now + REFRESH_LIFETIME_SECONDS <= i64::MAX
                }
        },
        !(0 < expiry_hours < MAX_EXPIRY_HOURS) ==> (r matches Err(e) && e is BadRequest),
        0 < expiry_hours < MAX_EXPIRY_HOURS ==> (r is Err ==> (r matches Err(e)
            && e is InternalServerError)),
{
    if !(0 < expiry_hours && expiry_hours < MAX_EXPIRY_HOURS) {
        return Err(AppError::BadRequest("token lifetime out of range".to_owned()));
    }
    let now = unix_now();
    if now < 0 || now > i64::MAX - REFRESH_LIFETIME_SECONDS {
        return Err(AppError::InternalServerError);
    }
    let access_jti = fresh_token_id();
    let refresh_jti = fresh_token_id();
    issue_at(user_id, email, role, secret, expiry_hours, now, access_jti, refresh_jti)
}

/// Checks a token string under `secret` at the instant `now`: the
/// signature must verify and the expiry must not have passed.  A token is
/// expired exactly when `now >= exp`, and only a token whose signature
/// verifies ever validates.  Revocation is a layer above: this function
/// does not consult the session store.
pub fn validate_token(token: &str, secret: &str, now: i64) -> (r: Result<Claims, TokenError>)
    ensures
        r matches Ok(c) ==> now < c.exp,
        r matches Ok(c) ==> verifies_under(token@, secret@),
        r matches Err(e) && e is InvalidSignature ==> !verifies_under(token@, secret@),
        forall|sub: Seq<char>, email: Seq<char>, role: Seq<char>, exp: i64, iat: i64, jti: Seq<char>|
            (0 <= exp && token@ == #[trigger] token_of(
                sub, email, role, exp as int, iat as int, jti, secret@,
            )) ==> {
                &&& now >= exp ==> (r matches Err(e) && e is Expired)
                &&& now < exp ==> (r matches Ok(c) && c.sub@ == sub && c.email@ == email
                    && c.role@ == role && c.exp == exp && c.iat == iat && c.jti@ == jti)
            },
{
    match jwt_decode(token, secret) {
        Err(e) => Err(e),
        Ok(c) => {
            if now >= c.exp {
                Err(TokenError::Expired)
            } else {
                Ok(c)
            }
        },
    }
}

/// A token pair issued at `now` with a positive lifetime of
/// `expiry_hours` hours embeds an access expiry exactly
/// `expiry_hours * 3600` seconds after its issuance time, the expiry is
/// still ahead at `now` itself, and the refresh expiry strictly exceeds
/// the access expiry.  Together with the contracts of `issue_at` and
/// `validate_token`, validating a freshly issued access token at its
/// issuance instant therefore succeeds and returns claims with
/// `exp - iat == expiry_hours * 3600`.
pub proof fn lemma_fresh_token_valid(expiry_hours: int, now: int)
    requires
        0 < expiry_hours < MAX_EXPIRY_HOURS,
    ensures
        (now + expiry_hours * 3600) - now == expiry_hours * 3600,
        now < now + expiry_hours * 3600,
        now + expiry_hours * 3600 < now + REFRESH_LIFETIME_SECONDS,
{
}

} // verus!
