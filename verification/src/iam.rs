//! Plain payloads of the identity service.
//!
//! The identity service is an outside collaborator reached over the
//! network; the gateway only builds these requests and reads these
//! answers.  The transport lives with the rest of the I/O, outside the
//! library.

use vstd::prelude::*;

verus! {

#[derive(Debug, Clone, PartialEq, Eq)]
pub struct AuthenticateRequest {
    pub email: String,
    pub password: String,
}

#[derive(Debug, Clone, PartialEq, Eq)]
pub struct AuthenticateResponse {
    pub access_token: String,
    pub refresh_token: String,
    pub user: User,
}

/// The profile the identity service answers with.
#[derive(Debug, Clone, PartialEq, Eq)]
pub struct User {
    pub id: String,
    pub email: String,
    pub name: String,
    pub role: String,
}

#[derive(Debug, Clone, PartialEq, Eq)]
pub struct ValidateTokenRequest {
    pub token: String,
}

#[derive(Debug, Clone, PartialEq, Eq)]
pub struct ValidateTokenResponse {
    pub valid: bool,
    pub user: Option<User>,
}

#[derive(Debug, Clone, PartialEq, Eq)]
pub struct RefreshTokenRequest {
    pub refresh_token: String,
}

#[derive(Debug, Clone, PartialEq, Eq)]
pub struct RefreshTokenResponse {
    pub access_token: String,
    pub refresh_token: String,
}

} // verus!
