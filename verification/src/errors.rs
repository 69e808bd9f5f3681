//! Error taxonomy of the gateway and its mapping to HTTP status codes.
//!
//! Failures never carry internal detail across the boundary: each error
//! renders as a structured `{error, status}` body, and the functions here
//! pin down exactly which status and message each variant produces.

use vstd::prelude::*;

verus! {

/// Outcome of validating a signed token.
#[derive(Debug, Clone, Copy, PartialEq, Eq, Structural)]
pub enum TokenError {
    /// The signature does not verify under the shared secret.
    InvalidSignature,
    /// The token is well-formed and well-signed, but its expiry has passed.
    Expired,
    /// The string cannot be parsed into the expected token structure.
    Malformed,
}

/// Status code reported by a backend service call, as far as the
/// gateway's error mapping reads it.
#[derive(Debug, Clone, Copy, PartialEq, Eq, Structural)]
pub enum BackendCode {
    NotFound,
    InvalidArgument,
    Unauthenticated,
    PermissionDenied,
    Other,
}

/// Every failure the gateway reports to a client.
#[derive(Debug, Clone, PartialEq, Eq)]
pub enum AppError {
    /// Bad credentials; never distinguishes which field was wrong.
    AuthenticationError,
    /// Missing, invalid or expired bearer token.
    Unauthorized,
    BadRequest(String),
    NotFound,
    InternalServerError,
    ServiceUnavailable,
    /// The workspace database failed.
    DatabaseError,
    /// The session cache failed.
    CacheError,
    /// A backend service call failed with the given code and message.
    GrpcError(BackendCode, String),
    /// Token issuance or validation failed.
    JwtError(TokenError),
}

/// HTTP status a backend code converts to.
pub open spec fn spec_backend_status(code: BackendCode) -> int {
    match code {
        BackendCode::NotFound => 404,
        BackendCode::InvalidArgument => 400,
        BackendCode::Unauthenticated => 401,
        BackendCode::PermissionDenied => 403,
        BackendCode::Other => 500,
    }
}

/// HTTP status each error renders with.
pub open spec fn spec_status(e: AppError) -> int {
    match e {
        AppError::AuthenticationError => 401,
        AppError::Unauthorized => 401,
        AppError::BadRequest(_) => 400,
        AppError::NotFound => 404,
        AppError::InternalServerError => 500,
        AppError::ServiceUnavailable => 503,
        AppError::DatabaseError => 500,
        AppError::CacheError => 500,
        AppError::GrpcError(code, _) => spec_backend_status(code),
        AppError::JwtError(_) => 401,
    }
}

/// Message each error renders with.
pub open spec fn spec_message(e: AppError) -> Seq<char> {
    match e {
        AppError::AuthenticationError => "Authentication failed"@,
        AppError::Unauthorized => "Unauthorized"@,
        AppError::BadRequest(m) => m@,
        AppError::NotFound => "Not found"@,
        AppError::InternalServerError => "Internal server error"@,
        AppError::ServiceUnavailable => "Service unavailable"@,
        AppError::DatabaseError => "Database error"@,
        AppError::CacheError => "Cache error"@,
        AppError::GrpcError(_, m) => m@,
        AppError::JwtError(_) => "Invalid token"@,
    }
}

impl AppError {
    /// The HTTP status code of the structured error body.
    pub fn http_status(&self) -> (s: u16)
        ensures
            s as int == spec_status(*self),
    {
        match self {
            AppError::AuthenticationError => 401,
            AppError::Unauthorized => 401,
            AppError::BadRequest(_) => 400,
            AppError::NotFound => 404,
            AppError::InternalServerError => 500,
            AppError::ServiceUnavailable => 503,
            AppError::DatabaseError => 500,
            AppError::CacheError => 500,
            AppError::GrpcError(code, _) => match code {
                BackendCode::NotFound => 404,
                BackendCode::InvalidArgument => 400,
                BackendCode::Unauthenticated => 401,
                BackendCode::PermissionDenied => 403,
                BackendCode::Other => 500,
            },
            AppError::JwtError(_) => 401,
        }
    }

    /// The message of the structured error body.
    pub fn message(&self) -> (m: String)
        ensures
            m@ == spec_message(*self),
    {
        match self {
            AppError::AuthenticationError => "Authentication failed".to_owned(),
            AppError::Unauthorized => "Unauthorized".to_owned(),
            AppError::BadRequest(msg) => msg.clone(),
            AppError::NotFound => "Not found".to_owned(),
            AppError::InternalServerError => "Internal server error".to_owned(),
            AppError::ServiceUnavailable => "Service unavailable".to_owned(),
            AppError::DatabaseError => "Database error".to_owned(),
            AppError::CacheError => "Cache error".to_owned(),
            AppError::GrpcError(_, msg) => msg.clone(),
            AppError::JwtError(_) => "Invalid token".to_owned(),
        }
    }
}

} // verus!
