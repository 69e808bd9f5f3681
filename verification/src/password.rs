//! One-way password hashing and verification.
//!
//! Hashing uses a memory-hard algorithm with a fresh random salt per call,
//! so two hashes of the same password differ; the produced string is
//! self-describing (algorithm and parameters embedded).  Verification
//! recomputes the hash from the stored parameters and compares.  Both
//! directions are the outside library's work; the contracts here name its
//! outcomes so that callers can reason about them.

use vstd::prelude::*;

use argon2::{Argon2, PasswordHash, PasswordHasher, PasswordVerifier};

use crate::errors::AppError;

verus! {

/// Whether `password` matches the self-describing `hash` string: the
/// outcome of recomputing the hash with the embedded parameters and
/// comparing.  A function of the two arguments alone.
pub uninterp spec fn password_matches(password: Seq<char>, hash: Seq<char>) -> bool;

/// Whether `hash` parses as a self-describing password-hash string.
pub uninterp spec fn phc_parses(hash: Seq<char>) -> bool;

/// Hashes a password with a fresh random salt.
///
/// Relies on `argon2::Argon2::hash_password`: the result is a
/// self-describing hash string that parses back, and verifying the same
/// password against it succeeds.  The salt is drawn fresh from the system
/// RNG, so nothing relates the results of two calls.
#[verifier::external_body]
pub fn hash_password(password: &str) -> (r: Result<String, AppError>)
    ensures
        r matches Ok(h) ==> password_matches(password@, h@) && phc_parses(h@),
        r matches Err(e) ==> e is BadRequest,
{
    match Argon2::default().hash_password(password.as_bytes()) {
        Ok(h) => Ok(h.to_string()),
        Err(e) => Err(AppError::BadRequest(e.to_string())),
    }
}

/// Verifies a password against a stored self-describing hash string.
///
/// Relies on `argon2::PasswordHash::new` to parse the stored string —
/// failing exactly when it is not a valid password-hash string — and on
/// `argon2::Argon2::verify_password` to recompute and compare.
#[verifier::external_body]
pub fn verify_password(password: &str, hash: &str) -> (r: Result<bool, AppError>)
    ensures
        r is Ok <==> phc_parses(hash@),
        r matches Ok(b) ==> b == password_matches(password@, hash@),
        r matches Err(e) ==> e is BadRequest,
{
    let parsed = match PasswordHash::new(hash) {
        Ok(p) => p,
        Err(e) => {
            return Err(AppError::BadRequest(e.to_string()));
        },
    };
    Ok(Argon2::default().verify_password(password.as_bytes(), &parsed).is_ok())
}

} // verus!
