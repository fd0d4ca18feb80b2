//! Password credential handling, delegated to the Argon2 password
//! hashing primitive. The library's own contract is only: hashing yields
//! an encoded string that verifies against the same password, and
//! verification distinguishes a malformed hash (an error) from a failed
//! match (`Ok(false)`).

use vstd::prelude::*;

use argon2::password_hash::rand_core::OsRng;
use argon2::password_hash::{PasswordHash, PasswordHasher, PasswordVerifier, SaltString};

use crate::error::DomainError;

verus! {

/// Whether Argon2 verification of `password` against the encoded hash
/// string `hash` succeeds. Deterministic: the encoded string carries the
/// salt and parameters, so the result is a function of the two arguments
/// alone.
pub uninterp spec fn argon2_verifies(password: Seq<char>, hash: Seq<char>) -> bool;

/// Whether `hash` parses as a PHC-format password hash string.
/// A function of the string alone.
pub uninterp spec fn phc_parses(hash: Seq<char>) -> bool;

/// Relies on argon2's PasswordHasher::hash_password with a fresh random
/// salt: on success the encoded PHC string parses back, and verifying
/// the same password against it succeeds. The salt is random, so
/// nothing relates two calls.
#[verifier::external_body]
fn argon2_hash(password: &str) -> (r: Option<String>)
    ensures
        r matches Some(h) ==> phc_parses(h@) && argon2_verifies(password@, h@),
{
    let salt = SaltString::generate(&mut OsRng);
    match argon2::Argon2::default().hash_password(password.as_bytes(), &salt) {
        Ok(hash) => Some(hash.to_string()),
        Err(_) => None,
    }
}

/// Relies on argon2's PasswordHash::new and
/// PasswordVerifier::verify_password: `None` exactly when the hash
/// string is not in the expected encoded format, otherwise the
/// deterministic verification outcome.
#[verifier::external_body]
fn argon2_verify(password: &str, hash: &str) -> (r: Option<bool>)
    ensures
        r is Some <==> phc_parses(hash@),
        r matches Some(b) ==> b == argon2_verifies(password@, hash@),
{
    match PasswordHash::new(hash) {
        Ok(parsed) => Some(
            argon2::Argon2::default()
                .verify_password(password.as_bytes(), &parsed)
                .is_ok(),
        ),
        Err(_) => None,
    }
}

pub struct AuthService;

impl AuthService {
    /// Hashes a password with a fresh random salt. Fails only on an
    /// internal failure of the hashing library, never on any property
    /// of the password itself.
    pub fn hash_password(password: &str) -> (r: Result<String, DomainError>)
        ensures
            r matches Ok(h) ==> phc_parses(h@) && argon2_verifies(password@, h@),
            r matches Err(e) ==> (e matches DomainError::InternalError(m)
                && m@ == "Failed to hash password"@),
    {
        match argon2_hash(password) {
            Some(h) => Ok(h),
            None => Err(DomainError::InternalError(
                String::from_str("Failed to hash password"),
            )),
        }
    }

    /// Verifies a password against an encoded hash. An error is returned
    /// exactly when the hash string is not in the expected encoded
    /// format; a non-matching password is the normal `Ok(false)`.
    pub fn verify_password(password: &str, hash: &str) -> (r: Result<bool, DomainError>)
        ensures
            r is Ok <==> phc_parses(hash@),
            r matches Ok(b) ==> b == argon2_verifies(password@, hash@),
            r matches Err(e) ==> (e matches DomainError::InternalError(m)
                && m@ == "Invalid password hash"@),
    {
        match argon2_verify(password, hash) {
            Some(b) => Ok(b),
            None => Err(DomainError::InternalError(
                String::from_str("Invalid password hash"),
            )),
        }
    }
}

/// Round trip: whenever hashing itself succeeded, verifying the same
/// password against the fresh hash succeeds and returns a match.
pub fn hash_then_verify(password: &str) -> (r: Result<bool, DomainError>)
    ensures
        r matches Ok(b) ==> b,
        r matches Err(e) ==> e is InternalError,
{
    match AuthService::hash_password(password) {
        Ok(hash) => AuthService::verify_password(password, hash.as_str()),
        Err(e) => Err(e),
    }
}

} // verus!
