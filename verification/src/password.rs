//! Password codec: one-way hashing with a memory-hard algorithm and a
//! fresh random salt per call, and verification that never raises —
//! a malformed stored hash simply fails to verify, so callers cannot
//! tell a corrupt hash apart from a wrong password.

use vstd::prelude::*;
use argon2::password_hash::{PasswordHash, SaltString};
use argon2::{Argon2, PasswordHasher, PasswordVerifier};
use crate::errors::AuthError;

verus! {

/// Whether the memory-hard codec accepts `password` against the PHC
/// hash string `phc_hash`. This is a fixed function of the two
/// strings: the salt and the cost parameters are part of the hash
/// string itself.
pub uninterp spec fn argon_verifies(password: Seq<char>, phc_hash: Seq<char>) -> bool;

/// Whether `phc_hash` is a well-formed PHC hash string.
pub uninterp spec fn phc_parses(phc_hash: Seq<char>) -> bool;

/// Relies on argon2's `Argon2::hash_password` with a salt drawn from
/// the operating-system generator: on success the returned PHC string
/// is well-formed and verifies against the same password.
#[verifier::external_body]
fn argon2_hash(password: &str) -> (r: Result<String, String>)
    ensures
        r matches Ok(h) ==> argon_verifies(password@, h@) && phc_parses(h@),
{
    let salt = SaltString::generate(&mut rand_core::OsRng);
    match Argon2::default().hash_password(password.as_bytes(), &salt) {
        Ok(h) => Ok(h.to_string()),
        Err(e) => Err(e.to_string()),
    }
}

/// Relies on argon2's `PasswordHash::new` and
/// `Argon2::verify_password`: the outcome is a function of the two
/// strings alone, and a string that does not parse never verifies.
#[verifier::external_body]
fn argon2_verify(password: &str, stored_hash: &str) -> (r: bool)
    ensures
        r == argon_verifies(password@, stored_hash@),
        !phc_parses(stored_hash@) ==> r == false,
{
    match PasswordHash::new(stored_hash) {
        Ok(parsed) => Argon2::default().verify_password(password.as_bytes(), &parsed).is_ok(),
        Err(_) => false,
    }
}

/// Hashes a plaintext password with a freshly generated random salt.
/// Two calls on the same plaintext yield different strings (the salt
/// differs), and each result verifies against its plaintext. Fails
/// only on an underlying entropy or resource failure.
pub fn hash_password(password: &str) -> (r: Result<String, AuthError>)
    ensures
        r matches Ok(h) ==> argon_verifies(password@, h@) && phc_parses(h@),
        r matches Err(e) ==> e is PasswordHashError,
{
    match argon2_hash(password) {
        Ok(h) => Ok(h),
        Err(m) => Err(AuthError::PasswordHashError(m)),
    }
}

/// Verifies a plaintext password against a stored PHC hash string.
/// Never raises: a malformed stored hash yields `false`, the same
/// outcome as a wrong password.
pub fn verify_password(provided_password: &str, stored_hash: &str) -> (r: bool)
    ensures
        r == argon_verifies(provided_password@, stored_hash@),
        !phc_parses(stored_hash@) ==> !r,
{
    argon2_verify(provided_password, stored_hash)
}

} // verus!
