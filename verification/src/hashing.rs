use vstd::prelude::*;
use argon2::{PasswordHasher, PasswordVerifier};
use crate::errors::UserStoreError;
use crate::password::Password;

verus! {

/// Whether a stored digest and a candidate password belong together.
///
/// Names the verdict of argon2's `PasswordVerifier::verify_password` on a
/// digest string in PHC form and a candidate: the digest carries its own
/// salt and parameters, so that verdict depends on the two strings alone.
pub uninterp spec fn hash_matches(hash: Seq<char>, password: Seq<char>) -> bool;

/// Relies on argon2's `PasswordVerifier::verify_password` for `&str`
/// digests: it parses the digest, recomputes with the salt and parameters
/// the digest carries, and compares.
#[verifier::external_body]
fn argon2_verify(hash: &str, password: &str) -> (r: bool)
    ensures
        r == hash_matches(hash@, password@),
{
    argon2::Argon2::default().verify_password(password.as_bytes(), hash).is_ok()
}

/// Relies on argon2's `PasswordHasher::hash_password`: it salts at random
/// and digests, and its own documentation shows the digest verifying
/// against the password it was computed from. The verifier reads the
/// algorithm, version and cost parameters back out of the digest itself,
/// so the choice made here binds no other item.
#[verifier::external_body]
fn argon2_hash(password: &str) -> (r: Option<String>)
    ensures
        r matches Some(h) ==> hash_matches(h@, password@),
{
    let params = argon2::Params::new(15000, 2, 1, None).ok()?;
    let hasher = argon2::Argon2::new(argon2::Algorithm::Argon2id, argon2::Version::V0x13, params);
    match hasher.hash_password(password.as_bytes()) {
        Ok(h) => Some(h.to_string()),
        Err(_) => None,
    }
}

/// Digests a password for persistence: the directory stores this one-way,
/// salted form and never the password itself. The digest verifies against
/// exactly the password it was computed from.
pub fn compute_password_hash(password: &Password) -> (r: Result<String, UserStoreError>)
    ensures
        r matches Ok(h) ==> hash_matches(h@, password@),
        r matches Err(e) ==> e == UserStoreError::UnexpectedError,
{
    match argon2_hash(password.as_ref()) {
        Some(h) => Ok(h),
        None => Err(UserStoreError::UnexpectedError),
    }
}

/// Checks a login candidate against a stored digest, succeeding exactly
/// when the two belong together; a mismatch is an invalid credential.
pub fn verify_password_hash(expected_password_hash: &str, password_candidate: &Password) -> (r:
    Result<(), UserStoreError>)
    ensures
        hash_matches(expected_password_hash@, password_candidate@) <==> r == Ok::<(), UserStoreError>(()),
        !hash_matches(expected_password_hash@, password_candidate@) <==> r == Err::<(), UserStoreError>(
            UserStoreError::InvalidCredentials,
        ),
{
    if argon2_verify(expected_password_hash, password_candidate.as_ref()) {
        Ok(())
    } else {
        Err(UserStoreError::InvalidCredentials)
    }
}

} // verus!
