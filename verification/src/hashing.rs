//! Argon2id hashing of passwords and PINs, through the `argon2` crate.

use vstd::prelude::*;
use crate::errors::AppError;
use crate::text::concat2;

verus! {

/// What `argon2` decides for `value` against the stored hash text `hash`: `None`
/// when the text is not a PHC hash string (`PasswordHash::new` fails), else
/// whether `Argon2::default().verify_password` accepts the value. It depends on
/// the two texts alone: the salt and the parameters are read from the hash text.
pub uninterp spec fn argon2_verdict(value: Seq<char>, hash: Seq<char>) -> Option<bool>;

/// `Argon2::default().hash_password` with a fresh random salt (`SaltString::generate`
/// over the OS generator), written as a PHC string; on failure, the error's text.
/// The salt is random, so nothing fixes which hash comes back; what `argon2`
/// promises of every outcome is that the hash verifies against the value that
/// made it.
#[verifier::external_body]
fn argon2_hash(value: &str) -> (r: Result<String, String>)
    ensures
        r matches Ok(h) ==> argon2_verdict(value@, h@) == Some(true),
{
    let salt = argon2::password_hash::SaltString::generate(&mut argon2::password_hash::rand_core::OsRng);
    argon2::PasswordHasher::hash_password(&argon2::Argon2::default(), value.as_bytes(), &salt)
        .map(|h| h.to_string())
        .map_err(|e| e.to_string())
}

/// `PasswordHash::new(hash)` then `Argon2::default().verify_password(value, ..).is_ok()`;
/// when the hash text does not parse, the parse error's text.
#[verifier::external_body]
fn argon2_verify(value: &str, hash: &str) -> (r: Result<bool, String>)
    ensures
        r is Ok <==> argon2_verdict(value@, hash@) is Some,
        r matches Ok(b) ==> argon2_verdict(value@, hash@) == Some(b),
{
    match argon2::password_hash::PasswordHash::new(hash) {
        Ok(parsed) => Ok(argon2::PasswordVerifier::verify_password(
            &argon2::Argon2::default(),
            value.as_bytes(),
            &parsed,
        ).is_ok()),
        Err(e) => Err(e.to_string()),
    }
}

/// Hashes a password or PIN with Argon2id. The hash verifies against `value`;
/// when hashing fails, an `Internal` error says why.
pub fn hash(value: &str) -> (r: Result<String, AppError>)
    ensures
        r matches Ok(h) ==> argon2_verdict(value@, h@) == Some(true),
        r matches Err(e) ==> e is Internal,
{
    match argon2_hash(value) {
        Ok(h) => Ok(h),
        Err(e) => Err(AppError::Internal(concat2("Hashing failed: ", e.as_str()))),
    }
}

/// Checks a password or PIN against its stored hash: `Ok(true)` exactly when
/// `argon2` accepts it, and an `Internal` error when the stored text is no hash.
pub fn verify(value: &str, hash: &str) -> (r: Result<bool, AppError>)
    ensures
        argon2_verdict(value@, hash@) matches Some(b) ==> r == Ok::<bool, AppError>(b),
        argon2_verdict(value@, hash@) is None ==> r matches Err(AppError::Internal(_)),
{
    match argon2_verify(value, hash) {
        Ok(b) => Ok(b),
        Err(e) => Err(AppError::Internal(concat2("Invalid hash: ", e.as_str()))),
    }
}

} // verus!
