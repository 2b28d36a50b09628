//! Password hashing, delegated to the bcrypt crate.

use vstd::prelude::*;
use crate::errors::{AppError, AppResult};

verus! {

/// What `bcrypt::verify(password, hash)` returns when it succeeds: a
/// deterministic function of the password and the hash alone.
pub uninterp spec fn bcrypt_verifies(password: Seq<char>, hash: Seq<char>) -> bool;

/// Relies on `bcrypt::hash`: it hashes under a fresh random salt, and by
/// construction `bcrypt::verify` accepts the produced hash for the same
/// password (`verify` re-hashes the password under the salt carried in the
/// hash and compares).
#[verifier::external_body]
pub(crate) fn hash_password(password: &str) -> (r: AppResult<String>)
    ensures
        r matches Ok(h) ==> bcrypt_verifies(password@, h@),
        r matches Err(e) ==> e is Internal,
{
    match bcrypt::hash(password, bcrypt::DEFAULT_COST) {
        Ok(h) => Ok(h),
        Err(_) => Err(AppError::Internal),
    }
}

/// Relies on `bcrypt::verify`: its result depends only on the password and
/// the hash; it fails only on a malformed hash.
#[verifier::external_body]
pub(crate) fn verify_password(password: &str, hash: &str) -> (r: AppResult<bool>)
    ensures
        r matches Ok(b) ==> b == bcrypt_verifies(password@, hash@),
        r matches Err(e) ==> e is Internal,
{
    match bcrypt::verify(password, hash) {
        Ok(b) => Ok(b),
        Err(_) => Err(AppError::Internal),
    }
}

} // verus!
