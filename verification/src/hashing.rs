use vstd::prelude::*;

use crate::errors::AuthError;

verus! {

/// What bcrypt's check of `password` against `hash` reports: `Some(true)`
/// when the hash was derived from the password, `Some(false)` when it was
/// not, and `None` when the hash string is malformed. The outcome depends
/// on the two arguments alone.
pub uninterp spec fn bcrypt_verify_of(password: Seq<char>, hash: Seq<char>) -> Option<bool>;

/// Work factor handed to bcrypt when hashing a new password.
pub const HASH_COST: u32 = 14;

/// Computes a salted one-way hash of `password`.
///
/// Relies on `bcrypt::hash`: the returned string embeds a fresh random
/// salt and the cost, and `bcrypt::verify` accepts it for the same
/// password; an internal error of the primitive is reported as
/// `HashingFailure`.
#[verifier::external_body]
pub fn hash_password(password: &str) -> (r: Result<String, AuthError>)
    ensures
        r matches Ok(h) ==> bcrypt_verify_of(password@, h@) == Some(true),
        r matches Err(e) ==> e == AuthError::HashingFailure,
{
    match bcrypt::hash(password, HASH_COST) {
        Ok(h) => Ok(h),
        Err(_) => Err(AuthError::HashingFailure),
    }
}

/// Checks `password` against a stored bcrypt hash.
///
/// Relies on `bcrypt::verify`: it re-derives the hash under the salt and
/// cost embedded in `hash` and compares; a malformed hash string is
/// reported as `HashingFailure`. Its format check documents that a
/// well-formed bcrypt hash is exactly 60 ASCII bytes, so any candidate
/// of a different character count is refused outright.
#[verifier::external_body]
pub fn verify_password(password: &str, hash: &str) -> (r: Result<bool, AuthError>)
    ensures
        r matches Ok(b) ==> bcrypt_verify_of(password@, hash@) == Some(b),
        r matches Err(e) ==> bcrypt_verify_of(password@, hash@) is None
            && e == AuthError::HashingFailure,
        r is Ok ==> hash@.len() == 60,
{
    match bcrypt::verify(password, hash) {
        Ok(b) => Ok(b),
        Err(_) => Err(AuthError::HashingFailure),
    }
}

} // verus!
