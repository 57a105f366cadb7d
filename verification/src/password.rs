//! Password hashing: a salted adaptive digest with constant-time
//! verification, at a fixed cost factor.

use vstd::prelude::*;

use crate::errors::UserError;

verus! {

/// Adaptive cost factor used for every digest this library mints.
pub const HASH_COST: u32 = 8;

/// Whether `password` matches `digest` under the adaptive scheme. A
/// digest that is not even well-formed matches nothing.
pub uninterp spec fn bcrypt_matches(password: Seq<char>, digest: Seq<char>) -> bool;

/// Relies on bcrypt::verify: the outcome is a function of password and
/// digest alone; a malformed digest is folded into a non-match rather
/// than surfaced, so storage corruption never leaks to callers.
#[verifier::external_body]
fn bcrypt_verify(password: &str, digest: &str) -> (r: bool)
    ensures
        r == bcrypt_matches(password@, digest@),
{
    bcrypt::verify(password, digest).unwrap_or(false)
}

/// Relies on bcrypt::hash: the salt is drawn fresh on every call, and
/// whatever digest comes back verifies against the hashed password.
#[verifier::external_body]
fn bcrypt_hash(password: &str) -> (r: Result<String, ()>)
    ensures
        r matches Ok(d) ==> bcrypt_matches(password@, d@),
{
    bcrypt::hash(password, HASH_COST).map_err(|_| ())
}

/// Digests a password for storage. Hashing failure is fatal for the
/// calling operation.
pub fn hash_password(password: &str) -> (r: Result<String, UserError>)
    ensures
        r matches Ok(d) ==> bcrypt_matches(password@, d@),
        r matches Err(e) ==> e == UserError::PasswordHashingFailure,
{
    match bcrypt_hash(password) {
        Ok(d) => Ok(d),
        Err(_) => Err(UserError::PasswordHashingFailure),
    }
}

/// Constant-time match of a password attempt against a stored digest.
pub fn verify_password(password: &str, digest: &str) -> (r: bool)
    ensures
        r == bcrypt_matches(password@, digest@),
{
    bcrypt_verify(password, digest)
}

} // verus!
