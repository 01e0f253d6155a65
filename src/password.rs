use vstd::prelude::*;
use crate::error::{internal_error, ApiErrorResponse, STATUS_INTERNAL};

verus! {

/// The work factor of stored password verifiers.
pub const PASSWORD_COST: u32 = 12;

#[verifier::external_type_specification]
#[verifier::external_body]
pub struct ExBcryptError(bcrypt::BcryptError);

/// What bcrypt's verification says of a password against a stored verifier:
/// `Some(b)` when the verifier parses, `None` when it is malformed.
pub uninterp spec fn bcrypt_verdict(password: Seq<char>, verifier: Seq<char>) -> Option<bool>;

/// Relies on bcrypt::hash: a salted verifier with the given cost; the salt is
/// random, and the verifier it returns accepts the password it was made from.
#[verifier::external_body]
fn bcrypt_hash(password: &str, cost: u32) -> (r: Result<String, bcrypt::BcryptError>)
    ensures
        r matches Ok(h) ==> bcrypt_verdict(password@, h@) == Some(true),
{
    bcrypt::hash(password, cost)
}

/// Relies on bcrypt::verify: recomputes the hash with the verifier's salt and
/// cost; fails on a verifier that does not parse.
#[verifier::external_body]
fn bcrypt_verify(password: &str, verifier: &str) -> (r: Result<bool, bcrypt::BcryptError>)
    ensures
        r matches Ok(b) ==> bcrypt_verdict(password@, verifier@) == Some(b),
        r is Err ==> bcrypt_verdict(password@, verifier@) is None,
{
    bcrypt::verify(password, verifier)
}

/// Hashes a password into a fresh verifier, or reports an internal failure.
pub fn hash_password(password: &str) -> (r: Result<String, ApiErrorResponse>)
    ensures
        r matches Ok(h) ==> bcrypt_verdict(password@, h@) == Some(true),
        r matches Err(e) ==> e.status == STATUS_INTERNAL,
{
    match bcrypt_hash(password, PASSWORD_COST) {
        Ok(h) => Ok(h),
        Err(_) => Err(internal_error("password hashing failed".to_owned())),
    }
}

/// Checks a password against a stored verifier. Fails closed: a verifier that
/// cannot be read counts as a mismatch.
pub fn password_matches(password: &str, verifier: &str) -> (r: bool)
    ensures
        r == (bcrypt_verdict(password@, verifier@) == Some(true)),
{
    match bcrypt_verify(password, verifier) {
        Ok(b) => b,
        Err(_) => false,
    }
}

} // verus!
