use vstd::prelude::*;
use vstd::string::*;

use crate::errors::{AppError, ErrorView};

verus! {

#[verifier::external_type_specification]
#[verifier::external_body]
pub struct ExBcryptError(bcrypt::BcryptError);

/// What checking `password` against the stored digest `hash` gives: `Some(true)` on a match,
/// `Some(false)` on a mismatch, `None` when the digest cannot be read.
pub uninterp spec fn password_verdict(password: Seq<char>, hash: Seq<char>) -> Option<bool>;

/// Form of a digest at cost 12: `$2b$12$`, then 22 characters of salt and 31 of hash.
pub open spec fn is_cost12_digest(h: Seq<char>) -> bool {
    h.len() == 60 && "$2b$12$"@.is_prefix_of(h)
}

/// Relies on bcrypt::hash at bcrypt::DEFAULT_COST (12): a salted digest of the password's
/// bytes with a fresh random salt, formatted as `$2b$12$` followed by 53 characters, which
/// bcrypt::verify accepts for the same password.
#[verifier::external_body]
fn bcrypt_hash(password: &str) -> (r: Result<String, bcrypt::BcryptError>)
    ensures
        r matches Ok(h) ==> password_verdict(password@, h@) == Some(true),
        r matches Ok(h) ==> is_cost12_digest(h@),
{
    bcrypt::hash(password.as_bytes(), bcrypt::DEFAULT_COST)
}

/// Relies on bcrypt::verify: whether the password's bytes hash to the stored digest under
/// the digest's own cost and salt, or an error when the digest is not well formed.
#[verifier::external_body]
fn bcrypt_verify(password: &str, hash: &str) -> (r: Result<bool, bcrypt::BcryptError>)
    ensures
        r is Err <==> password_verdict(password@, hash@) is None,
        r matches Ok(b) ==> password_verdict(password@, hash@) == Some(b),
{
    bcrypt::verify(password.as_bytes(), hash)
}

/// Digest of a password for storage. A failure of the hash function is an internal failure.
pub fn hash_password(password: &str) -> (r: Result<String, AppError>)
    ensures
        r matches Ok(h) ==> password_verdict(password@, h@) == Some(true),
        r matches Ok(h) ==> is_cost12_digest(h@),
        r matches Err(e) ==> e@ == ErrorView::PasswordHash,
{
    match bcrypt_hash(password) {
        Ok(h) => Ok(h),
        Err(_) => Err(AppError::PasswordHash),
    }
}

/// Checks a password against a stored digest. A mismatch is `Ok(false)`; an unreadable
/// digest is an internal failure.
pub fn verify_password(password: &str, hash: &str) -> (r: Result<bool, AppError>)
    ensures
        match password_verdict(password@, hash@) {
            Some(b) => r == Ok::<bool, AppError>(b),
            None => r matches Err(e) && e@ == ErrorView::PasswordHash,
        },
{
    match bcrypt_verify(password, hash) {
        Ok(b) => Ok(b),
        Err(_) => Err(AppError::PasswordHash),
    }
}

/// Outcome of a delete scoped to one resource id: no content when a row went, not found
/// when none did (it was never there, or a concurrent delete came first).
pub fn check_delete_result(rows_affected: u64, resource_name: &str) -> (r: Result<u16, AppError>)
    ensures
        rows_affected > 0 ==> r == Ok::<u16, AppError>(204),
        rows_affected == 0 ==> (r matches Err(e) && e@ == ErrorView::NotFound(resource_name@ + " not found"@)),
{
    if rows_affected > 0 {
        Ok(204)
    } else {
        Err(AppError::NotFound { message: resource_name.to_owned().concat(" not found") })
    }
}

} // verus!
