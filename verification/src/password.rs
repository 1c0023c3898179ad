use vstd::prelude::*;

use crate::errors::ApiError;
use bcrypt::BcryptError;

verus! {

#[verifier::external_type_specification]
#[verifier::external_body]
pub struct ExBcryptError(BcryptError);

/// What `bcrypt::verify` answers for a password and a stored hash:
/// `Some(true)` or `Some(false)` when the hash could be read, `None` when
/// bcrypt refused it.
pub uninterp spec fn bcrypt_verify_outcome(password: Seq<char>, hash: Seq<char>) -> Option<bool>;

/// The shape of a hash bcrypt writes at the default cost: 60 characters,
/// starting with `$2b$12$` (version 2b, cost 12).
pub open spec fn is_stored_hash(h: Seq<char>) -> bool {
    h.len() == 60 && h.subrange(0, 7) == "$2b$12$"@
}

/// `bcrypt::hash(password, DEFAULT_COST)`. The salt is drawn from the
/// operating system, so the hash itself is not a function of the password.
/// A produced hash is 60 characters long, written as `$2b$12$` followed by
/// the salt and the digest; `bcrypt::verify` recomputes it from the
/// password and the salt and cost written in it, so the same password is
/// accepted again. It fails only when no random salt can be drawn.
#[verifier::external_body]
fn bcrypt_hash(password: &str) -> (r: Result<String, BcryptError>)
    ensures
        r matches Ok(h) ==> is_stored_hash(h@) && bcrypt_verify_outcome(password@, h@) == Some(true),
{
    bcrypt::hash(password, bcrypt::DEFAULT_COST)
}

/// `bcrypt::verify(password, hash)`: its outcome is named above. Every hash
/// that is not exactly 60 characters long is rejected.
#[verifier::external_body]
fn bcrypt_verify(password: &str, hash: &str) -> (r: Result<bool, BcryptError>)
    ensures
        match r {
            Ok(b) => bcrypt_verify_outcome(password@, hash@) == Some(b),
            Err(_) => bcrypt_verify_outcome(password@, hash@) is None,
        },
        hash@.len() != 60 ==> r is Err,
{
    bcrypt::verify(password, hash)
}

/// The text of a bcrypt error (its `Display` rendering); nothing is stated
/// of it.
#[verifier::external_body]
fn bcrypt_error_text(e: &BcryptError) -> String {
    e.to_string()
}

fn bcrypt_failure(e: BcryptError) -> (r: ApiError)
    ensures
        r is Bcrypt,
{
    ApiError::Bcrypt(bcrypt_error_text(&e))
}

/// Hashes a password for storage. A stored hash has the bcrypt shape and
/// accepts the password it was made from.
pub fn encode_password(password: &str) -> (r: Result<String, ApiError>)
    ensures
        match r {
            Ok(h) => is_stored_hash(h@) && bcrypt_verify_outcome(password@, h@) == Some(true),
            Err(e) => e is Bcrypt,
        },
{
    match bcrypt_hash(password) {
        Ok(h) => Ok(h),
        Err(e) => Err(bcrypt_failure(e)),
    }
}

/// Checks a password against a stored hash.
pub fn verify_password(password: &str, hashed_password: &str) -> (r: Result<bool, ApiError>)
    ensures
        match bcrypt_verify_outcome(password@, hashed_password@) {
            Some(b) => r == Ok::<bool, ApiError>(b),
            None => r matches Err(e) && e is Bcrypt,
        },
        hashed_password@.len() != 60 ==> r is Err,
{
    match bcrypt_verify(password, hashed_password) {
        Ok(b) => Ok(b),
        Err(e) => Err(bcrypt_failure(e)),
    }
}

/// A password is never stored as itself unless it already has the shape of
/// a stored hash (60 characters starting with `$2b$12$`): its stored hash
/// differs from it.
pub proof fn lemma_hash_differs_from_password(password: Seq<char>, hash: Seq<char>)
    requires
        is_stored_hash(hash),
        !is_stored_hash(password),
    ensures
        hash != password,
{
}

} // verus!
