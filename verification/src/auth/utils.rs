use vstd::prelude::*;
use crate::error::AppError;
use crate::text::{begins_with, joined};

verus! {

/// The error of bcrypt. It is opaque here.
#[verifier::external_type_specification]
#[verifier::external_body]
pub struct ExBcryptError(bcrypt::BcryptError);

/// Whether `password` matches the bcrypt hash `hash`, or `None` where bcrypt
/// cannot read the hash.
pub uninterp spec fn password_matches(password: Seq<char>, hash: Seq<char>) -> Option<bool>;

/// Hashes a password with `bcrypt::hash` at `bcrypt::DEFAULT_COST`. The salt
/// is random, so the hash has no name. What holds of every hash that comes
/// back is what the hash is for: `bcrypt::verify` hashes the password again
/// with the salt and the cost that the hash carries, and so finds that the
/// password matches it.
#[verifier::external_body]
fn bcrypt_hash(password: &str) -> (r: Result<String, bcrypt::BcryptError>)
    ensures
        r is Ok ==> password_matches(password@, r->Ok_0@) == Some(true),
{
    bcrypt::hash(password, bcrypt::DEFAULT_COST)
}

/// Holds a password against a hash with `bcrypt::verify`. The contract names
/// the outcome, which depends on the two texts alone.
#[verifier::external_body]
fn bcrypt_verify(password: &str, hash: &str) -> (r: Result<bool, bcrypt::BcryptError>)
    ensures
        r is Ok ==> password_matches(password@, hash@) == Some(r->Ok_0),
        r is Err ==> password_matches(password@, hash@) is None,
{
    bcrypt::verify(password, hash)
}

/// The text of a bcrypt error, as its `Display` gives it.
#[verifier::external_body]
fn bcrypt_error_text(error: &bcrypt::BcryptError) -> (r: String) {
    error.to_string()
}

/// Hashes a password for storage.
///
/// Whether bcrypt can hash is for bcrypt to say, and the salt is random. A
/// hash that comes back is one that the password matches; a failure is an
/// internal error whose message starts with `Password hashing failed: `.
pub fn hash_password(password: &str) -> (r: Result<String, AppError>)
    ensures
        r is Ok ==> password_matches(password@, r->Ok_0@) == Some(true),
        r is Err ==> r->Err_0 is InternalError && begins_with(
            r->Err_0->InternalError_0@,
            "Password hashing failed: "@,
        ),
{
    match bcrypt_hash(password) {
        Ok(hash) => Ok(hash),
        Err(error) => {
            let detail = bcrypt_error_text(&error);
            let message = joined("Password hashing failed: ", detail.as_str());
            assert(message@.take("Password hashing failed: "@.len() as int)
                =~= "Password hashing failed: "@);
            Err(AppError::InternalError(message))
        },
    }
}

/// Whether `password` is the one that `hash` was made from. A hash that
/// cannot be read is an internal error.
pub fn verify_password(password: &str, hash: &str) -> (r: Result<bool, AppError>)
    ensures
        match password_matches(password@, hash@) {
            Some(matches) => r == Ok::<bool, AppError>(matches),
            None => r is Err && r->Err_0 is InternalError,
        },
{
    match bcrypt_verify(password, hash) {
        Ok(matches) => Ok(matches),
        Err(error) => {
            let detail = bcrypt_error_text(&error);
            Err(AppError::InternalError(joined("Password hashing error: ", detail.as_str())))
        },
    }
}

} // verus!
