//! Password hashing and verification with bcrypt.
use vstd::prelude::*;
use crate::error::{AuthError, AuthErrorType};

verus! {

/// What `bcrypt::hash_with_salt(password, cost, salt).to_string()` returns.
pub uninterp spec fn bcrypt_hashed(password: Seq<char>, cost: u32, salt: Seq<u8>) -> Seq<char>;

/// What `bcrypt::verify(password, hash)` returns (`None` for an error).
pub uninterp spec fn bcrypt_verified(password: Seq<char>, hash: Seq<char>) -> Option<bool>;

/// The bcrypt cost used for stored credentials (bcrypt's default).
pub const HASH_COST: u32 = 12;

/// A hash made by bcrypt from this password with some valid cost and salt.
pub open spec fn hashed_from(password: Seq<char>, hash: Seq<char>) -> bool {
    exists|cost: u32, salt: Seq<u8>|
        4 <= cost <= 31 && salt.len() == 16 && hash == bcrypt_hashed(password, cost, salt)
}

/// Relies on `bcrypt::hash_with_salt`: it fails only for a cost outside
/// 4..=31, and its `to_string` writes the hash in the `$2y$` form.
#[verifier::external_body]
fn bcrypt_hash(password: &str, cost: u32, salt: &Vec<u8>) -> (r: Option<String>)
    requires
        salt@.len() == 16,
    ensures
        (4 <= cost <= 31) == (r is Some),
        r matches Some(h) ==> h@ == bcrypt_hashed(password@, cost, salt@),
{
    let mut bytes = [0u8; 16];
    bytes.copy_from_slice(salt);
    match bcrypt::hash_with_salt(password, cost, bytes) {
        Ok(parts) => Some(parts.to_string()),
        Err(_) => None,
    }
}

/// Relies on `bcrypt::verify`: it reads cost and salt out of the hash, hashes
/// the password again with them, and compares; so a hash that
/// `hash_with_salt` made from the same password verifies.
#[verifier::external_body]
fn bcrypt_verify(password: &str, hash: &str) -> (r: Option<bool>)
    ensures
        r == bcrypt_verified(password@, hash@),
        hashed_from(password@, hash@) ==> r == Some(true),
{
    bcrypt::verify(password, hash).ok()
}

/// Hashes a password with the configured salt at the fixed cost.
pub fn hash_password(password: &str, salt: &Vec<u8>) -> (r: String)
    requires
        salt@.len() == 16,
    ensures
        r@ == bcrypt_hashed(password@, HASH_COST, salt@),
{
    bcrypt_hash(password, HASH_COST, salt).unwrap()
}

/// Checks a password against a stored hash. A hash that cannot be read is a
/// server-side fault. Every hash made from the same password verifies.
pub fn verify_password(password: &str, hash: &str) -> (r: Result<bool, AuthError>)
    ensures
        match bcrypt_verified(password@, hash@) {
            Some(v) => r == Ok::<bool, AuthError>(v),
            None => r matches Err(e) && e.is_of(AuthErrorType::ServerError),
        },
        hashed_from(password@, hash@) ==> r == Ok::<bool, AuthError>(true),
{
    match bcrypt_verify(password, hash) {
        Some(v) => Ok(v),
        None => Err(AuthError::from_type(AuthErrorType::ServerError)),
    }
}

} // verus!
