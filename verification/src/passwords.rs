//! Password hashing, done by Argon2 with its recommended parameters.
//!
//! Hashing itself is not verified here. What this module states of it is
//! named, and one fact stands beside the names: a hash made from a
//! password accepts that password.

use vstd::prelude::*;
use argon2::password_hash::rand_core::OsRng;
use argon2::password_hash::{PasswordHash, PasswordHasher, PasswordVerifier, SaltString};
use argon2::Argon2;
use crate::text::owned_text_of;

verus! {

/// The PHC string that Argon2 computes from a password and a salt, where
/// it computes one.
pub uninterp spec fn argon2_hash(password: Seq<char>, salt: Seq<char>) -> Option<Seq<char>>;

/// Whether Argon2, run on the password with the parameters and the salt
/// that a PHC string records, arrives at the output that the string
/// records. A text that is no PHC string accepts nothing.
pub uninterp spec fn argon2_accepts(password: Seq<char>, hash: Seq<char>) -> bool;

/// Whether a stored hash accepts a password.
pub open spec fn password_matches(password: Seq<char>, hash: Seq<char>) -> bool {
    argon2_accepts(password, hash)
}

/// `SaltString::generate` of the password-hash crate, on the operating
/// system's random source. Nothing is claimed of the salt.
#[verifier::external_body]
fn random_salt() -> (salt: String) {
    SaltString::generate(&mut OsRng).as_str().to_owned()
}

/// `Argon2::default().hash_password`. The contract names the PHC string
/// and claims that it accepts the password it was made from: verification
/// repeats the computation with what the string records. A salt that is
/// not B64 of an accepted length, or a failure of the hasher, gives `None`.
#[verifier::external_body]
fn argon2_hash_password(password: &str, salt: &str) -> (hash: Option<String>)
    ensures
        match hash {
            Some(text) => argon2_hash(password@, salt@) == Some(text@) && argon2_accepts(
                password@,
                text@,
            ),
            None => argon2_hash(password@, salt@) is None,
        },
{
    let salt = match SaltString::from_b64(salt) {
        Ok(salt) => salt,
        Err(_) => return None,
    };
    match Argon2::default().hash_password(password.as_bytes(), &salt) {
        Ok(hash) => Some(hash.to_string()),
        Err(_) => None,
    }
}

/// `Argon2::default().verify_password` on a stored PHC string. The
/// contract names the verdict; a text that does not parse is refused.
#[verifier::external_body]
fn argon2_verify_password(password: &str, hash: &str) -> (accepted: bool)
    ensures
        accepted == argon2_accepts(password@, hash@),
{
    match PasswordHash::new(hash) {
        Ok(parsed) => Argon2::default().verify_password(password.as_bytes(), &parsed).is_ok(),
        Err(_) => false,
    }
}

/// Hashes a password with a given salt.
pub fn hash_password_with_salt(password: &str, salt: &str) -> (hash: Option<String>)
    ensures
        match hash {
            Some(text) => argon2_hash(password@, salt@) == Some(text@) && password_matches(
                password@,
                text@,
            ),
            None => argon2_hash(password@, salt@) is None,
        },
{
    argon2_hash_password(password, salt)
}

/// Hashes a password with a fresh random salt. What comes back is what
/// Argon2 computes from the password and that salt, whichever salt it
/// was; and a hash that comes back accepts the password.
pub fn hash_password(password: &str) -> (hash: Option<String>)
    ensures
        exists|salt: Seq<char>| #[trigger] argon2_hash(password@, salt) == owned_text_of(hash),
        hash matches Some(text) ==> password_matches(password@, text@),
{
    let salt = random_salt();
    let hash = hash_password_with_salt(password, salt.as_str());
    assert(argon2_hash(password@, salt@) == owned_text_of(hash));
    hash
}

/// Checks a password against a stored hash.
pub fn verify_password(password: &str, hash: &str) -> (accepted: bool)
    ensures
        accepted == password_matches(password@, hash@),
{
    argon2_verify_password(password, hash)
}

} // verus!
