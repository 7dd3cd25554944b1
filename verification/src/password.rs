//! Hashing passwords and checking a password against a stored hash, with Argon2 (the `argon2`
//! crate with its default configuration).
use argon2::password_hash::{
    rand_core::OsRng, PasswordHash, PasswordHasher, PasswordVerifier, SaltString,
};
use argon2::Argon2;
use vstd::prelude::*;

verus! {

/// The error type of the `password-hash` traits that `argon2` implements.
#[verifier::external_type_specification]
#[verifier::external_body]
pub struct ExPasswordHashError(argon2::password_hash::Error);

/// Whether `argon2::password_hash::PasswordHash::new` accepts a text as a PHC string.
pub uninterp spec fn phc_parses(phc: Seq<char>) -> bool;

/// Whether `Argon2::default().verify_password(password, hash)` succeeds, for the hash parsed
/// from the PHC string `phc`.
pub uninterp spec fn argon2_accepts(password: Seq<u8>, phc: Seq<char>) -> bool;

/// The longest password, in bytes, that Argon2 hashes (`argon2::MAX_PWD_LEN`).
pub const ARGON2_MAX_PASSWORD_LENGTH: u64 = 0xFFFF_FFFF;

/// Hashes a password with `Argon2::default()` and a fresh random salt
/// (`SaltString::generate(&mut OsRng)`), giving the PHC string of the hash.
///
/// Trusted: hashing fails exactly for a password longer than `argon2::MAX_PWD_LEN` bytes (with
/// the default parameters and a 16-byte generated salt, that length check is the only input the
/// hashing rejects); a hash that is produced parses back as a PHC string, and verifying the same
/// password against it succeeds (verification recomputes the hash with the parameters and salt
/// stored in it). Which string comes out depends on the random salt, so nothing more is stated.
#[verifier::external_body]
fn argon2_hash(password: &[u8]) -> (r: Result<String, argon2::password_hash::Error>)
    ensures
        r is Ok <==> password@.len() <= ARGON2_MAX_PASSWORD_LENGTH,
        r matches Ok(h) ==> phc_parses(h@) && argon2_accepts(password@, h@),
{
    let salt = SaltString::generate(&mut OsRng);
    match Argon2::default().hash_password(password, &salt) {
        Ok(hash) => Ok(hash.to_string()),
        Err(e) => Err(e),
    }
}

/// Parses a PHC string with `PasswordHash::new` and verifies a password against it with
/// `Argon2::default().verify_password`.
///
/// Trusted: `Err` exactly when the text does not parse; otherwise whether verification succeeds.
#[verifier::external_body]
fn argon2_verify(password: &[u8], phc: &str) -> (r: Result<bool, argon2::password_hash::Error>)
    ensures
        r is Ok <==> phc_parses(phc@),
        r matches Ok(b) ==> b == argon2_accepts(password@, phc@),
{
    match PasswordHash::new(phc) {
        Ok(hash) => Ok(Argon2::default().verify_password(password, &hash).is_ok()),
        Err(e) => Err(e),
    }
}

/// Why hashing or checking a password failed.
#[derive(Debug, PartialEq, Eq, Structural)]
pub enum PasswordError {
    /// Argon2 could not hash the password
    Hashing,
    /// The stored hash is not a valid PHC string
    MalformedHash,
}

/// The outcome of checking `password` against an optional stored hash.
pub open spec fn password_check(password: Seq<u8>, hashed: Option<Seq<char>>) -> Result<
    bool,
    PasswordError,
> {
    match hashed {
        None => Ok(false),
        Some(phc) => if phc_parses(phc) {
            Ok(argon2_accepts(password, phc))
        } else {
            Err(PasswordError::MalformedHash)
        },
    }
}

/// Hash a given plaintext password
pub fn hash_password(password: &[u8]) -> (r: Result<String, PasswordError>)
    ensures
        r is Ok <==> password@.len() <= ARGON2_MAX_PASSWORD_LENGTH,
        r matches Ok(h) ==> phc_parses(h@) && argon2_accepts(password@, h@),
        r matches Ok(h) ==> password_check(password@, Some(h@)) == Ok::<bool, PasswordError>(true),
        r matches Err(e) ==> e == PasswordError::Hashing,
{
    match argon2_hash(password) {
        Ok(h) => Ok(h),
        Err(_) => Err(PasswordError::Hashing),
    }
}

/// Verify that a plaintext password matches a hashed password
///
/// Only when this returns `Ok(true)` do the passwords match
pub fn verify_password(plaintext_password: &[u8], hashed_password: Option<&str>) -> (r: Result<
    bool,
    PasswordError,
>)
    ensures
        r == Ok::<bool, PasswordError>(true) <==> (hashed_password matches Some(h) && phc_parses(h@)
            && argon2_accepts(plaintext_password@, h@)),
        r == Ok::<bool, PasswordError>(false) <==> (hashed_password is None || (hashed_password matches Some(h)
            && phc_parses(h@) && !argon2_accepts(plaintext_password@, h@))),
        r == Err::<bool, PasswordError>(PasswordError::MalformedHash) <==> (hashed_password matches Some(h)
            && !phc_parses(h@)),
        r == password_check(
            plaintext_password@,
            match hashed_password {
                Some(h) => Some(h@),
                None => None,
            },
        ),
{
    match hashed_password {
        Some(hashed) => match argon2_verify(plaintext_password, hashed) {
            Ok(b) => Ok(b),
            Err(_) => Err(PasswordError::MalformedHash),
        },
        None => Ok(false),
    }
}

/// A hash made of a password verifies against that same password.
pub proof fn hashed_password_verifies(password: Seq<u8>, phc: Seq<char>)
    requires
        phc_parses(phc),
        argon2_accepts(password, phc),
    ensures
        password_check(password, Some(phc)) == Ok::<bool, PasswordError>(true),
{
}

/// An account without a stored password hash never accepts a password.
pub proof fn missing_hash_never_verifies(password: Seq<u8>)
    ensures
        password_check(password, None) == Ok::<bool, PasswordError>(false),
{
}

/// Checking a password against a stored hash accepts exactly the passwords that Argon2 accepts
/// for that very hash: `Ok(true)` only for a parsable hash that verifies these exact bytes,
/// `Ok(false)` for a parsable hash that does not (and for a missing hash), and an error for a
/// hash that does not parse.
pub proof fn password_check_is_argon2_verification(password: Seq<u8>, phc: Seq<char>)
    ensures
        password_check(password, Some(phc)) == Ok::<bool, PasswordError>(true) <==> phc_parses(phc)
            && argon2_accepts(password, phc),
        password_check(password, Some(phc)) == Ok::<bool, PasswordError>(false) <==> phc_parses(phc)
            && !argon2_accepts(password, phc),
        password_check(password, Some(phc)) == Err::<bool, PasswordError>(PasswordError::MalformedHash)
            <==> !phc_parses(phc),
        password_check(password, None) == Ok::<bool, PasswordError>(false),
{
}

} // verus!
