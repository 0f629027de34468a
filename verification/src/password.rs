use argon2::password_hash::rand_core::OsRng;
use argon2::password_hash::{PasswordHash, PasswordHasher, PasswordVerifier, Salt, SaltString};
use argon2::Argon2;
use vstd::prelude::*;
use vstd::utf8::encode_utf8;

use crate::error::AppError;

verus! {

#[verifier::external_type_specification]
#[verifier::external_body]
pub struct ExPasswordHashError(argon2::password_hash::Error);

/// Whether `PasswordHash::new` accepts `hash` as a PHC string.
pub uninterp spec fn phc_string_parses(hash: Seq<char>) -> bool;

/// Whether Argon2 accepts a password of these bytes: at most `u32::MAX`
/// bytes, the only bound it puts on a password.
pub open spec fn password_hashable(password: Seq<u8>) -> bool {
    password.len() <= 0xFFFF_FFFF
}

/// Whether Argon2 with its default settings accepts `password` against the
/// parsed PHC string `hash`.
pub uninterp spec fn argon2_accepts(password: Seq<u8>, hash: Seq<char>) -> bool;

/// Whether `Salt::from_b64` accepts `salt` and `Argon2::hash_password`,
/// with its default settings, accepts the salt it gives.
pub uninterp spec fn argon2_salt_accepted(salt: Seq<char>) -> bool;

/// The PHC string that `Argon2::hash_password`, with its default settings,
/// gives for `password` under `salt`.
pub uninterp spec fn argon2_phc(password: Seq<u8>, salt: Seq<char>) -> Seq<char>;

/// Calls `SaltString::generate` with the operating system's random source
/// and gives the salt's text. The salt is random; what holds of every
/// outcome is that it encodes sixteen bytes in B64, which `Argon2` accepts.
#[verifier::external_body]
fn draw_salt() -> (r: String)
    ensures
        argon2_salt_accepted(r@),
{
    SaltString::generate(&mut OsRng).as_str().to_string()
}

/// Calls `Argon2::hash_password` with the default settings on the password's
/// bytes and the salt `Salt::from_b64` reads from `salt`, and renders the
/// result as a PHC string, named `argon2_phc`. With an accepted salt the only
/// password it refuses is one longer than `u32::MAX` bytes. The string
/// parses, and verification of the same password against it succeeds,
/// because verification recomputes the hash with the salt and settings the
/// string records.
#[verifier::external_body]
fn argon2_hash(password: &str, salt: &str) -> (r: Result<String, argon2::password_hash::Error>)
    ensures
        password_hashable(encode_utf8(password@)) && argon2_salt_accepted(salt@) ==> r is Ok,
        r matches Ok(h) ==> h@ == argon2_phc(encode_utf8(password@), salt@),
        r matches Ok(h) ==> phc_string_parses(h@) && argon2_accepts(encode_utf8(password@), h@),
{
    let salt = match Salt::from_b64(salt) {
        Ok(salt) => salt,
        Err(error) => return Err(error),
    };
    match Argon2::default().hash_password(password.as_bytes(), salt) {
        Ok(hash) => Ok(hash.to_string()),
        Err(error) => Err(error),
    }
}

/// Calls `PasswordHash::new` on `hash` and, when it parses, reports whether
/// `Argon2::verify_password` accepts `password` against it. Both outcomes are
/// only named: the parse by `phc_string_parses`, the verification by
/// `argon2_accepts`.
#[verifier::external_body]
fn argon2_check(password: &str, hash: &str) -> (r: Result<bool, argon2::password_hash::Error>)
    ensures
        r is Ok <==> phc_string_parses(hash@),
        r matches Ok(b) ==> b == argon2_accepts(encode_utf8(password@), hash@),
{
    match PasswordHash::new(hash) {
        Ok(parsed) => Ok(Argon2::default().verify_password(password.as_bytes(), &parsed).is_ok()),
        Err(error) => Err(error),
    }
}

/// Hashes a password under a given salt. Every password of at most
/// `u32::MAX` bytes is hashed under an accepted salt; the hash is the PHC
/// string of the password and salt, and it verifies the same password.
pub fn hash_password_with_salt(password: &str, salt: &str) -> (r: Result<String, AppError>)
    ensures
        password_hashable(encode_utf8(password@)) && argon2_salt_accepted(salt@) ==> r is Ok,
        r matches Ok(h) ==> h@ == argon2_phc(encode_utf8(password@), salt@),
        r matches Ok(h) ==> phc_string_parses(h@) && argon2_accepts(encode_utf8(password@), h@),
        r matches Err(e) ==> e is Internal,
{
    match argon2_hash(password, salt) {
        Ok(hash) => Ok(hash),
        Err(error) => Err(AppError::Internal(error.to_string())),
    }
}

/// Hashes a password for storage under a freshly drawn salt. Every password
/// of at most `u32::MAX` bytes is hashed; the hash is the PHC string of the
/// password and an accepted salt, and it verifies the same password.
pub fn hash_password(password: &str) -> (r: Result<String, AppError>)
    ensures
        password_hashable(encode_utf8(password@)) ==> r is Ok,
        r matches Ok(h) ==> exists|salt: Seq<char>|
            argon2_salt_accepted(salt) && h@ == #[trigger] argon2_phc(encode_utf8(password@), salt),
        r matches Ok(h) ==> phc_string_parses(h@) && argon2_accepts(encode_utf8(password@), h@),
        r matches Err(e) ==> e is Internal,
{
    let salt = draw_salt();
    hash_password_with_salt(password, salt.as_str())
}

/// Checks a password against a stored hash: an internal error when the hash
/// does not parse, else whether it matches.
pub fn verify_password(password: &str, hash: &str) -> (r: Result<bool, AppError>)
    ensures
        r is Ok <==> phc_string_parses(hash@),
        r matches Ok(b) ==> b == argon2_accepts(encode_utf8(password@), hash@),
        r matches Err(e) ==> e is Internal,
{
    match argon2_check(password, hash) {
        Ok(matches) => Ok(matches),
        Err(error) => Err(AppError::Internal(error.to_string())),
    }
}

} // verus!
