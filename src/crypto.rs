//! The cryptographic primitives, each a call into an outside crate: the
//! keyed hash of session secrets, the salted password hash, the operating
//! system's random source, and the clock.
use argon2::password_hash::{PasswordHash, PasswordHasher, PasswordVerifier, SaltString};
use hmac::{Hmac, Mac};
use rand_core::{OsRng, RngCore};
use sha2::Sha256;
use vstd::prelude::*;

verus! {

/// The HMAC-SHA-256 tag of `message` under `key`.
pub uninterp spec fn hmac_sha256_of(key: Seq<u8>, message: Seq<u8>) -> Seq<u8>;

/// Whether `candidate` is the password that the PHC string `phc` was made from.
pub uninterp spec fn argon2_accepts(phc: Seq<char>, candidate: Seq<u8>) -> bool;

/// The text that opens every PHC string of the Argon2id algorithm.
pub open spec fn argon2id_prefix() -> Seq<char> {
    "$argon2id$"@
}

#[verifier::external_type_specification]
#[verifier::external_body]
pub struct ExInvalidLength(hmac::digest::InvalidLength);

#[verifier::external_type_specification]
#[verifier::external_body]
pub struct ExPasswordHashError(argon2::password_hash::Error);

#[verifier::external_type_specification]
#[verifier::external_body]
pub struct ExRandError(rand_core::Error);

/// Relies on `Hmac::<Sha256>::new_from_slice`, which accepts a key of any
/// length (a long key is hashed first), then `update` and `finalize`, whose
/// tag has the 32-byte output size of SHA-256.
#[verifier::external_body]
pub(crate) fn hmac_sha256(key: &[u8], message: &[u8]) -> (r: Result<
    Vec<u8>,
    hmac::digest::InvalidLength,
>)
    ensures
        r is Ok,
        r is Ok ==> r->Ok_0@ == hmac_sha256_of(key@, message@),
        r is Ok ==> r->Ok_0@.len() == 32,
{
    match Hmac::<Sha256>::new_from_slice(key) {
        Ok(mut mac) => {
            mac.update(message);
            Ok(mac.finalize().into_bytes().to_vec())
        },
        Err(e) => Err(e),
    }
}

/// Relies on argon2's `PasswordHasher::hash_password` with `Argon2::default()`
/// (algorithm Argon2id) and a salt from `SaltString::generate` over the
/// operating system's random source; the result is the PHC string, which
/// `Display` starts with `$argon2id$`. Each call draws a fresh salt. Checking
/// a password against the string recomputes the hash with the string's own
/// salt and parameters, so the string accepts the password it was made from.
#[verifier::external_body]
pub(crate) fn argon2_hash(password: &[u8]) -> (r: Result<String, argon2::password_hash::Error>)
    ensures
        r matches Ok(s) ==> argon2_accepts(s@, password@),
        r matches Ok(s) ==> argon2id_prefix().is_prefix_of(s@),
{
    let salt = SaltString::generate(&mut OsRng);
    match argon2::Argon2::default().hash_password(password, &salt) {
        Ok(hash) => Ok(hash.to_string()),
        Err(e) => Err(e),
    }
}

/// Relies on argon2's `PasswordHash::new`, which parses a PHC string, and
/// `PasswordVerifier::verify_password` of `Argon2::default()`, which hashes the
/// candidate with the salt and parameters of that string and compares.
/// A string that does not parse accepts no candidate.
#[verifier::external_body]
pub(crate) fn argon2_verify(phc: &str, candidate: &[u8]) -> (r: bool)
    ensures
        r == argon2_accepts(phc@, candidate@),
{
    match PasswordHash::new(phc) {
        Ok(parsed) => argon2::Argon2::default().verify_password(candidate, &parsed).is_ok(),
        Err(_) => false,
    }
}

/// Relies on `OsRng::try_fill_bytes`: it overwrites the buffer in place.
#[verifier::external_body]
pub(crate) fn fill_random(buf: &mut Vec<u8>) -> (r: Result<(), rand_core::Error>)
    ensures
        final(buf)@.len() == old(buf)@.len(),
{
    OsRng.try_fill_bytes(buf.as_mut_slice())
}

/// Relies on `time::OffsetDateTime::now_utc` and `unix_timestamp`: the
/// current time in whole seconds since the Unix epoch.
#[verifier::external_body]
pub(crate) fn unix_now() -> (r: i64) {
    time::OffsetDateTime::now_utc().unix_timestamp()
}

/// Relies on `uuid::Uuid::now_v7`: a time-ordered identifier with random
/// low bits, read as a 128-bit value.
#[verifier::external_body]
pub(crate) fn new_session_id() -> (r: u128) {
    uuid::Uuid::now_v7().as_u128()
}

} // verus!
