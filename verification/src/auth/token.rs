//! Hashing of session tokens and one-time codes (SHA-256, hex), random
//! session tokens, and argon2 password hashing.

use vstd::prelude::*;
use vstd::string::*;
use argon2::password_hash::{PasswordHash, PasswordHasher, PasswordVerifier, SaltString};
use argon2::Argon2;
use rand::RngCore;
use sha2::{Digest, Sha256};
use crate::codec::{hex_encode, hex_lower};
use crate::error::ApiError;

verus! {

/// The SHA-256 digest of `data`.
pub uninterp spec fn sha256(data: Seq<u8>) -> Seq<u8>;

/// Trusted: `sha2::Sha256::digest`. Claims that the result is the SHA-256
/// digest `sha256` of the input and is 32 bytes long (the output size of
/// `Sha256`); the compression function is not restated.
#[verifier::external_body]
fn sha256_digest(data: &[u8]) -> (r: Vec<u8>)
    ensures
        r@ == sha256(data@),
        r@.len() == 32,
{
    Sha256::digest(data).to_vec()
}

/// Trusted: `rand::rngs::OsRng.fill_bytes` on a 32-byte buffer. Claims only
/// that 32 bytes come back; their values are random (the crate panics if the
/// operating system's source fails).
#[verifier::external_body]
fn random_bytes_32() -> (r: Vec<u8>)
    ensures
        r@.len() == 32,
{
    let mut bytes = [0u8; 32];
    rand::rngs::OsRng.fill_bytes(&mut bytes);
    bytes.to_vec()
}

/// Trusted: `password_hash::SaltString::generate(&mut OsRng)` followed by
/// `Argon2::default().hash_password(password, &salt)`, rendered as its PHC
/// string; an error is rendered as its message. The salt is always 16
/// bytes, and argon2 with its default parameters refuses only a password
/// longer than `0xFFFF_FFFF` bytes (or a salt outside its bounds), so a
/// password within that length is hashed. A produced hash is one the same
/// password verifies against (the crate's `PasswordVerifier` recomputes the
/// hash from the algorithm, version, parameters and salt the PHC string
/// carries, with the same default hasher). The hash text itself is not
/// stated: it depends on the random salt.
#[verifier::external_body]
fn argon2_hash_fresh(password: &[u8]) -> (r: Result<String, String>)
    ensures
        password@.len() <= 0xFFFF_FFFF ==> r is Ok,
        r matches Ok(h) ==> argon2_accepts(password@, h@),
{
    let salt = SaltString::generate(&mut rand::rngs::OsRng);
    match Argon2::default().hash_password(password, &salt) {
        Ok(h) => Ok(h.to_string()),
        Err(e) => Err(e.to_string()),
    }
}

/// Whether `password` matches the argon2 PHC string `hash`.
pub uninterp spec fn argon2_accepts(password: Seq<u8>, hash: Seq<char>) -> bool;

/// Trusted: `Argon2::default().verify_password(password, &PasswordHash::new(hash)?)`.
/// Claims that the verdict is `argon2_accepts` of the password bytes and the
/// hash text (false when the hash text does not parse); the algorithm is not
/// restated.
#[verifier::external_body]
fn argon2_verify(password: &[u8], hash: &str) -> (r: bool)
    ensures
        r == argon2_accepts(password@, hash@),
{
    match PasswordHash::new(hash) {
        Ok(parsed) => Argon2::default().verify_password(password, &parsed).is_ok(),
        Err(_) => false,
    }
}

/// Hex-encoded SHA-256 of the UTF-8 bytes of a text.
pub open spec fn sha256_hex_spec(s: &str) -> Seq<char> {
    hex_lower(sha256(s.spec_bytes()))
}

/// Hex-encoded SHA-256 of a string. Session tokens and one-time codes are
/// stored only as this hash, so a database leak can't be replayed.
pub fn sha256_hex(s: &str) -> (r: String)
    ensures
        r@ == sha256_hex_spec(s),
{
    let digest = sha256_digest(s.as_bytes());
    hex_encode(digest.as_slice())
}

/// SHA-256 of a session token — only this is stored.
pub fn hash_token(token: &str) -> (r: String)
    ensures
        r@ == sha256_hex_spec(token),
{
    sha256_hex(token)
}

/// A fresh 256-bit random session token, hex-encoded (64 characters).
pub fn new_token() -> (r: String)
    ensures
        exists|b: Seq<u8>| b.len() == 32 && r@ == hex_lower(b),
{
    let bytes = random_bytes_32();
    hex_encode(bytes.as_slice())
}

/// The outcome of hashing a password: the PHC string, or an internal error
/// carrying the hasher's message.
pub fn hash_outcome(res: Result<String, String>) -> (r: Result<String, ApiError>)
    ensures
        match res {
            Ok(h) => r == Ok::<String, ApiError>(h),
            Err(m) => r == Err::<String, ApiError>(ApiError::Internal(m)),
        },
{
    match res {
        Ok(h) => Ok(h),
        Err(msg) => Err(ApiError::Internal(msg)),
    }
}

/// Hash a password with argon2 and a fresh random salt (PHC string): the
/// password verifies against the hash it gets. Any password of at most
/// `0xFFFF_FFFF` bytes is hashed; a hasher failure is an internal error
/// carrying its message.
pub fn hash_password(password: &str) -> (r: Result<String, ApiError>)
    ensures
        password.spec_bytes().len() <= 0xFFFF_FFFF ==> r is Ok,
        match r {
            Ok(h) => argon2_accepts(password.spec_bytes(), h@),
            Err(e) => e is Internal,
        },
{
    hash_outcome(argon2_hash_fresh(password.as_bytes()))
}

/// Whether `password` matches the stored argon2 hash (false for a hash that
/// does not parse).
pub fn verify_password(password: &str, hash: &str) -> (r: bool)
    ensures
        r == argon2_accepts(password.spec_bytes(), hash@),
{
    argon2_verify(password.as_bytes(), hash)
}

} // verus!
