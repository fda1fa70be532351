//! Password hashing with Argon2id at the `argon2` crate's default cost
//! (19 MiB of memory, 2 iterations, 1 lane, version 0x13), stored as
//! self-describing PHC strings: `$argon2id$v=19$m=19456,t=2,p=1$<salt>$<digest>`.
//! `hash_password` promises that prefix, so stored hashes stay verifiable.
use crate::secret::{secret_text, SecretString};
use argon2::password_hash::{PasswordHash, PasswordHasher, PasswordVerifier, SaltString};
use argon2::Argon2;
use vstd::prelude::*;

verus! {

#[verifier::external_type_specification]
#[verifier::external_body]
pub struct ExPhcError(argon2::password_hash::Error);

/// Whether `PasswordHash::new` parses the text as a PHC string.
pub uninterp spec fn is_phc(s: Seq<char>) -> bool;

/// Whether Argon2 verification of the password against the PHC string
/// succeeds: the digest recomputed with the string's own algorithm, version,
/// cost and salt equals the string's digest.
pub uninterp spec fn argon2_accepts(password: Seq<char>, phc: Seq<char>) -> bool;

/// Relies on `password_hash::PasswordHash::new`: whether a text parses as a
/// PHC string depends on the text alone.
#[verifier::external_body]
fn parse_phc(phc: &str) -> (r: Result<(), argon2::password_hash::Error>)
    ensures
        r is Ok <==> is_phc(phc@),
{
    PasswordHash::new(phc).map(|_| ())
}

/// Relies on `PasswordVerifier::verify_password` of `Argon2::default()`, on
/// the hash that `PasswordHash::new` parses from `phc`: it succeeds exactly
/// when the digest recomputed from the password matches, and never on a text
/// that does not parse.
#[verifier::external_body]
fn argon2_verify(password: &str, phc: &str) -> (r: Result<(), argon2::password_hash::Error>)
    ensures
        r is Ok <==> argon2_accepts(password@, phc@),
        r is Ok ==> is_phc(phc@),
{
    let hash = PasswordHash::new(phc)?;
    Argon2::default().verify_password(password.as_bytes(), &hash)
}

/// The number of random bytes in a fresh salt, as `SaltString::generate` uses.
pub const SALT_BYTES: usize = 16;

/// The most characters a password may have and still be hashed: in UTF-8 it
/// then has at most `u32::MAX` bytes, Argon2's limit.
pub const MAX_HASHABLE_CHARS: usize = 0x3fff_ffff;

/// How every hash made here begins: the algorithm, its version and the fixed
/// cost (19 MiB of memory, 2 iterations, 1 lane).
pub const ARGON2_PHC_PREFIX: &'static str = "$argon2id$v=19$m=19456,t=2,p=1$";

/// Relies on `rand::random` (the thread-local generator, seeded by the
/// operating system): 16 fresh random bytes.
#[verifier::external_body]
fn fresh_salt() -> (r: Vec<u8>)
    ensures
        r@.len() == SALT_BYTES,
{
    rand::random::<[u8; 16]>().to_vec()
}

/// Relies on `SaltString::encode_b64` and `PasswordHasher::hash_password` of
/// `Argon2::default()`. Encoding fails only for more than 48 bytes of salt,
/// and hashing only for a salt of under 8 bytes or a password of over
/// `u32::MAX` bytes. The PHC text begins with the algorithm, version and
/// default cost; it parses again, and verification recomputes the same
/// digest from the same password, since it reads algorithm, version, cost
/// and salt back from that text.
#[verifier::external_body]
fn argon2_hash(password: &str, salt: &[u8]) -> (r: Result<String, argon2::password_hash::Error>)
    ensures
        8 <= salt@.len() <= 48 && password@.len() <= MAX_HASHABLE_CHARS ==> r is Ok,
        r is Ok ==> is_phc(r->Ok_0@),
        r is Ok ==> argon2_accepts(password@, r->Ok_0@),
        r is Ok ==> ARGON2_PHC_PREFIX@.is_prefix_of(r->Ok_0@),
{
    let salt = SaltString::encode_b64(salt)?;
    Argon2::default().hash_password(password.as_bytes(), &salt).map(|h| h.to_string())
}

/// Why a password does not verify against a stored hash.
#[derive(Debug, Clone, Copy, PartialEq, Eq, Structural)]
pub enum VerifyError {
    /// The hash is well formed and the password does not match it.
    Mismatch,
    /// The stored text is not a PHC string.
    MalformedHash,
}

/// Hashing failed inside the Argon2 implementation.
#[derive(Debug, Clone, Copy, PartialEq, Eq, Structural)]
pub struct HashError;

/// What verifying `password` against the stored text `phc` yields.
pub open spec fn verification(password: Seq<char>, phc: Seq<char>) -> Result<(), VerifyError> {
    if !is_phc(phc) {
        Err(VerifyError::MalformedHash)
    } else if argon2_accepts(password, phc) {
        Ok(())
    } else {
        Err(VerifyError::Mismatch)
    }
}

/// `phc` is a hash of `password`: a PHC string that the password verifies against.
pub open spec fn is_hash_of(password: Seq<char>, phc: Seq<char>) -> bool {
    is_phc(phc) && argon2_accepts(password, phc)
}

/// Checks `password` against the stored PHC string `expected_password_hash`.
pub fn verify_password_hash(expected_password_hash: &SecretString, password: &SecretString) -> (r:
    Result<(), VerifyError>)
    ensures
        r == verification(secret_text(*password), secret_text(*expected_password_hash)),
{
    let phc = expected_password_hash.expose_secret().as_str();
    match parse_phc(phc) {
        Err(_) => Err(VerifyError::MalformedHash),
        Ok(()) => match argon2_verify(password.expose_secret().as_str(), phc) {
            Ok(()) => Ok(()),
            Err(_) => Err(VerifyError::Mismatch),
        },
    }
}

/// `phc` was made with the fixed algorithm, version and cost of this library.
pub open spec fn has_default_cost(phc: Seq<char>) -> bool {
    ARGON2_PHC_PREFIX@.is_prefix_of(phc)
}

/// Hashes `password` under a fresh random salt, giving its PHC string. Only
/// a password of more than `MAX_HASHABLE_CHARS` characters may fail.
pub fn hash_password(password: &SecretString) -> (r: Result<SecretString, HashError>)
    ensures
        secret_text(*password).len() <= MAX_HASHABLE_CHARS ==> r is Ok,
        r is Ok ==> is_hash_of(secret_text(*password), secret_text(r->Ok_0)),
        r is Ok ==> has_default_cost(secret_text(r->Ok_0)),
{
    let salt = fresh_salt();
    match argon2_hash(password.expose_secret().as_str(), &salt) {
        Ok(phc) => Ok(SecretString::new(phc)),
        Err(_) => Err(HashError),
    }
}

/// A hash made by `hash_password` verifies the password it was made from.
pub proof fn lemma_hash_then_verify(password: Seq<char>, phc: Seq<char>)
    requires
        is_hash_of(password, phc),
    ensures
        verification(password, phc) == Ok::<(), VerifyError>(()),
{
}

} // verus!
