use vstd::prelude::*;
use crate::error::AuthError;
use crate::refresh::os_random_bytes;
use argon2::password_hash::{PasswordHasher, PasswordVerifier};

verus! {

/// The error type of the `password-hash` crate.
#[verifier::external_type_specification]
#[verifier::external_body]
pub struct ExPasswordHashError(argon2::password_hash::Error);

/// What verifying `plain` against the stored PHC string `stored` with the
/// default Argon2 instance gives: `Some(true)` when they match, `Some(false)`
/// when the password is wrong, `None` when the stored text does not parse or
/// verification fails for another reason.
pub uninterp spec fn argon2_verdict(plain: Seq<char>, stored: Seq<char>) -> Option<bool>;

/// The PHC string that the default Argon2 instance (argon2id, default
/// parameters) gives for `plain` with the 16 salt bytes `salt`.
pub uninterp spec fn argon2_phc(plain: Seq<char>, salt: Seq<u8>) -> Seq<char>;

/// Does `plain` verify against the stored PHC string `stored`?
pub open spec fn password_matches(plain: Seq<char>, stored: Seq<char>) -> bool {
    argon2_verdict(plain, stored) == Some(true)
}

/// Longest password, in characters, that argon2 is sure to accept: its limit
/// is `u32::MAX` bytes and a character takes at most 4 bytes in UTF-8.
pub const MAX_PASSWORD_CHARS: usize = 0x3FFF_FFFF;

/// The PHC prefix of an argon2id hash.
pub open spec fn argon2id_prefix() -> Seq<char> {
    "$argon2id$"@
}

/// Hashes `plain` with the default Argon2 instance (argon2id, default
/// parameters) and the given salt bytes, B64-encoded as a PHC salt
/// (`SaltString::encode_b64`, then `PasswordHasher::hash_password`), rendered
/// as a PHC string. Claimed: a 16-byte salt is always accepted and hashing
/// fails only for a password over `u32::MAX` bytes, so a password of at most
/// `MAX_PASSWORD_CHARS` characters always hashes; the PHC string starts with
/// `$argon2id$`; and it verifies against the same password (it carries the
/// algorithm, version, parameters, salt and output that verification
/// recomputes); and the text is the named function of the password and the
/// salt (hashing is deterministic).
#[verifier::external_body]
fn argon2_hash(plain: &str, salt: &[u8; 16]) -> (r: Result<String, argon2::password_hash::Error>)
    ensures
        plain@.len() <= MAX_PASSWORD_CHARS ==> r is Ok,
        r matches Ok(h) ==> h@ == argon2_phc(plain@, salt@),
        r matches Ok(h) ==> password_matches(plain@, h@) && h@.len() >= 10
            && h@.subrange(0, 10) == argon2id_prefix(),
{
    let salt = argon2::password_hash::SaltString::encode_b64(salt)?;
    argon2::Argon2::default().hash_password(plain.as_bytes(), &salt).map(|h| h.to_string())
}

/// Parses `stored` as a PHC string (`PasswordHash::new`) and verifies `plain`
/// against it with the default Argon2 instance (`PasswordVerifier::verify_password`).
/// The outcome is turned into a plain value variant by variant: success is
/// `Some(true)`, the `Password` error is `Some(false)`, a parse error or any
/// other error is `None`. Claimed: the outcome is the named function of the two
/// texts (verification is deterministic), and a text that is empty or does not
/// start with `$` does not parse, so gives `None`.
#[verifier::external_body]
fn argon2_check(plain: &str, stored: &str) -> (v: Option<bool>)
    ensures
        v == argon2_verdict(plain@, stored@),
        stored@.len() == 0 || stored@[0] != '$' ==> v is None,
{
    let parsed = match argon2::PasswordHash::new(stored) {
        Ok(p) => p,
        Err(_) => return None,
    };
    match argon2::Argon2::default().verify_password(plain.as_bytes(), &parsed) {
        Ok(()) => Some(true),
        Err(argon2::password_hash::Error::Password) => Some(false),
        Err(_) => None,
    }
}

/// Hashes a clear password with argon2id and the given 16 salt bytes: the PHC
/// string that holds the salt and the parameters.
pub fn hash_password_with_salt(plain: &str, salt: &[u8; 16]) -> (r: Result<String, AuthError>)
    ensures
        plain@.len() <= MAX_PASSWORD_CHARS ==> r is Ok,
        r matches Ok(h) ==> h@ == argon2_phc(plain@, salt@) && password_matches(plain@, h@) && h@.len() >= 10
            && h@.subrange(0, 10) == argon2id_prefix(),
        r matches Err(e) ==> e is Hash,
{
    match argon2_hash(plain, salt) {
        Ok(h) => Ok(h),
        Err(_) => Err(AuthError::Hash),
    }
}

/// Hashes a clear password with argon2id and a fresh random salt. The result
/// is a PHC string that already holds the salt and the parameters, so the
/// same password hashes differently each time.
pub fn hash_password(plain: &str) -> (r: Result<String, AuthError>)
    ensures
        plain@.len() <= MAX_PASSWORD_CHARS ==> r is Ok,
        r matches Ok(h) ==> (exists|salt: Seq<u8>| salt.len() == 16 && h@ == #[trigger] argon2_phc(plain@, salt))
            && password_matches(plain@, h@) && h@.len() >= 10 && h@.subrange(0, 10) == argon2id_prefix(),
        r matches Err(e) ==> e is Hash,
{
    let salt: [u8; 16] = os_random_bytes();
    hash_password_with_salt(plain, &salt)
}

/// What checking `plain` against `stored` answers: the verdict, or
/// `InvalidHash` when the stored text is unusable.
pub open spec fn verify_outcome(plain: Seq<char>, stored: Seq<char>) -> Result<bool, AuthError> {
    match argon2_verdict(plain, stored) {
        Some(b) => Ok(b),
        None => Err(AuthError::InvalidHash),
    }
}

/// Checks a clear password against a stored hash: `Ok(true)` when it matches,
/// `Ok(false)` when the password is wrong, `Err(InvalidHash)` when the stored
/// hash is unusable.
pub fn verify_password(plain: &str, stored_hash: &str) -> (r: Result<bool, AuthError>)
    ensures
        r == verify_outcome(plain@, stored_hash@),
        stored_hash@.len() == 0 || stored_hash@[0] != '$' ==> (r matches Err(e) && e is InvalidHash),
{
    match argon2_check(plain, stored_hash) {
        Some(b) => Ok(b),
        None => Err(AuthError::InvalidHash),
    }
}

/// Hashing then verifying the same password succeeds: whatever hash
/// `hash_password` gave for a password, `verify_password` answers `Ok(true)`
/// for that password and that hash.
pub proof fn lemma_hash_then_verify(plain: Seq<char>, hash: Seq<char>)
    requires
        password_matches(plain, hash),
    ensures
        verify_outcome(plain, hash) == Ok::<bool, AuthError>(true),
{
}

} // verus!
