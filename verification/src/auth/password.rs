//! Password hashing and verification with Argon2id (default parameters:
//! 19 MiB of memory, 2 iterations, parallelism 1, 32-byte hash). A hash is a
//! PHC string holding the algorithm, its parameters, the salt and the hash.
use vstd::prelude::*;
use vstd::string::*;
use argon2::password_hash::{PasswordHash, PasswordHasher, PasswordVerifier, SaltString};
use argon2::password_hash::rand_core::OsRng;
use argon2::Argon2;

verus! {

/// Whether `argon2::PasswordHash::new` accepts the text as a PHC string.
pub uninterp spec fn phc_parses(hash: Seq<char>) -> bool;

/// The text (`Display`) of the error that `argon2::PasswordHash::new` returns
/// for a text that is not a PHC string.
pub uninterp spec fn phc_error_text(hash: Seq<char>) -> Seq<char>;

/// Whether Argon2, with the algorithm, parameters and salt that the PHC string
/// `hash` holds, hashes `password` to the hash it holds.
pub uninterp spec fn argon2_verifies(password: Seq<char>, hash: Seq<char>) -> bool;

/// Parses a PHC string by `argon2::PasswordHash::new`: `None` when it parses,
/// else the text of its error. Which texts parse, and the error's text, are
/// named by `phc_parses` and `phc_error_text`, functions of the text alone.
/// An empty text, or one that does not start with `$`, is refused before any
/// other field is read.
#[verifier::external_body]
fn phc_parse_error(hash: &str) -> (r: Option<String>)
    ensures
        r is None <==> phc_parses(hash@),
        hash@.len() == 0 || hash@[0] != '$' ==> r is Some,
        r matches Some(e) ==> e@ == phc_error_text(hash@),
{
    match PasswordHash::new(hash) {
        Ok(_) => None,
        Err(e) => Some(e.to_string()),
    }
}

/// Checks a password against a PHC string that parses: parses it with
/// `argon2::PasswordHash::new` and calls `PasswordVerifier::verify_password`
/// of `Argon2::default()`, which rehashes the password with the string's own
/// algorithm, parameters and salt and compares. The outcome is named
/// `argon2_verifies`, a function of the password and the string.
#[verifier::external_body]
fn argon2_check(password: &str, hash: &str) -> (r: bool)
    requires
        phc_parses(hash@),
    ensures
        r == argon2_verifies(password@, hash@),
{
    match PasswordHash::new(hash) {
        Ok(parsed) => Argon2::default().verify_password(password.as_bytes(), &parsed).is_ok(),
        Err(_) => false,
    }
}

/// Hashes a password with `Argon2::default()` (Argon2id) and a fresh salt from
/// `SaltString::generate(&mut OsRng)`, by `PasswordHasher::hash_password`, and
/// gives the PHC string. The salt is random, so the string is not named; of a
/// string that comes back, it is stated that it parses and that the password
/// verifies against it, as `verify_password` rehashes with the string's own
/// parameters and salt. The string starts with the algorithm, version and
/// default parameters, `$argon2id$v=19$m=19456,t=2,p=1$`, then the salt and
/// the hash. With the default parameters and a generated salt, hashing fails
/// only for a password of more than `0xFFFF_FFFF` bytes, which a password of
/// at most a quarter of that many characters cannot reach in UTF-8. The
/// error's text is left unsaid.
#[verifier::external_body]
fn argon2_hash(password: &str) -> (r: Result<String, String>)
    ensures
        4 * password@.len() <= 0xFFFF_FFFF ==> r is Ok,
        r matches Ok(h) ==> phc_parses(h@) && argon2_verifies(password@, h@)
            && "$argon2id$v=19$m=19456,t=2,p=1$"@.is_prefix_of(h@),
{
    let salt = SaltString::generate(&mut OsRng);
    match Argon2::default().hash_password(password.as_bytes(), &salt) {
        Ok(hash) => Ok(hash.to_string()),
        Err(e) => Err(e.to_string()),
    }
}

/// Hashes a password with Argon2id and a random salt, giving the PHC string
/// (`$argon2id$v=19$m=19456,t=2,p=1$<salt>$<hash>`). A string that comes
/// back verifies the password. Hashing succeeds for every password of at most
/// `0xFFFF_FFFF / 4` characters.
pub fn hash_password(password: &str) -> (r: Result<String, String>)
    ensures
        4 * password@.len() <= 0xFFFF_FFFF ==> r is Ok,
        r matches Ok(h) ==> phc_parses(h@) && argon2_verifies(password@, h@)
            && "$argon2id$v=19$m=19456,t=2,p=1$"@.is_prefix_of(h@),
        r matches Err(e) ==> exists|detail: Seq<char>| e@ == "Failed to hash password: "@ + detail,
{
    match argon2_hash(password) {
        Ok(h) => Ok(h),
        Err(detail) => {
            let mut e = String::from_str("Failed to hash password: ");
            e.append(detail.as_str());
            assert(e@ == "Failed to hash password: "@ + detail@);
            Err(e)
        },
    }
}

/// What `verify_password` returns: an error for a text that is not a PHC
/// string, otherwise whether the password matches.
pub open spec fn verify_outcome(password: Seq<char>, hash: Seq<char>) -> Result<bool, Seq<char>> {
    if phc_parses(hash) {
        Ok(argon2_verifies(password, hash))
    } else {
        Err("Invalid hash format: "@ + phc_error_text(hash))
    }
}

/// Checks a password against a PHC hash string: `Ok(true)` when it matches,
/// `Ok(false)` when not, an error when the string is not a PHC string.
pub fn verify_password(password: &str, hash: &str) -> (r: Result<bool, String>)
    ensures
        match verify_outcome(password@, hash@) {
            Ok(b) => r == Ok::<bool, String>(b),
            Err(t) => r is Err && r->Err_0@ == t,
        },
        hash@.len() == 0 || hash@[0] != '$' ==> r is Err,
{
    match phc_parse_error(hash) {
        Some(detail) => {
            let mut e = String::from_str("Invalid hash format: ");
            e.append(detail.as_str());
            Err(e)
        },
        None => Ok(argon2_check(password, hash)),
    }
}

/// A password checks out against any hash that `hash_password` gave for it.
pub proof fn law_hash_then_verify(password: Seq<char>, hash: Seq<char>)
    requires
        phc_parses(hash),
        argon2_verifies(password, hash),
    ensures
        verify_outcome(password, hash) == Ok::<bool, Seq<char>>(true),
{
}

} // verus!
