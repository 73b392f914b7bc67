//! Hashing passwords for storage and checking a password against a stored
//! hash. The work itself is Argon2's; this module decides what each outcome
//! means to the rest of the backend.

use vstd::prelude::*;
use crate::error::{AppError, AppErrorView};

verus! {

/// What Argon2 says of `password` against the stored hash `stored`:
/// `Ok(true)` when it accepts the password, that is, when the digest it
/// recomputes equals the stored one; `Ok(false)` when it refuses, be it for a
/// digest that differs or for parameters it cannot use; and the parser's
/// message when `stored` is not a well-formed PHC string.
pub uninterp spec fn argon2_verdict(password: Seq<char>, stored: Seq<char>) -> Result<
    bool,
    Seq<char>,
>;

/// Draws a salt with `SaltString::generate` from the operating system's
/// random source and hashes `password` with `Argon2::default()`, returning the
/// PHC string or the hasher's message. Trusted. The string itself differs
/// from call to call with the salt, so nothing is claimed of its text; what
/// holds of every string that comes back is what Argon2's documentation
/// shows of this very sequence of calls: parsed again, it verifies against
/// the password it was made from. The random source is expected to be
/// available.
#[verifier::external_body]
fn hash_with_fresh_salt(password: &str) -> (hashed: Result<String, String>)
    ensures
        match hashed {
            Ok(hash) => argon2_verdict(password@, hash@) == Ok::<bool, Seq<char>>(true),
            Err(_) => true,
        },
{
    let salt = argon2::password_hash::SaltString::generate(
        &mut argon2::password_hash::rand_core::OsRng,
    );
    let argon2 = argon2::Argon2::default();
    argon2::PasswordHasher::hash_password(&argon2, password.as_bytes(), &salt).map(
        |hash| hash.to_string(),
    ).map_err(|e| e.to_string())
}

/// Parses `stored` with `PasswordHash::new` and, when that succeeds, asks
/// `Argon2::default()` to verify `password` against it. Trusted: the outcome
/// is a function of the two arguments, named [`argon2_verdict`]; a parse
/// failure is reported by its display text.
#[verifier::external_body]
fn check_against_hash(password: &str, stored: &str) -> (verdict: Result<bool, String>)
    ensures
        match verdict {
            Ok(matches) => argon2_verdict(password@, stored@) == Ok::<bool, Seq<char>>(matches),
            Err(message) => argon2_verdict(password@, stored@) == Err::<bool, Seq<char>>(
                message@,
            ),
        },
{
    let parsed = argon2::PasswordHash::new(stored).map_err(|e| e.to_string())?;
    let argon2 = argon2::Argon2::default();
    Ok(argon2::PasswordVerifier::verify_password(&argon2, password.as_bytes(), &parsed).is_ok())
}

/// What checking a password means to the backend: whether it matches, or
/// the internal error raised by a malformed stored hash.
pub open spec fn verify_outcome(password: Seq<char>, stored: Seq<char>) -> Result<
    bool,
    AppErrorView,
> {
    match argon2_verdict(password, stored) {
        Ok(matches) => Ok(matches),
        Err(message) => Err(AppErrorView::HashError(message)),
    }
}

/// Hashes `password` under a fresh random salt into one opaque string that
/// carries salt, parameters and digest. Whatever salt was drawn, the string
/// that comes back is a stored hash of this password: checking the password
/// against it succeeds with a match. A failure of the hasher comes back as
/// `HashError`; no other error is possible.
pub fn hash_password(password: &str) -> (hashed: Result<String, AppError>)
    ensures
        match hashed {
            Ok(hash) => verify_outcome(password@, hash@) == Ok::<bool, AppErrorView>(true),
            Err(e) => e@ is HashError,
        },
{
    match hash_with_fresh_salt(password) {
        Ok(hash) => Ok(hash),
        Err(message) => Err(AppError::HashError(message)),
    }
}

/// Checks `password` against the stored hash. A hash that cannot be parsed
/// is an internal error (`HashError`), distinct from a password that does
/// not match (`Ok(false)`).
pub fn verify_password(password: &str, stored: &str) -> (verdict: Result<bool, AppError>)
    ensures
        match verdict {
            Ok(matches) => verify_outcome(password@, stored@) == Ok::<bool, AppErrorView>(
                matches,
            ),
            Err(e) => verify_outcome(password@, stored@) == Err::<bool, AppErrorView>(e@),
        },
{
    match check_against_hash(password, stored) {
        Ok(matches) => Ok(matches),
        Err(message) => Err(AppError::HashError(message)),
    }
}

} // verus!
