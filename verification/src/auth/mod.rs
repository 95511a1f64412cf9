//! Passwords and sessions: hashing and checking with Argon2, and the rule for
//! reusing a stored session key.

use vstd::prelude::*;

use argon2::password_hash::phc::PasswordHash;
use argon2::password_hash::{PasswordHasher, PasswordVerifier};
use argon2::Argon2;

verus! {

/// The name of the signed cookie that carries the logged-in user's id.
pub const SESSION_COOKIE: &'static str = "vv_session";

/// The length in bytes of a session key file that can be reused; a shorter
/// file is replaced by a freshly generated key.
pub const SESSION_KEY_LEN: usize = 64;

/// Whether Argon2 accepts `password` for the PHC string `hash`:
/// `PasswordHash::new` parses the string and `Argon2::default()`
/// verifies the password against it.
pub uninterp spec fn argon2_accepts(hash: Seq<char>, password: Seq<char>) -> bool;

/// Hashes `password` with `Argon2::default().hash_password` (Argon2id v19,
/// default parameters, a fresh random salt) and returns the PHC string.
///
/// The salt is random, so the string differs from call to call; the contract
/// claims only what the crate's own example checks: Argon2 accepts the
/// password for the string. Argon2 refuses passwords longer than
/// `0xFFFF_FFFF` bytes, which `requires` leaves out; the call panics, as the
/// program always did, if the system's random number source fails.
#[verifier::external_body]
pub fn hash_password(password: &str) -> (r: String)
    requires
        crate::text::utf8_len(password@) <= 0xFFFF_FFFF,
    ensures
        argon2_accepts(r@, password@),
{
    Argon2::default().hash_password(password.as_bytes()).expect("failed to hash password").to_string()
}

/// Checks `password` against the PHC string `hash` with `PasswordHash::new`
/// and `Argon2::default().verify_password`; a string that does not parse is
/// refused. Claimed: the answer is a function of the two strings, named
/// `argon2_accepts`.
#[verifier::external_body]
pub fn verify_password(hash: &str, password: &str) -> (r: bool)
    ensures
        r == argon2_accepts(hash@, password@),
{
    let Ok(parsed) = PasswordHash::new(hash) else {
        return false;
    };
    Argon2::default().verify_password(password.as_bytes(), &parsed).is_ok()
}

/// Whether the bytes read from the session key file can serve as the key.
pub fn stored_key_is_usable(key_bytes: &[u8]) -> (r: bool)
    ensures
        r == (key_bytes@.len() >= SESSION_KEY_LEN),
{
    key_bytes.len() >= SESSION_KEY_LEN
}

} // verus!
