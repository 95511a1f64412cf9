//! The `users` table's records.

use vstd::prelude::*;

verus! {

/// An account that may log in; `password_hash` is an Argon2 PHC string.
pub struct User {
    pub id: i64,
    pub username: String,
    pub password_hash: String,
}

} // verus!
