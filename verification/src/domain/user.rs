use vstd::prelude::*;

verus! {

/// A row of the `users` table.
///
/// The id is a UUID held as its 128-bit value; timestamps are
/// microseconds since the Unix epoch, `None` until the row is stored.
#[derive(Clone, Debug)]
pub struct User {
    pub id: u128,
    pub username: String,
    pub email: String,
    pub password_hash: String,
    pub password_salt: String,
    pub active: bool,
    /// The roles of the user, separated by commas.
    pub roles: String,
    pub created_at: Option<i64>,
    pub updated_at: Option<i64>,
}

} // verus!
