use vstd::prelude::*;

verus! {

/// A balance-holding row of the `accounts` table.
///
/// Identifiers are UUIDs held as their 128-bit value; timestamps are
/// microseconds since the Unix epoch, `None` until the row is stored.
#[derive(Clone, Copy, Debug, PartialEq, Eq, Structural)]
pub struct Account {
    pub id: u128,
    pub user_id: u128,
    pub balance_cents: i64,
    pub created_at: Option<i64>,
    pub updated_at: Option<i64>,
}

impl Account {
    /// An account may be persisted only with a balance that is not negative.
    pub open spec fn is_valid(self) -> bool {
        self.balance_cents >= 0
    }

    /// A new, not yet stored account of `user_id`.
    pub fn new(id: u128, user_id: u128, balance_cents: i64) -> (account: Account)
        ensures
            account == (Account { id, user_id, balance_cents, created_at: None, updated_at: None }),
    {
        Account { id, user_id, balance_cents, created_at: None, updated_at: None }
    }
}

} // verus!
