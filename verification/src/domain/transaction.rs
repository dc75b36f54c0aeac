use vstd::prelude::*;

verus! {

/// The immutable record of one completed transfer.
#[derive(Clone, Copy, Debug, PartialEq, Eq, Structural)]
pub struct Transaction {
    pub id: u128,
    pub source_account_id: u128,
    pub destination_account_id: u128,
    pub amount_cents: i64,
    pub created_at: Option<i64>,
}

impl Transaction {
    /// A transfer moves a strictly positive amount between two different accounts.
    pub open spec fn is_valid(self) -> bool {
        &&& self.amount_cents > 0
        &&& self.source_account_id != self.destination_account_id
    }
}

} // verus!
