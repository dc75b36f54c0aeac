use vstd::prelude::*;

use crate::application::repository::account_repo::AccountStore;
use crate::application::repository::transaction_repo::TransactionLedger;

verus! {

/// The rows that one unit of work reads and writes: the accounts and the
/// ledger of transactions.
pub struct AppState {
    pub accounts: AccountStore,
    pub transactions: TransactionLedger,
}

impl AppState {
    /// Both tables are well formed, as the tables of every state are.
    pub open spec fn wf(&self) -> bool {
        self.accounts.wf() && self.transactions.wf()
    }

    /// Both tables hold the rows that those of `other` hold.
    pub open spec fn same_rows(&self, other: &AppState) -> bool {
        &&& self.accounts.rows() == other.accounts.rows()
        &&& self.transactions.rows() == other.transactions.rows()
    }

    /// A state without accounts and without transactions.
    pub fn new() -> (state: AppState)
        ensures
            state.accounts@ == Map::<u128, crate::domain::account::Account>::empty(),
            state.transactions@ == Map::<u128, crate::domain::transaction::Transaction>::empty(),
    {
        AppState { accounts: AccountStore::new(), transactions: TransactionLedger::new() }
    }
}

} // verus!
