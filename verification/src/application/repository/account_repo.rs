use vstd::prelude::*;

use crate::application::repository::table::{
    distinct_ids, has_row, lemma_table_entry, lemma_table_push, lemma_table_remove,
    lemma_table_row, lemma_table_update, position, row_index, table, Keyed,
};
use crate::application::repository::{RepositoryError, RepositoryResult};
use crate::domain::account::Account;
use crate::infrastructure::clock::now_micros;

verus! {

impl Keyed for Account {
    open spec fn key(&self) -> u128 {
        self.id
    }

    fn row_id(&self) -> (id: u128) {
        self.id
    }
}

/// The rows a store may hold: ids are unique and no balance is negative.
pub open spec fn valid_rows(rows: Seq<Account>) -> bool {
    &&& distinct_ids(rows)
    &&& forall|i: int| 0 <= i < rows.len() ==> (#[trigger] rows[i]).is_valid()
}

/// The `accounts` table.
pub struct AccountStore {
    rows: Vec<Account>,
}

impl View for AccountStore {
    type V = Map<u128, Account>;

    /// The accounts by id.
    open spec fn view(&self) -> Map<u128, Account> {
        table(self.rows())
    }
}

impl AccountStore {
    /// The rows in the order in which they were added.
    pub closed spec fn rows(&self) -> Seq<Account> {
        self.rows@
    }

    /// The store holds each id once and no negative balance. This holds
    /// of every store at all times.
    #[verifier::type_invariant]
    pub open spec fn wf(&self) -> bool {
        valid_rows(self.rows())
    }

    /// The balance of the account `id`.
    pub open spec fn balance(&self, id: u128) -> int {
        self@[id].balance_cents as int
    }

    /// An empty table.
    pub fn new() -> (store: AccountStore)
        ensures
            store.rows() == Seq::<Account>::empty(),
            store@ == Map::<u128, Account>::empty(),
    {
        let store = AccountStore { rows: Vec::new() };
        assert(store@ =~= Map::<u128, Account>::empty());
        store
    }

    /// Every account of a well-formed store is stored under its own id
    /// and has a balance that is not negative.
    pub proof fn lemma_accounts_valid(&self, id: u128)
        requires
            self.wf(),
            self@.contains_key(id),
        ensures
            self@[id].id == id,
            self@[id].balance_cents >= 0,
    {
        lemma_table_entry(self.rows(), id);
    }

    /// The position of the row with the id `id`.
    fn position(&self, id: u128) -> (found: Option<usize>)
        ensures
            match found {
                Some(i) => i < self.rows().len() && self.rows()[i as int].id == id
                    && row_index(self.rows(), id) == i && self@.contains_key(id),
                None => !has_row(self.rows(), id) && !self@.contains_key(id),
            },
    {
        proof {
            use_type_invariant(self);
        }
        position(&self.rows, id)
    }
}

/// All accounts, in the order in which they were added.
pub fn list(store: &AccountStore) -> (accounts: Vec<Account>)
    ensures
        accounts@ == store.rows(),
{
    store.rows.clone()
}

/// What taking the row `account` into the accounts `before` returns: the
/// row, `UniqueViolation` where its id is taken, or `CheckViolation`
/// where its balance is negative.
pub open spec fn load_outcome(before: Map<u128, Account>, account: Account) -> RepositoryResult<
    Account,
> {
    if before.contains_key(account.id) {
        Err(RepositoryError::UniqueViolation)
    } else if account.balance_cents < 0 {
        Err(RepositoryError::CheckViolation)
    } else {
        Ok(account)
    }
}

/// Takes a row that was stored before into the store as it is, its
/// timestamps included. Where that fails the store is unchanged.
pub fn load_row(account: Account, store: &mut AccountStore) -> (result: RepositoryResult<Account>)
    ensures
        result == load_outcome(old(store)@, account),
        result is Err ==> final(store).rows() == old(store).rows(),
        result is Ok ==> final(store).rows() == old(store).rows().push(account),
        result is Ok ==> final(store)@ == old(store)@.insert(account.id, account),
{
    if store.position(account.id).is_some() {
        return Err(RepositoryError::UniqueViolation);
    }
    if account.balance_cents < 0 {
        return Err(RepositoryError::CheckViolation);
    }
    proof {
        use_type_invariant(&*store);
        lemma_table_push(store.rows(), account);
    }
    let mut rows = Vec::new();
    std::mem::swap(&mut rows, &mut store.rows);
    rows.push(account);
    store.rows = rows;
    Ok(account)
}

/// The row that is stored for the new `account` at the time `now`.
pub open spec fn stored_account(account: Account, now: i64) -> Account {
    Account {
        id: account.id,
        user_id: account.user_id,
        balance_cents: account.balance_cents,
        created_at: Some(now),
        updated_at: Some(now),
    }
}

/// What adding `account` at the time `now` to the accounts `before`
/// returns: the stored row, `UniqueViolation` where the id is taken, or
/// `CheckViolation` where the balance is negative.
pub open spec fn add_outcome(before: Map<u128, Account>, account: Account, now: i64)
    -> RepositoryResult<Account> {
    if before.contains_key(account.id) {
        Err(RepositoryError::UniqueViolation)
    } else if account.balance_cents < 0 {
        Err(RepositoryError::CheckViolation)
    } else {
        Ok(stored_account(account, now))
    }
}

/// Stores `account` as a new row whose two timestamps are `now`.
/// Where that fails the store is unchanged.
pub fn add_at(account: Account, now: i64, store: &mut AccountStore) -> (result: RepositoryResult<
    Account,
>)
    ensures
        result == add_outcome(old(store)@, account, now),
        result is Err ==> final(store).rows() == old(store).rows(),
        result matches Ok(stored) ==> {
            &&& final(store).rows() == old(store).rows().push(stored)
            &&& final(store)@ == old(store)@.insert(account.id, stored)
        },
{
    if store.position(account.id).is_some() {
        return Err(RepositoryError::UniqueViolation);
    }
    if account.balance_cents < 0 {
        return Err(RepositoryError::CheckViolation);
    }
    let stored = Account {
        id: account.id,
        user_id: account.user_id,
        balance_cents: account.balance_cents,
        created_at: Some(now),
        updated_at: Some(now),
    };
    proof {
        use_type_invariant(&*store);
        lemma_table_push(store.rows(), stored);
    }
    let mut rows = Vec::new();
    std::mem::swap(&mut rows, &mut store.rows);
    rows.push(stored);
    store.rows = rows;
    Ok(stored)
}

/// Stores `account` as a new row, stamped with the current time: what
/// `add_at` does at some time that is not before the epoch.
pub fn add(account: Account, store: &mut AccountStore) -> (result: RepositoryResult<Account>)
    ensures
        exists|now: i64| now >= 0 && result == add_outcome(old(store)@, account, now),
        result is Err ==> final(store).rows() == old(store).rows(),
        result matches Ok(stored) ==> {
            &&& final(store).rows() == old(store).rows().push(stored)
            &&& final(store)@ == old(store)@.insert(account.id, stored)
        },
{
    let now = now_micros();
    add_at(account, now, store)
}

/// What looking up `id` among `accounts` returns.
pub open spec fn get_outcome(accounts: Map<u128, Account>, id: u128) -> RepositoryResult<Account> {
    if accounts.contains_key(id) {
        Ok(accounts[id])
    } else {
        Err(RepositoryError::RowNotFound)
    }
}

/// The account with the id `id`, or `RowNotFound`.
pub fn get_by_id(id: u128, store: &AccountStore) -> (result: RepositoryResult<Account>)
    ensures
        result == get_outcome(store@, id),
{
    match store.position(id) {
        Some(i) => {
            proof {
                use_type_invariant(store);
                lemma_table_row(store.rows(), i as int);
            }
            Ok(store.rows[i])
        },
        None => Err(RepositoryError::RowNotFound),
    }
}

/// The accounts of the user `user_id`, in the order in which they were
/// added.
pub fn get_by_user_id(user_id: u128, store: &AccountStore) -> (accounts: Vec<Account>)
    ensures
        accounts@ == store.rows().filter(|account: Account| account.user_id == user_id),
{
    let ghost owned = |account: Account| account.user_id == user_id;
    let mut accounts: Vec<Account> = Vec::new();
    let mut i: usize = 0;
    assert(store.rows@.take(0) =~= Seq::<Account>::empty());
    while i < store.rows.len()
        invariant
            i <= store.rows.len(),
            owned == |account: Account| account.user_id == user_id,
            accounts@ == store.rows@.take(i as int).filter(owned),
        decreases store.rows.len() - i,
    {
        let account = store.rows[i];
        proof {
            let before = store.rows@.take(i as int);
            assert(store.rows@.take(i + 1) =~= before + seq![account]);
            Seq::filter_distributes_over_add(before, seq![account], owned);
            reveal_with_fuel(Seq::filter, 2);
            assert(seq![account].drop_last() =~= Seq::<Account>::empty());
        }
        if account.user_id == user_id {
            accounts.push(account);
        }
        i += 1;
    }
    assert(store.rows@.take(i as int) =~= store.rows@);
    accounts
}

/// The row that replaces `before` when `account` is written over it at
/// the time `now`: owner and balance are those of `account`, the time of
/// creation stays.
pub open spec fn updated_account(before: Account, account: Account, now: i64) -> Account {
    Account {
        id: before.id,
        user_id: account.user_id,
        balance_cents: account.balance_cents,
        created_at: before.created_at,
        updated_at: Some(now),
    }
}

/// What writing `account` at the time `now` over its row among `before`
/// returns: the new row, `RowNotFound` where the id has no row, or
/// `CheckViolation` where the balance is negative.
pub open spec fn update_outcome(before: Map<u128, Account>, account: Account, now: i64)
    -> RepositoryResult<Account> {
    if !before.contains_key(account.id) {
        Err(RepositoryError::RowNotFound)
    } else if account.balance_cents < 0 {
        Err(RepositoryError::CheckViolation)
    } else {
        Ok(updated_account(before[account.id], account, now))
    }
}

/// Writes owner and balance of `account` over the row with its id and
/// sets the row's time of update to `now`. Where that fails the store is
/// unchanged.
pub fn update_at(account: Account, now: i64, store: &mut AccountStore) -> (result:
    RepositoryResult<Account>)
    ensures
        result == update_outcome(old(store)@, account, now),
        result is Err ==> final(store).rows() == old(store).rows(),
        result matches Ok(stored) ==> {
            &&& final(store).rows() == old(store).rows().update(
                row_index(old(store).rows(), account.id),
                stored,
            )
            &&& final(store)@ == old(store)@.insert(account.id, stored)
        },
{
    let i = match store.position(account.id) {
        Some(i) => i,
        None => {
            return Err(RepositoryError::RowNotFound);
        },
    };
    if account.balance_cents < 0 {
        return Err(RepositoryError::CheckViolation);
    }
    let before = store.rows[i];
    let stored = Account {
        id: before.id,
        user_id: account.user_id,
        balance_cents: account.balance_cents,
        created_at: before.created_at,
        updated_at: Some(now),
    };
    proof {
        use_type_invariant(&*store);
        lemma_table_row(store.rows(), i as int);
        lemma_table_update(store.rows(), i as int, stored);
    }
    let mut rows = Vec::new();
    std::mem::swap(&mut rows, &mut store.rows);
    rows.set(i, stored);
    store.rows = rows;
    Ok(stored)
}

/// Writes `account` over the row with its id, stamped with the current
/// time: what `update_at` does at some time that is not before the epoch.
pub fn update(account: Account, store: &mut AccountStore) -> (result: RepositoryResult<Account>)
    ensures
        exists|now: i64| now >= 0 && result == update_outcome(old(store)@, account, now),
        result is Err ==> final(store).rows() == old(store).rows(),
        result matches Ok(stored) ==> {
            &&& final(store).rows() == old(store).rows().update(
                row_index(old(store).rows(), account.id),
                stored,
            )
            &&& final(store)@ == old(store)@.insert(account.id, stored)
        },
{
    let now = now_micros();
    update_at(account, now, store)
}

/// Removes the account with the id `id` and says whether there was one.
pub fn delete(id: u128, store: &mut AccountStore) -> (result: RepositoryResult<bool>)
    ensures
        result == Ok::<bool, RepositoryError>(old(store)@.contains_key(id)),
        final(store)@ == old(store)@.remove(id),
        !old(store)@.contains_key(id) ==> final(store).rows() == old(store).rows(),
        old(store)@.contains_key(id) ==> final(store).rows() == old(store).rows().remove(
            row_index(old(store).rows(), id),
        ),
{
    match store.position(id) {
        Some(i) => {
            proof {
                use_type_invariant(&*store);
                lemma_table_remove(store.rows(), i as int);
            }
            let mut rows = Vec::new();
            std::mem::swap(&mut rows, &mut store.rows);
            rows.remove(i);
            store.rows = rows;
            Ok(true)
        },
        None => {
            assert(store@.remove(id) =~= store@);
            Ok(false)
        },
    }
}

} // verus!
