use vstd::prelude::*;

use crate::api::transactions::{TransactionError, TransferValidationErrors};
use crate::application::repository::account_repo;
use crate::application::repository::table::row_index;
use crate::application::repository::transaction_repo;
use crate::application::repository::transaction_repo::new_record;
use crate::application::repository::RepositoryError;
use crate::application::state::AppState;
use crate::domain::account::Account;
use crate::domain::transaction::Transaction;
use crate::infrastructure::clock::now_micros;
use crate::infrastructure::ids::random_uuid;

verus! {

/// Why a transfer did not take place.
#[derive(Debug)]
pub enum TransferError {
    /// The request is not valid; every problem found is listed.
    ValidationErrors(TransferValidationErrors),
    /// The store failed; nothing was written.
    StorageError(RepositoryError),
}

/// The balances that a transfer leaves behind.
#[derive(Clone, Copy, Debug, PartialEq, Eq, Structural)]
pub struct TransferPlan {
    pub source_balance_cents: i64,
    pub destination_balance_cents: i64,
}

/// The two ids with the smaller one first.
pub open spec fn ordered(first: u128, second: u128) -> (u128, u128) {
    if first <= second {
        (first, second)
    } else {
        (second, first)
    }
}

/// The order in which a transfer takes hold of its two accounts: the
/// smaller id first, whichever of the two is the source.
///
/// A store that is shared between transfers must hand out each account
/// to one transfer at a time. Taking the accounts in this order keeps two
/// transfers between the same pair of accounts from waiting for each
/// other.
pub fn lock_order(source_account_id: u128, destination_account_id: u128) -> (order: (u128, u128))
    ensures
        order == ordered(source_account_id, destination_account_id),
{
    if source_account_id <= destination_account_id {
        (source_account_id, destination_account_id)
    } else {
        (destination_account_id, source_account_id)
    }
}

/// Two transfers between the same two accounts take hold of them in the
/// same order, whichever way the money goes.
pub proof fn lemma_lock_order_fixed(first: u128, second: u128)
    ensures
        ordered(first, second) == ordered(second, first),
        ordered(first, second).0 <= ordered(first, second).1,
{
}

/// `[error]` where `found`, else nothing.
pub open spec fn entry_if(found: bool, error: TransactionError) -> Seq<TransactionError> {
    if found {
        seq![error]
    } else {
        Seq::empty()
    }
}

/// The problems that are looked for before any balance is read, each
/// whether or not another was found: the accounts are the same, the
/// source is missing, the destination is missing.
pub open spec fn account_errors(
    source_account_id: u128,
    destination_account_id: u128,
    source_found: bool,
    destination_found: bool,
) -> Seq<TransactionError> {
    entry_if(source_account_id == destination_account_id, TransactionError::AccountsAreSame)
        + entry_if(!source_found, TransactionError::SourceAccountNotFound(source_account_id))
        + entry_if(
        !destination_found,
        TransactionError::DestinationAccountNotFound(destination_account_id),
    )
}

/// The problems for which a transfer is rejected; empty where it is
/// valid. An amount that is not positive is reported alone and before the
/// accounts are looked at; then the problems with the accounts, all of
/// them together; and only where both accounts are there and differ,
/// a source balance below the amount.
pub open spec fn rejection(
    source_account_id: u128,
    destination_account_id: u128,
    amount_cents: i64,
    source: Option<Account>,
    destination: Option<Account>,
) -> Seq<TransactionError> {
    let found = account_errors(
        source_account_id,
        destination_account_id,
        source is Some,
        destination is Some,
    );
    if amount_cents <= 0 {
        seq![TransactionError::InvalidAmount]
    } else if found.len() > 0 {
        found
    } else if source->Some_0.balance_cents < amount_cents {
        seq![TransactionError::InsufficientFunds]
    } else {
        Seq::empty()
    }
}

/// A transfer that is not rejected found both accounts, two different
/// ones, and moves a positive amount that the source can pay.
pub proof fn lemma_not_rejected(
    source_account_id: u128,
    destination_account_id: u128,
    amount_cents: i64,
    source: Option<Account>,
    destination: Option<Account>,
)
    requires
        rejection(source_account_id, destination_account_id, amount_cents, source, destination).len()
            == 0,
    ensures
        amount_cents > 0,
        source_account_id != destination_account_id,
        source is Some,
        destination is Some,
        source->Some_0.balance_cents >= amount_cents,
{
}

/// Decides a transfer from what the store returned for its two accounts.
///
/// A request that is not valid is rejected with every problem found. A
/// valid one whose credit would leave the range of a balance fails with
/// `NumericValueOutOfRange`. Otherwise the plan holds the source balance
/// less the amount and the destination balance plus the amount.
pub fn plan_transfer(
    source_account_id: u128,
    destination_account_id: u128,
    amount_cents: i64,
    source: Option<Account>,
    destination: Option<Account>,
) -> (result: Result<TransferPlan, TransferError>)
    ensures
        ({
            let rejected = rejection(
                source_account_id,
                destination_account_id,
                amount_cents,
                source,
                destination,
            );
            if rejected.len() > 0 {
                result matches Err(TransferError::ValidationErrors(errors)) && errors@ == rejected
            } else if destination->Some_0.balance_cents + amount_cents > i64::MAX {
                result matches Err(TransferError::StorageError(fault)) && fault
                    == RepositoryError::NumericValueOutOfRange
            } else {
                result == Ok::<TransferPlan, TransferError>(
                    TransferPlan {
                        source_balance_cents: (source->Some_0.balance_cents - amount_cents) as i64,
                        destination_balance_cents: (destination->Some_0.balance_cents
                            + amount_cents) as i64,
                    },
                )
            }
        }),
{
    let mut validation_errors = TransferValidationErrors::new();
    if amount_cents <= 0 {
        validation_errors.add(TransactionError::InvalidAmount);
        return Err(TransferError::ValidationErrors(validation_errors));
    }
    if source_account_id == destination_account_id {
        validation_errors.add(TransactionError::AccountsAreSame);
    }
    if source.is_none() {
        validation_errors.add(TransactionError::SourceAccountNotFound(source_account_id));
    }
    if destination.is_none() {
        validation_errors.add(
            TransactionError::DestinationAccountNotFound(destination_account_id),
        );
    }
    assert(validation_errors@ =~= account_errors(
        source_account_id,
        destination_account_id,
        source is Some,
        destination is Some,
    ));
    if validation_errors.has_errors() {
        return Err(TransferError::ValidationErrors(validation_errors));
    }
    let source_account = source.unwrap();
    let destination_account = destination.unwrap();
    if source_account.balance_cents < amount_cents {
        validation_errors.add(TransactionError::InsufficientFunds);
        return Err(TransferError::ValidationErrors(validation_errors));
    }
    match destination_account.balance_cents.checked_add(amount_cents) {
        Some(destination_balance_cents) => Ok(
            TransferPlan {
                source_balance_cents: source_account.balance_cents - amount_cents,
                destination_balance_cents,
            },
        ),
        None => Err(TransferError::StorageError(RepositoryError::NumericValueOutOfRange)),
    }
}

/// What a lookup of `id` among `accounts` hands to the decision.
pub open spec fn found_account(accounts: Map<u128, Account>, id: u128) -> Option<Account> {
    if accounts.contains_key(id) {
        Some(accounts[id])
    } else {
        None
    }
}

/// The problems for which a transfer between accounts of `accounts` is
/// rejected; empty where it is valid.
pub open spec fn rejection_in(
    accounts: Map<u128, Account>,
    source_account_id: u128,
    destination_account_id: u128,
    amount_cents: i64,
) -> Seq<TransactionError> {
    rejection(
        source_account_id,
        destination_account_id,
        amount_cents,
        found_account(accounts, source_account_id),
        found_account(accounts, destination_account_id),
    )
}

/// Why the store refuses a valid transfer, if it does: the credit would
/// leave the range of a balance, or the id of the new record is taken.
pub open spec fn storage_fault(
    state: &AppState,
    destination_account_id: u128,
    amount_cents: i64,
    transaction_id: u128,
) -> Option<RepositoryError> {
    if state.accounts@[destination_account_id].balance_cents + amount_cents > i64::MAX {
        Some(RepositoryError::NumericValueOutOfRange)
    } else if state.transactions@.contains_key(transaction_id) {
        Some(RepositoryError::UniqueViolation)
    } else {
        None
    }
}

/// `account` after `amount_cents` were taken from it at the time `now`.
pub open spec fn debited(account: Account, amount_cents: i64, now: i64) -> Account {
    Account {
        id: account.id,
        user_id: account.user_id,
        balance_cents: (account.balance_cents - amount_cents) as i64,
        created_at: account.created_at,
        updated_at: Some(now),
    }
}

/// `account` after `amount_cents` were added to it at the time `now`.
pub open spec fn credited(account: Account, amount_cents: i64, now: i64) -> Account {
    Account {
        id: account.id,
        user_id: account.user_id,
        balance_cents: (account.balance_cents + amount_cents) as i64,
        created_at: account.created_at,
        updated_at: Some(now),
    }
}

/// The whole effect of one transfer attempt that draws the id
/// `transaction_id` at the time `now`: the state `before`, the state
/// `after` and the `result`.
///
/// A rejected or failed attempt returns its errors and leaves every row
/// as it was. A transfer that takes place debits the source, credits the
/// destination, stamps both rows, appends one record and returns it.
pub open spec fn transfer_post(
    before: &AppState,
    after: &AppState,
    result: Result<Transaction, TransferError>,
    source_account_id: u128,
    destination_account_id: u128,
    amount_cents: i64,
    transaction_id: u128,
    now: i64,
) -> bool {
    let accounts = before.accounts@;
    let rejected = rejection_in(
        accounts,
        source_account_id,
        destination_account_id,
        amount_cents,
    );
    let fault = storage_fault(before, destination_account_id, amount_cents, transaction_id);
    let record = new_record(
        transaction_id,
        source_account_id,
        destination_account_id,
        amount_cents,
        now,
    );
    let source = debited(accounts[source_account_id], amount_cents, now);
    let destination = credited(accounts[destination_account_id], amount_cents, now);
    if rejected.len() > 0 {
        &&& result matches Err(TransferError::ValidationErrors(errors)) && errors@ == rejected
        &&& after.same_rows(before)
    } else if fault is Some {
        &&& result matches Err(TransferError::StorageError(error)) && Some(error) == fault
        &&& after.same_rows(before)
    } else {
        &&& result == Ok::<Transaction, TransferError>(record)
        &&& after.accounts@ == accounts.insert(source_account_id, source).insert(
            destination_account_id,
            destination,
        )
        &&& after.accounts.rows() == before.accounts.rows().update(
            row_index(before.accounts.rows(), source_account_id),
            source,
        ).update(row_index(before.accounts.rows(), destination_account_id), destination)
        &&& after.transactions@ == before.transactions@.insert(transaction_id, record)
        &&& after.transactions.rows() == before.transactions.rows().push(record)
    }
}

/// What a transfer that took place did to the two balances: the source
/// lost exactly the amount, the destination gained exactly the amount,
/// their sum is what it was, and the source is not overdrawn.
pub open spec fn funds_moved(
    before: &AppState,
    after: &AppState,
    source_account_id: u128,
    destination_account_id: u128,
    amount_cents: i64,
) -> bool {
    &&& after.accounts.balance(source_account_id) == before.accounts.balance(source_account_id)
        - amount_cents
    &&& after.accounts.balance(destination_account_id) == before.accounts.balance(
        destination_account_id,
    ) + amount_cents
    &&& after.accounts.balance(source_account_id) + after.accounts.balance(destination_account_id)
        == before.accounts.balance(source_account_id) + before.accounts.balance(
        destination_account_id,
    )
    &&& after.accounts.balance(source_account_id) >= 0
}

/// Debit and credit are exact and funds are conserved: after a transfer
/// that took place, the source balance is the old one less the amount,
/// the destination balance the old one plus the amount, the sum of the
/// two is unchanged, and no other account was touched.
pub proof fn lemma_transfer_moves_funds(
    before: &AppState,
    after: &AppState,
    result: Result<Transaction, TransferError>,
    source_account_id: u128,
    destination_account_id: u128,
    amount_cents: i64,
    transaction_id: u128,
    now: i64,
)
    requires
        before.wf(),
        transfer_post(
            before,
            after,
            result,
            source_account_id,
            destination_account_id,
            amount_cents,
            transaction_id,
            now,
        ),
        result is Ok,
    ensures
        funds_moved(before, after, source_account_id, destination_account_id, amount_cents),
        after.accounts@.dom() == before.accounts@.dom(),
        forall|id: u128|
            id != source_account_id && id != destination_account_id
                && before.accounts@.contains_key(id) ==> #[trigger] after.accounts@[id]
                == before.accounts@[id],
{
    lemma_not_rejected(
        source_account_id,
        destination_account_id,
        amount_cents,
        found_account(before.accounts@, source_account_id),
        found_account(before.accounts@, destination_account_id),
    );
    before.accounts.lemma_accounts_valid(source_account_id);
    before.accounts.lemma_accounts_valid(destination_account_id);
    assert(after.accounts@.dom() =~= before.accounts@.dom());
}

/// No balance is ever negative: a transfer of more than the source holds
/// is rejected with `InsufficientFunds` alone and changes no row, and a
/// transfer that takes place leaves the source at zero or above.
pub proof fn lemma_no_overdraft(
    before: &AppState,
    after: &AppState,
    result: Result<Transaction, TransferError>,
    source_account_id: u128,
    destination_account_id: u128,
    amount_cents: i64,
    transaction_id: u128,
    now: i64,
)
    requires
        before.wf(),
        after.wf(),
        transfer_post(
            before,
            after,
            result,
            source_account_id,
            destination_account_id,
            amount_cents,
            transaction_id,
            now,
        ),
    ensures
        forall|id: u128| #[trigger]
            after.accounts@.contains_key(id) ==> after.accounts.balance(id) >= 0,
        amount_cents > 0 && source_account_id != destination_account_id
            && before.accounts@.contains_key(source_account_id) && before.accounts@.contains_key(
            destination_account_id,
        ) && before.accounts.balance(source_account_id) < amount_cents ==> {
            &&& result matches Err(TransferError::ValidationErrors(errors)) && errors@
                == seq![TransactionError::InsufficientFunds]
            &&& after.same_rows(before)
        },
{
    assert forall|id: u128| #[trigger] after.accounts@.contains_key(id) implies after.accounts.balance(
        id,
    ) >= 0 by {
        after.accounts.lemma_accounts_valid(id);
    }
    if amount_cents > 0 && source_account_id != destination_account_id
        && before.accounts@.contains_key(source_account_id) && before.accounts@.contains_key(
        destination_account_id,
    ) && before.accounts.balance(source_account_id) < amount_cents {
        assert(account_errors(source_account_id, destination_account_id, true, true)
            =~= Seq::<TransactionError>::empty());
    }
}

/// A transfer of the whole balance takes place and leaves the source at
/// zero: where both accounts are there and differ, the amount is
/// positive and equal to the source balance, and the store does not fail.
pub proof fn lemma_exact_balance_transfer(
    before: &AppState,
    after: &AppState,
    result: Result<Transaction, TransferError>,
    source_account_id: u128,
    destination_account_id: u128,
    amount_cents: i64,
    transaction_id: u128,
    now: i64,
)
    requires
        before.wf(),
        transfer_post(
            before,
            after,
            result,
            source_account_id,
            destination_account_id,
            amount_cents,
            transaction_id,
            now,
        ),
        amount_cents > 0,
        source_account_id != destination_account_id,
        before.accounts@.contains_key(source_account_id),
        before.accounts@.contains_key(destination_account_id),
        before.accounts.balance(source_account_id) == amount_cents,
        storage_fault(before, destination_account_id, amount_cents, transaction_id) is None,
    ensures
        result is Ok,
        after.accounts.balance(source_account_id) == 0,
{
    assert(account_errors(source_account_id, destination_account_id, true, true) =~= Seq::<
        TransactionError,
    >::empty());
}

/// A transfer between two accounts that are both missing, and are not
/// the same, is rejected with exactly two entries: one for the source and
/// one for the destination, in this order.
pub proof fn lemma_both_accounts_missing(
    accounts: Map<u128, Account>,
    source_account_id: u128,
    destination_account_id: u128,
    amount_cents: i64,
)
    requires
        amount_cents > 0,
        source_account_id != destination_account_id,
        !accounts.contains_key(source_account_id),
        !accounts.contains_key(destination_account_id),
    ensures
        rejection_in(accounts, source_account_id, destination_account_id, amount_cents) == seq![
            TransactionError::SourceAccountNotFound(source_account_id),
            TransactionError::DestinationAccountNotFound(destination_account_id),
        ],
{
    assert(rejection_in(accounts, source_account_id, destination_account_id, amount_cents) =~= seq![
        TransactionError::SourceAccountNotFound(source_account_id),
        TransactionError::DestinationAccountNotFound(destination_account_id),
    ]);
}

/// A transfer is not idempotent: two transfers with the same source,
/// destination and amount that both take place, one after the other,
/// leave two different records in the ledger and debit the source twice.
pub proof fn lemma_transfer_twice(
    before: &AppState,
    between: &AppState,
    after: &AppState,
    first: Result<Transaction, TransferError>,
    second: Result<Transaction, TransferError>,
    source_account_id: u128,
    destination_account_id: u128,
    amount_cents: i64,
    first_id: u128,
    first_now: i64,
    second_id: u128,
    second_now: i64,
)
    requires
        before.wf(),
        between.wf(),
        transfer_post(
            before,
            between,
            first,
            source_account_id,
            destination_account_id,
            amount_cents,
            first_id,
            first_now,
        ),
        transfer_post(
            between,
            after,
            second,
            source_account_id,
            destination_account_id,
            amount_cents,
            second_id,
            second_now,
        ),
        first is Ok,
        second is Ok,
    ensures
        first->Ok_0.id != second->Ok_0.id,
        first->Ok_0 != second->Ok_0,
        after.transactions@.contains_key(first->Ok_0.id),
        after.transactions@.contains_key(second->Ok_0.id),
        after.transactions@[first->Ok_0.id] == first->Ok_0,
        after.transactions@[second->Ok_0.id] == second->Ok_0,
        !before.transactions@.contains_key(first->Ok_0.id),
        !before.transactions@.contains_key(second->Ok_0.id),
        after.transactions.rows() == before.transactions.rows().push(first->Ok_0).push(
            second->Ok_0,
        ),
        after.accounts.balance(source_account_id) == before.accounts.balance(source_account_id) - 2
            * amount_cents,
        after.accounts.balance(destination_account_id) == before.accounts.balance(
            destination_account_id,
        ) + 2 * amount_cents,
{
    lemma_transfer_moves_funds(
        before,
        between,
        first,
        source_account_id,
        destination_account_id,
        amount_cents,
        first_id,
        first_now,
    );
    lemma_transfer_moves_funds(
        between,
        after,
        second,
        source_account_id,
        destination_account_id,
        amount_cents,
        second_id,
        second_now,
    );
}

/// Moves `amount_cents` from the source to the destination account and
/// records the movement under the id `transaction_id` at the time `now`,
/// all of it or nothing.
pub fn transfer_at(
    source_account_id: u128,
    destination_account_id: u128,
    amount_cents: i64,
    transaction_id: u128,
    now: i64,
    state: &mut AppState,
) -> (result: Result<Transaction, TransferError>)
    ensures
        transfer_post(
            old(state),
            final(state),
            result,
            source_account_id,
            destination_account_id,
            amount_cents,
            transaction_id,
            now,
        ),
        result is Ok ==> funds_moved(
            old(state),
            final(state),
            source_account_id,
            destination_account_id,
            amount_cents,
        ),
        result is Err ==> final(state).same_rows(old(state)),
{
    proof {
        use_type_invariant(&state.accounts);
        use_type_invariant(&state.transactions);
    }
    // Find both accounts, whether or not the first is there.
    let source = match account_repo::get_by_id(source_account_id, &state.accounts) {
        Ok(account) => Some(account),
        Err(_) => None,
    };
    let destination = match account_repo::get_by_id(destination_account_id, &state.accounts) {
        Ok(account) => Some(account),
        Err(_) => None,
    };
    let plan = match plan_transfer(
        source_account_id,
        destination_account_id,
        amount_cents,
        source,
        destination,
    ) {
        Ok(plan) => plan,
        Err(error) => {
            return Err(error);
        },
    };
    if state.transactions.contains(transaction_id) {
        return Err(TransferError::StorageError(RepositoryError::UniqueViolation));
    }
    proof {
        lemma_not_rejected(
            source_account_id,
            destination_account_id,
            amount_cents,
            source,
            destination,
        );
        old(state).accounts.lemma_accounts_valid(source_account_id);
        old(state).accounts.lemma_accounts_valid(destination_account_id);
    }
    let source_account = source.unwrap();
    let destination_account = destination.unwrap();

    // Transfer money and update both accounts.
    let source_row = Account {
        id: source_account.id,
        user_id: source_account.user_id,
        balance_cents: plan.source_balance_cents,
        created_at: source_account.created_at,
        updated_at: source_account.updated_at,
    };
    match account_repo::update_at(source_row, now, &mut state.accounts) {
        Ok(_) => {},
        Err(fault) => {
            // Never taken: the row is there and its new balance is not negative.
            assert(false);
            return Err(TransferError::StorageError(fault));
        },
    }
    let destination_row = Account {
        id: destination_account.id,
        user_id: destination_account.user_id,
        balance_cents: plan.destination_balance_cents,
        created_at: destination_account.created_at,
        updated_at: destination_account.updated_at,
    };
    match account_repo::update_at(destination_row, now, &mut state.accounts) {
        Ok(_) => {},
        Err(fault) => {
            // Never taken: the row is there and its new balance is not negative.
            assert(false);
            return Err(TransferError::StorageError(fault));
        },
    }

    // Add the transaction.
    let record = Transaction {
        id: transaction_id,
        source_account_id,
        destination_account_id,
        amount_cents,
        created_at: Some(now),
    };
    match transaction_repo::add_record(record, &mut state.transactions) {
        Ok(transaction) => Ok(transaction),
        Err(fault) => {
            // Never taken: the id is free and the record is valid.
            assert(false);
            Err(TransferError::StorageError(fault))
        },
    }
}

/// Moves `amount_cents` from the source to the destination account and
/// records the movement, all of it or nothing.
///
/// The record gets a freshly drawn id and the current time: the call does
/// what `transfer_at` does for some id and some time that is not before
/// the epoch. Two calls with the same arguments are two transfers.
///
/// The state is borrowed for the whole transfer, so no other transfer
/// can read a balance between the check and the write. A transfer is
/// attempted once: whatever the store refuses comes back as a
/// `StorageError`, and trying again is up to the caller.
pub fn transfer(
    source_account_id: u128,
    destination_account_id: u128,
    amount_cents: i64,
    state: &mut AppState,
) -> (result: Result<Transaction, TransferError>)
    ensures
        exists|transaction_id: u128, now: i64|
            now >= 0 && #[trigger] transfer_post(
                old(state),
                final(state),
                result,
                source_account_id,
                destination_account_id,
                amount_cents,
                transaction_id,
                now,
            ),
        result is Ok ==> funds_moved(
            old(state),
            final(state),
            source_account_id,
            destination_account_id,
            amount_cents,
        ),
        result is Err ==> final(state).same_rows(old(state)),
        rejection_in(
            old(state).accounts@,
            source_account_id,
            destination_account_id,
            amount_cents,
        ).len() > 0 ==> (result matches Err(TransferError::ValidationErrors(errors)) && errors@
            == rejection_in(
            old(state).accounts@,
            source_account_id,
            destination_account_id,
            amount_cents,
        )),
        result matches Err(TransferError::ValidationErrors(errors)) ==> errors@ == rejection_in(
            old(state).accounts@,
            source_account_id,
            destination_account_id,
            amount_cents,
        ) && errors@.len() > 0,
{
    let transaction_id = random_uuid();
    let now = now_micros();
    transfer_at(
        source_account_id,
        destination_account_id,
        amount_cents,
        transaction_id,
        now,
        state,
    )
}

} // verus!
