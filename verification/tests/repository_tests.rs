use axum_web::application::repository::account_repo;
use axum_web::application::repository::account_repo::AccountStore;
use axum_web::application::repository::transaction_repo;
use axum_web::application::repository::transaction_repo::TransactionLedger;
use axum_web::application::repository::RepositoryError;
use axum_web::domain::account::Account;
use axum_web::domain::transaction::Transaction;

fn stored(id: u128, user_id: u128, balance_cents: i64, created_at: i64, updated_at: i64) -> Account {
    Account {
        id,
        user_id,
        balance_cents,
        created_at: Some(created_at),
        updated_at: Some(updated_at),
    }
}

#[test]
fn new_account_has_no_timestamps() {
    let account = Account::new(3, 4, 5);
    assert_eq!(
        account,
        Account { id: 3, user_id: 4, balance_cents: 5, created_at: None, updated_at: None }
    );
}

#[test]
fn empty_store_lists_nothing() {
    let store = AccountStore::new();
    assert!(account_repo::list(&store).is_empty());
    assert_eq!(account_repo::get_by_id(1, &store), Err(RepositoryError::RowNotFound));
}

#[test]
fn add_at_stamps_both_timestamps() {
    let mut store = AccountStore::new();
    let row = account_repo::add_at(Account::new(1, 10, 100), 42, &mut store).unwrap();
    assert_eq!(row, stored(1, 10, 100, 42, 42));
    assert_eq!(account_repo::get_by_id(1, &store), Ok(row));
    assert_eq!(account_repo::list(&store), vec![row]);
}

#[test]
fn add_at_overwrites_given_timestamps() {
    let mut store = AccountStore::new();
    let row = account_repo::add_at(stored(1, 10, 100, 7, 8), 42, &mut store).unwrap();
    assert_eq!(row, stored(1, 10, 100, 42, 42));
}

#[test]
fn add_refuses_a_taken_id() {
    let mut store = AccountStore::new();
    account_repo::add_at(Account::new(1, 10, 100), 42, &mut store).unwrap();
    let again = account_repo::add_at(Account::new(1, 11, 5), 43, &mut store);
    assert_eq!(again, Err(RepositoryError::UniqueViolation));
    assert_eq!(account_repo::list(&store), vec![stored(1, 10, 100, 42, 42)]);
}

#[test]
fn add_refuses_a_negative_balance() {
    let mut store = AccountStore::new();
    let result = account_repo::add_at(Account::new(1, 10, -1), 42, &mut store);
    assert_eq!(result, Err(RepositoryError::CheckViolation));
    assert!(account_repo::list(&store).is_empty());
    assert!(account_repo::add_at(Account::new(1, 10, 0), 42, &mut store).is_ok());
}

#[test]
fn a_taken_id_is_reported_before_a_negative_balance() {
    let mut store = AccountStore::new();
    account_repo::add_at(Account::new(1, 10, 100), 42, &mut store).unwrap();
    let result = account_repo::add_at(Account::new(1, 10, -1), 42, &mut store);
    assert_eq!(result, Err(RepositoryError::UniqueViolation));
}

#[test]
fn add_uses_the_clock() {
    let mut store = AccountStore::new();
    let row = account_repo::add(Account::new(1, 10, 100), &mut store).unwrap();
    assert_eq!(row.id, 1);
    assert_eq!(row.user_id, 10);
    assert_eq!(row.balance_cents, 100);
    assert!(row.created_at.is_some());
    assert_eq!(row.created_at, row.updated_at);
    // Later than the first of January 2020, in microseconds.
    assert!(row.created_at.unwrap() > 1_577_836_800_000_000);
}

#[test]
fn load_row_keeps_the_timestamps() {
    let mut store = AccountStore::new();
    let row = stored(1, 10, 100, 7, 8);
    assert_eq!(account_repo::load_row(row, &mut store), Ok(row));
    assert_eq!(account_repo::load_row(row, &mut store), Err(RepositoryError::UniqueViolation));
    assert_eq!(
        account_repo::load_row(stored(2, 10, -3, 7, 8), &mut store),
        Err(RepositoryError::CheckViolation)
    );
    assert_eq!(account_repo::list(&store), vec![row]);
}

#[test]
fn update_at_writes_owner_and_balance_and_keeps_the_time_of_creation() {
    let mut store = AccountStore::new();
    account_repo::add_at(Account::new(1, 10, 100), 42, &mut store).unwrap();
    account_repo::add_at(Account::new(2, 20, 200), 43, &mut store).unwrap();
    let change = stored(1, 11, 150, 1, 2);
    let row = account_repo::update_at(change, 50, &mut store).unwrap();
    assert_eq!(row, stored(1, 11, 150, 42, 50));
    assert_eq!(
        account_repo::list(&store),
        vec![stored(1, 11, 150, 42, 50), stored(2, 20, 200, 43, 43)]
    );
}

#[test]
fn update_refuses_a_missing_row_and_a_negative_balance() {
    let mut store = AccountStore::new();
    account_repo::add_at(Account::new(1, 10, 100), 42, &mut store).unwrap();
    assert_eq!(
        account_repo::update_at(Account::new(9, 10, 100), 50, &mut store),
        Err(RepositoryError::RowNotFound)
    );
    assert_eq!(
        account_repo::update_at(Account::new(9, 10, -100), 50, &mut store),
        Err(RepositoryError::RowNotFound)
    );
    assert_eq!(
        account_repo::update_at(Account::new(1, 10, -100), 50, &mut store),
        Err(RepositoryError::CheckViolation)
    );
    assert_eq!(account_repo::list(&store), vec![stored(1, 10, 100, 42, 42)]);
}

#[test]
fn update_uses_the_clock() {
    let mut store = AccountStore::new();
    account_repo::add_at(Account::new(1, 10, 100), 42, &mut store).unwrap();
    let row = account_repo::update(Account::new(1, 10, 60), &mut store).unwrap();
    assert_eq!(row.balance_cents, 60);
    assert_eq!(row.created_at, Some(42));
    assert!(row.updated_at.unwrap() > 1_577_836_800_000_000);
}

#[test]
fn get_by_user_id_keeps_the_order() {
    let mut store = AccountStore::new();
    account_repo::add_at(Account::new(1, 10, 100), 1, &mut store).unwrap();
    account_repo::add_at(Account::new(2, 20, 200), 2, &mut store).unwrap();
    account_repo::add_at(Account::new(3, 10, 300), 3, &mut store).unwrap();
    assert_eq!(
        account_repo::get_by_user_id(10, &store),
        vec![stored(1, 10, 100, 1, 1), stored(3, 10, 300, 3, 3)]
    );
    assert_eq!(account_repo::get_by_user_id(20, &store), vec![stored(2, 20, 200, 2, 2)]);
    assert!(account_repo::get_by_user_id(30, &store).is_empty());
}

#[test]
fn delete_removes_one_row() {
    let mut store = AccountStore::new();
    account_repo::add_at(Account::new(1, 10, 100), 1, &mut store).unwrap();
    account_repo::add_at(Account::new(2, 20, 200), 2, &mut store).unwrap();
    account_repo::add_at(Account::new(3, 10, 300), 3, &mut store).unwrap();
    assert_eq!(account_repo::delete(2, &mut store), Ok(true));
    assert_eq!(account_repo::delete(2, &mut store), Ok(false));
    assert_eq!(
        account_repo::list(&store),
        vec![stored(1, 10, 100, 1, 1), stored(3, 10, 300, 3, 3)]
    );
    assert_eq!(account_repo::get_by_id(2, &store), Err(RepositoryError::RowNotFound));
    assert!(account_repo::add_at(Account::new(2, 20, 5), 9, &mut store).is_ok());
}

fn record(id: u128, amount_cents: i64) -> Transaction {
    Transaction {
        id,
        source_account_id: 1,
        destination_account_id: 2,
        amount_cents,
        created_at: Some(11),
    }
}

#[test]
fn ledger_appends_and_finds_records() {
    let mut ledger = TransactionLedger::new();
    assert!(!ledger.contains(5));
    assert_eq!(transaction_repo::get_by_id(5, &ledger), Err(RepositoryError::RowNotFound));
    assert_eq!(transaction_repo::add_record(record(5, 25), &mut ledger), Ok(record(5, 25)));
    assert_eq!(transaction_repo::add_record(record(6, 30), &mut ledger), Ok(record(6, 30)));
    assert!(ledger.contains(5));
    assert_eq!(transaction_repo::get_by_id(5, &ledger), Ok(record(5, 25)));
    assert_eq!(transaction_repo::get_by_id(6, &ledger), Ok(record(6, 30)));
    assert_eq!(transaction_repo::list(&ledger), vec![record(5, 25), record(6, 30)]);
}

#[test]
fn ledger_never_changes_a_record() {
    let mut ledger = TransactionLedger::new();
    transaction_repo::add_record(record(5, 25), &mut ledger).unwrap();
    assert_eq!(
        transaction_repo::add_record(record(5, 99), &mut ledger),
        Err(RepositoryError::UniqueViolation)
    );
    assert_eq!(transaction_repo::get_by_id(5, &ledger), Ok(record(5, 25)));
    assert_eq!(transaction_repo::list(&ledger), vec![record(5, 25)]);
}

#[test]
fn ledger_refuses_records_that_are_not_valid() {
    let mut ledger = TransactionLedger::new();
    assert_eq!(
        transaction_repo::add_record(record(5, 0), &mut ledger),
        Err(RepositoryError::CheckViolation)
    );
    assert_eq!(
        transaction_repo::add_record(record(5, -1), &mut ledger),
        Err(RepositoryError::CheckViolation)
    );
    let to_itself = Transaction {
        id: 5,
        source_account_id: 1,
        destination_account_id: 1,
        amount_cents: 10,
        created_at: None,
    };
    assert_eq!(
        transaction_repo::add_record(to_itself, &mut ledger),
        Err(RepositoryError::CheckViolation)
    );
    assert!(transaction_repo::list(&ledger).is_empty());
}

#[test]
fn ledger_add_draws_an_id_and_reads_the_clock() {
    let mut ledger = TransactionLedger::new();
    let first = transaction_repo::add(1, 2, 25, &mut ledger).unwrap();
    let second = transaction_repo::add(1, 2, 25, &mut ledger).unwrap();
    assert_eq!(first.source_account_id, 1);
    assert_eq!(first.destination_account_id, 2);
    assert_eq!(first.amount_cents, 25);
    assert!(first.created_at.unwrap() > 1_577_836_800_000_000);
    assert_ne!(first.id, second.id);
    // A version 4 UUID of the RFC variant.
    assert_eq!((first.id >> 76) & 0xf, 4);
    assert_eq!((first.id >> 62) & 0x3, 2);
    assert_eq!(transaction_repo::list(&ledger), vec![first, second]);
    assert_eq!(
        transaction_repo::add(1, 1, 25, &mut ledger),
        Err(RepositoryError::CheckViolation)
    );
}

#[test]
fn repository_errors_have_messages() {
    assert_eq!(
        RepositoryError::RowNotFound.to_string(),
        "no rows returned by a query that expected to return at least one row"
    );
    assert_eq!(
        RepositoryError::UniqueViolation.to_string(),
        "duplicate key value violates unique constraint"
    );
    assert_eq!(RepositoryError::CheckViolation.to_string(), "new row violates check constraint");
    assert_eq!(RepositoryError::NumericValueOutOfRange.to_string(), "bigint out of range");
    assert_eq!(RepositoryError::Unavailable.to_string(), "the store is unavailable");
    assert_eq!(RepositoryError::Unavailable.status_code(), 500);
    assert_eq!(RepositoryError::RowNotFound.status_code(), 404);
    assert_eq!(RepositoryError::UniqueViolation.status_code(), 500);
    assert_eq!(RepositoryError::CheckViolation.status_code(), 500);
    assert_eq!(RepositoryError::NumericValueOutOfRange.status_code(), 500);
}
