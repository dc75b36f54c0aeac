use axum_web::api::accounts::{
    add_account_handler, delete_account_handler, get_account_handler, list_accounts_handler,
    update_account_handler,
};
use axum_web::api::api_error::ApiErrorEntry;
use axum_web::api::api_version::ApiVersion;
use axum_web::api::transactions::{
    get_transaction_handler, transfer_handler, TransactionError, TransferOrder,
};
use axum_web::application::security::jwt_claims::AccessClaims;
use axum_web::application::state::AppState;
use axum_web::domain::account::Account;

fn claims(roles: &str) -> AccessClaims {
    AccessClaims {
        sub: "00000000-0000-0000-0000-00000000000a".to_string(),
        jti: "00000000-0000-0000-0000-00000000000b".to_string(),
        iat: 1_700_000_000,
        exp: 1_700_003_600,
        typ: 0,
        roles: roles.to_string(),
    }
}

fn admin() -> AccessClaims {
    claims("admin")
}

fn new_id() -> u128 {
    uuid::Uuid::new_v4().as_u128()
}

fn id_text(id: u128) -> String {
    uuid::Uuid::from_u128(id).to_string()
}

fn detail_of(entry: &ApiErrorEntry) -> Option<(String, String)> {
    entry.detail.as_ref().map(|detail| (detail.name.clone(), detail.value.clone()))
}

fn order(source_account_id: u128, destination_account_id: u128, amount_cents: i64) -> TransferOrder {
    TransferOrder { source_account_id, destination_account_id, amount_cents }
}

fn wait_for_the_clock(since: Option<i64>) {
    while Some(chrono::Utc::now().timestamp_micros()) <= since {
        std::hint::spin_loop();
    }
}

fn open_account(state: &mut AppState, balance_cents: i64) -> Account {
    let account = Account::new(new_id(), new_id(), balance_cents);
    let (status, stored) = add_account_handler(ApiVersion::V1, &admin(), state, account).unwrap();
    assert_eq!(status, 201);
    stored
}

#[test]
fn account_handlers_turn_away_a_caller_who_is_no_administrator() {
    let mut state = AppState::new();
    let account = Account::new(new_id(), new_id(), 0);
    let wrong = claims("xyz");

    let result = get_account_handler(&wrong, "v1", account.id, &state);
    assert_eq!(result.unwrap_err().status, 401);

    let result = add_account_handler(ApiVersion::V1, &wrong, &mut state, account);
    assert_eq!(result.unwrap_err().status, 401);

    let result = update_account_handler(&wrong, "v1", &mut state, account);
    assert_eq!(result.unwrap_err().status, 401);

    let result = list_accounts_handler(ApiVersion::V1, &wrong, &state);
    assert_eq!(result.unwrap_err().status, 401);

    let result = delete_account_handler(&wrong, "v1", account.id, &mut state);
    assert_eq!(result.unwrap_err().status, 401);

    assert!(list_accounts_handler(ApiVersion::V1, &admin(), &state).unwrap().is_empty());
}

#[test]
fn account_test() {
    let mut state = AppState::new();
    let access_claims = admin();

    let mut account = Account::new(new_id(), new_id(), 0);

    // Test for non existence of account.
    let result = get_account_handler(&access_claims, "v1", account.id, &state);
    assert_eq!(result.unwrap_err().status, 404);

    // Add a new account.
    let (status, account_added) =
        add_account_handler(ApiVersion::V1, &access_claims, &mut state, account).unwrap();
    assert_eq!(status, 201);
    assert!(account_added.updated_at.is_some());
    assert!(account_added.created_at.is_some());
    account.created_at = account_added.created_at;
    account.updated_at = account_added.updated_at;
    assert_eq!(account_added, account);

    // Fetch the added account.
    let account_fetched = get_account_handler(&access_claims, "v1", account.id, &state).unwrap();
    assert_eq!(account_fetched, account_added);

    // list existing accounts.
    let accounts = list_accounts_handler(ApiVersion::V1, &access_claims, &state).unwrap();
    assert!(accounts.contains(&account));

    // Update account, once the clock has moved on.
    wait_for_the_clock(account.updated_at);
    account.balance_cents = 100;
    let account_updated =
        update_account_handler(&access_claims, "v1", &mut state, account).unwrap();
    assert_ne!(account_updated.updated_at, account.updated_at);
    account.updated_at = account_updated.updated_at;
    assert_eq!(account_updated, account);

    // Delete the account.
    assert_eq!(delete_account_handler(&access_claims, "v1", account.id, &mut state).unwrap(), 200);
    let again = delete_account_handler(&access_claims, "v1", account.id, &mut state).unwrap_err();
    assert_eq!(again.status, 404);
    assert!(again.errors.is_empty());
}

#[test]
fn account_handlers_report_what_the_store_refuses() {
    let mut state = AppState::new();
    let access_claims = admin();
    let account = open_account(&mut state, 10);

    let missing = get_account_handler(&access_claims, "v1", new_id(), &state).unwrap_err();
    assert_eq!(missing.status, 404);
    assert_eq!(missing.errors.len(), 1);
    assert!(missing.errors[0].message.contains("no rows returned"));
    assert_eq!(missing.errors[0].code, Some("\"database_error\"".to_string()));
    assert_eq!(missing.errors[0].kind, Some("\"database_error\"".to_string()));
    assert!(missing.errors[0].detail.is_none());

    let taken = add_account_handler(ApiVersion::V1, &access_claims, &mut state, account);
    assert_eq!(taken.unwrap_err().status, 500);

    let negative = Account::new(account.id, account.user_id, -1);
    let refused = update_account_handler(&access_claims, "v1", &mut state, negative).unwrap_err();
    assert_eq!(refused.status, 500);
    assert_eq!(refused.errors[0].message, "new row violates check constraint");

    let unknown = update_account_handler(
        &access_claims,
        "v1",
        &mut state,
        Account::new(new_id(), 1, 1),
    );
    assert_eq!(unknown.unwrap_err().status, 404);
    assert_eq!(get_account_handler(&access_claims, "v1", account.id, &state).unwrap(), account);
}

#[test]
fn handlers_report_an_unknown_version_before_the_credentials() {
    let mut state = AppState::new();
    let account = open_account(&mut state, 10);
    let wrong = claims("guest");
    for access_claims in [admin(), wrong] {
        let error = get_account_handler(&access_claims, "v3", account.id, &state).unwrap_err();
        assert_eq!(error.status, 400);
        assert_eq!(error.errors[0].message, "unknown version: v3");
        let error =
            update_account_handler(&access_claims, "v3", &mut state, account).unwrap_err();
        assert_eq!(error.status, 400);
        let error =
            delete_account_handler(&access_claims, "", account.id, &mut state).unwrap_err();
        assert_eq!(error.status, 400);
        assert_eq!(error.errors[0].message, "unknown version: ");
        let error = get_transaction_handler(&access_claims, "v0", 1, &state).unwrap_err();
        assert_eq!(error.status, 400);
    }
    assert_eq!(get_account_handler(&admin(), "v2", account.id, &state).unwrap(), account);
}

#[test]
fn transaction_handlers_turn_away_a_caller_who_is_no_administrator() {
    let mut state = AppState::new();
    let wrong = claims("xyz");
    let some_id = new_id();
    let result = get_transaction_handler(&wrong, "v1", some_id, &state);
    assert_eq!(result.unwrap_err().status, 401);

    let result = transfer_handler(ApiVersion::V1, &wrong, &mut state, order(some_id, some_id, 0));
    let error = result.unwrap_err();
    assert_eq!(error.status, 401);
    assert_eq!(error.errors.len(), 1);
    assert_eq!(error.errors[0].message, "wrong credentials");
}

#[test]
fn transfer_handler_moves_nothing_for_a_caller_who_is_turned_away() {
    let mut state = AppState::new();
    let alice = open_account(&mut state, 100);
    let bob = open_account(&mut state, 100);
    for roles in ["customer", "", "guest,customer", "administrator"] {
        let result =
            transfer_handler(ApiVersion::V1, &claims(roles), &mut state, order(alice.id, bob.id, 25));
        assert_eq!(result.unwrap_err().status, 401);
    }
    assert_eq!(get_account_handler(&admin(), "v1", alice.id, &state).unwrap(), alice);
    assert_eq!(get_account_handler(&admin(), "v1", bob.id, &state).unwrap(), bob);
    let moved = transfer_handler(
        ApiVersion::V1,
        &claims("customer,admin"),
        &mut state,
        order(alice.id, bob.id, 25),
    );
    assert!(moved.is_ok());
}

#[test]
fn account_transaction_test() {
    let mut state = AppState::new();
    let access_claims = admin();

    // Add account for Alice.
    let mut account_alice = Account::new(new_id(), new_id(), 0);
    let result = get_account_handler(&access_claims, "v1", account_alice.id, &state);
    assert_eq!(result.unwrap_err().status, 404);
    let (status, account_result) =
        add_account_handler(ApiVersion::V1, &access_claims, &mut state, account_alice).unwrap();
    assert_eq!(status, 201);
    assert!(account_result.updated_at.is_some());
    assert!(account_result.created_at.is_some());
    account_alice.created_at = account_result.created_at;
    account_alice.updated_at = account_result.updated_at;
    assert_eq!(account_result, account_alice);

    // Get added account.
    let result = get_account_handler(&access_claims, "v1", account_alice.id, &state);
    assert_eq!(result.unwrap(), account_alice);

    // Add account for Bob.
    let mut account_bob = Account::new(new_id(), new_id(), 0);
    let result = get_account_handler(&access_claims, "v1", account_bob.id, &state);
    assert_eq!(result.unwrap_err().status, 404);
    let (status, account_result) =
        add_account_handler(ApiVersion::V1, &access_claims, &mut state, account_bob).unwrap();
    assert_eq!(status, 201);
    assert!(account_result.updated_at.is_some());
    assert!(account_result.created_at.is_some());
    account_bob.created_at = account_result.created_at;
    account_bob.updated_at = account_result.updated_at;
    assert_eq!(account_result, account_bob);

    // Get added account.
    let result = get_account_handler(&access_claims, "v1", account_bob.id, &state);
    assert_eq!(result.unwrap(), account_bob);

    // list existing accounts.
    let accounts = list_accounts_handler(ApiVersion::V1, &access_claims, &state).unwrap();
    assert!(accounts.contains(&account_alice));
    assert!(accounts.contains(&account_bob));

    // Update accounts, once the clock has moved on.
    wait_for_the_clock(account_bob.updated_at);
    account_alice.balance_cents = 100;
    let account_result =
        update_account_handler(&access_claims, "v1", &mut state, account_alice).unwrap();
    assert_ne!(account_result.updated_at, account_alice.updated_at);
    account_alice.updated_at = account_result.updated_at;
    assert_eq!(account_result, account_alice);

    account_bob.balance_cents = 100;
    let account_result =
        update_account_handler(&access_claims, "v1", &mut state, account_bob).unwrap();
    assert_ne!(account_result.updated_at, account_bob.updated_at);
    account_bob.updated_at = account_result.updated_at;
    assert_eq!(account_result, account_bob);

    // Transfer money from Alice to Bob.
    let amount_cents = 25;
    let transaction = transfer_handler(
        ApiVersion::V1,
        &access_claims,
        &mut state,
        order(account_alice.id, account_bob.id, amount_cents),
    )
    .unwrap();

    // Check for transaction details.
    assert_eq!(transaction.source_account_id, account_alice.id);
    assert_eq!(transaction.destination_account_id, account_bob.id);
    assert_eq!(transaction.amount_cents, amount_cents);
    let transaction_persisted =
        get_transaction_handler(&access_claims, "v1", transaction.id, &state).unwrap();
    assert_eq!(transaction_persisted, transaction);

    // Check for transfer results.
    let result = get_account_handler(&access_claims, "v1", account_alice.id, &state);
    assert_eq!(result.unwrap().balance_cents, 75);
    let result = get_account_handler(&access_claims, "v1", account_bob.id, &state);
    assert_eq!(result.unwrap().balance_cents, 125);

    // Transfer money from Bob to Alice.
    let amount_cents = 30;
    let transaction = transfer_handler(
        ApiVersion::V1,
        &access_claims,
        &mut state,
        order(account_bob.id, account_alice.id, amount_cents),
    )
    .unwrap();

    // Check for transaction details.
    assert_eq!(transaction.source_account_id, account_bob.id);
    assert_eq!(transaction.destination_account_id, account_alice.id);
    assert_eq!(transaction.amount_cents, amount_cents);

    // Check for persisted transaction.
    let transaction_persisted =
        get_transaction_handler(&access_claims, "v1", transaction.id, &state).unwrap();
    assert_eq!(transaction_persisted, transaction);

    // Check for transfer results.
    let result = get_account_handler(&access_claims, "v1", account_alice.id, &state);
    assert_eq!(result.unwrap().balance_cents, 105);
    let result = get_account_handler(&access_claims, "v1", account_bob.id, &state);
    assert_eq!(result.unwrap().balance_cents, 95);

    // Check for unsufficient funds.
    let amount_cents = 200;
    let result = transfer_handler(
        ApiVersion::V1,
        &access_claims,
        &mut state,
        order(account_bob.id, account_alice.id, amount_cents),
    );
    assert!(result.is_err());
    let error_response = result.err().unwrap();
    assert_eq!(error_response.status, 422);
    assert_eq!(error_response.errors.len(), 1);

    let error = error_response.errors[0].clone();
    assert_eq!(error.code, serde_json::to_string("transaction_insufficient_funds").ok());
    assert_eq!(error.kind, serde_json::to_string("validation_error").ok());
    assert_eq!(error.message, TransactionError::InsufficientFunds.to_string());
    assert!(error.detail.is_none());

    // Balances are what they were.
    let result = get_account_handler(&access_claims, "v1", account_alice.id, &state);
    assert_eq!(result.unwrap().balance_cents, 105);
    let result = get_account_handler(&access_claims, "v1", account_bob.id, &state);
    assert_eq!(result.unwrap().balance_cents, 95);
}

#[test]
fn transaction_account_validation_test() {
    let mut state = AppState::new();
    let access_claims = admin();

    // Check for invalid source account.
    let source_account_id = new_id();
    let destination_account_id = new_id();
    let amount_cents = 100;

    let result = transfer_handler(
        ApiVersion::V1,
        &access_claims,
        &mut state,
        order(source_account_id, destination_account_id, amount_cents),
    );

    assert!(result.is_err());
    let error_response = result.err().unwrap();
    assert_eq!(error_response.status, 422);
    assert_eq!(error_response.errors.len(), 2);

    let error = error_response.errors[0].clone();
    assert_eq!(error.code, serde_json::to_string("transaction_source_account_not_found").ok());
    assert_eq!(error.kind, serde_json::to_string("validation_error").ok());
    assert_eq!(
        error.message,
        TransactionError::SourceAccountNotFound(source_account_id).to_string()
    );
    assert_eq!(
        detail_of(&error),
        Some(("source_account_id".to_string(), id_text(source_account_id)))
    );

    let error = error_response.errors[1].clone();
    assert_eq!(
        error.code,
        serde_json::to_string("transaction_destination_account_not_found").ok()
    );
    assert_eq!(error.kind, serde_json::to_string("validation_error").ok());
    assert_eq!(
        error.message,
        TransactionError::DestinationAccountNotFound(destination_account_id).to_string()
    );
    assert_eq!(
        detail_of(&error),
        Some(("destination_account_id".to_string(), id_text(destination_account_id)))
    );
}

#[test]
fn account_transaction_test_transaction_non_existing_test() {
    let state = AppState::new();
    let access_claims = admin();

    // Check for non existing transaction.
    let transaction_id = new_id();
    let result = get_transaction_handler(&access_claims, "v1", transaction_id, &state);

    assert!(result.is_err());
    let error_response = result.err().unwrap();
    assert_eq!(error_response.status, 404);
    assert_eq!(error_response.errors.len(), 1);

    let error = error_response.errors[0].clone();
    assert_eq!(error.code, serde_json::to_string("transaction_not_found").ok());
    assert_eq!(error.kind, serde_json::to_string("resource_not_found").ok());
    assert_eq!(error.message, TransactionError::TransactionNotFound(transaction_id).to_string());
    assert_eq!(
        detail_of(&error),
        Some(("transaction_id".to_string(), id_text(transaction_id)))
    );
}

#[test]
fn transfer_between_one_account_reports_every_problem() {
    let mut state = AppState::new();
    let access_claims = admin();
    let account = open_account(&mut state, 100);

    let result =
        transfer_handler(ApiVersion::V1, &access_claims, &mut state, order(account.id, account.id, 10));
    let error_response = result.unwrap_err();
    assert_eq!(error_response.status, 422);
    assert_eq!(error_response.errors.len(), 1);
    assert_eq!(
        error_response.errors[0].code,
        Some("\"transaction_accounts_are_same\"".to_string())
    );
    assert_eq!(
        error_response.errors[0].message,
        TransactionError::AccountsAreSame.to_string()
    );
    assert!(error_response.errors[0].detail.is_none());

    let missing = new_id();
    let result =
        transfer_handler(ApiVersion::V1, &access_claims, &mut state, order(missing, missing, 100));
    let error_response = result.unwrap_err();
    assert_eq!(error_response.status, 422);
    let codes: Vec<Option<String>> =
        error_response.errors.iter().map(|entry| entry.code.clone()).collect();
    assert_eq!(
        codes,
        vec![
            Some("\"transaction_accounts_are_same\"".to_string()),
            Some("\"transaction_source_account_not_found\"".to_string()),
            Some("\"transaction_destination_account_not_found\"".to_string()),
        ]
    );
    assert_eq!(get_account_handler(&access_claims, "v1", account.id, &state).unwrap(), account);
}

#[test]
fn transfer_handler_rejects_an_amount_that_is_not_positive() {
    let mut state = AppState::new();
    let access_claims = admin();
    let alice = open_account(&mut state, 100);
    let bob = open_account(&mut state, 100);
    for amount_cents in [0, -25] {
        let result = transfer_handler(
            ApiVersion::V2,
            &access_claims,
            &mut state,
            order(alice.id, bob.id, amount_cents),
        );
        let error_response = result.unwrap_err();
        assert_eq!(error_response.status, 422);
        assert_eq!(error_response.errors.len(), 1);
        assert_eq!(
            error_response.errors[0].code,
            Some("\"transaction_invalid_amount\"".to_string())
        );
        assert_eq!(error_response.errors[0].message, "invalid amount");
    }
    assert_eq!(get_account_handler(&access_claims, "v1", alice.id, &state).unwrap(), alice);
    assert_eq!(get_account_handler(&access_claims, "v1", bob.id, &state).unwrap(), bob);
}

#[test]
fn transfer_handler_names_no_cause_where_the_store_fails() {
    let mut state = AppState::new();
    let access_claims = admin();
    let alice = open_account(&mut state, 100);
    let bob = open_account(&mut state, i64::MAX);
    let result =
        transfer_handler(ApiVersion::V1, &access_claims, &mut state, order(alice.id, bob.id, 1));
    let error_response = result.unwrap_err();
    assert_eq!(error_response.status, 500);
    assert_eq!(error_response.errors.len(), 1);
    let error = &error_response.errors[0];
    assert_eq!(error.message, "storage error");
    assert_eq!(error.code, Some("\"database_error\"".to_string()));
    assert_eq!(error.kind, Some("\"database_error\"".to_string()));
    assert_eq!(error.description, None);
    assert!(error.detail.is_none());
    assert!(error.trace_id.is_some());
    assert_eq!(get_account_handler(&access_claims, "v1", alice.id, &state).unwrap(), alice);
    assert_eq!(get_account_handler(&access_claims, "v1", bob.id, &state).unwrap(), bob);
}
