use vstd::prelude::*;

use crate::api::api_error::{describes_repository_error, ApiError};
use crate::api::api_version::{is_version_error, parse_version, version_named, ApiVersion};
use crate::application::repository::account_repo;
use crate::application::repository::account_repo::{add_outcome, update_outcome};
use crate::application::repository::table::row_index;
use crate::application::repository::RepositoryError;
use crate::application::security::auth_error::AuthError;
use crate::application::security::jwt_auth::{is_auth_error, is_bare_status};
use crate::application::security::jwt_claims::{admin_check, AccessClaims, ClaimsMethods};
use crate::application::state::AppState;
use crate::domain::account::Account;

verus! {

/// Whether a caller with the roles `roles` is let through to the
/// accounts under the version `version`: the version must be known and
/// the caller an administrator.
pub open spec fn admitted(roles: Seq<char>, version: Seq<char>) -> bool {
    version_named(version) is Some && admin_check(roles) is Ok
}

/// Whether `result` turns the caller away for `reason`.
pub open spec fn refused<T>(result: Result<T, ApiError>, reason: AuthError) -> bool {
    result matches Err(error) && is_auth_error(error, reason)
}

/// Whether `result` turns away a caller who is not let through: the
/// unknown version is reported first, then the wrong credentials.
pub open spec fn turned_away<T>(result: Result<T, ApiError>, roles: Seq<char>, version: Seq<char>)
    -> bool {
    if version_named(version) is None {
        result matches Err(error) && is_version_error(error, "unknown version: "@ + version)
    } else {
        refused(result, AuthError::WrongCredentials)
    }
}

/// Whether `result` reports the failure `fault` of the store: its status
/// and one entry that describes it.
pub open spec fn reports_fault<T>(result: Result<T, ApiError>, fault: RepositoryError) -> bool {
    &&& result matches Err(error)
    &&& error.status == fault.status_code()
    &&& error.errors@.len() == 1
    &&& describes_repository_error(error.errors@[0]@, fault)
}

/// Lets an administrator through and turns everyone else away.
fn let_through(access_claims: &AccessClaims) -> (result: Result<(), ApiError>)
    ensures
        admin_check(access_claims.roles@) is Ok ==> result is Ok,
        admin_check(access_claims.roles@) is Err ==> refused(result, AuthError::WrongCredentials),
{
    match access_claims.validate_role_admin() {
        Ok(_) => Ok(()),
        Err(error) => Err(ApiError::from(error)),
    }
}

/// Answers an administrator with all accounts.
pub fn list_accounts_handler(
    _api_version: ApiVersion,
    access_claims: &AccessClaims,
    state: &AppState,
) -> (result: Result<Vec<Account>, ApiError>)
    ensures
        admin_check(access_claims.roles@) is Ok ==> (result matches Ok(accounts) && accounts@
            == state.accounts.rows()),
        admin_check(access_claims.roles@) is Err ==> refused(result, AuthError::WrongCredentials),
{
    match let_through(access_claims) {
        Ok(_) => {},
        Err(error) => {
            return Err(error);
        },
    }
    let accounts = account_repo::list(&state.accounts);
    Ok(accounts)
}

/// Stores a new account for an administrator and answers 201 with the
/// row that was stored.
///
/// The row is stamped with the time of the call, which is not before
/// the epoch. Where the caller is turned away or the store refuses the
/// account, nothing changes.
pub fn add_account_handler(
    _api_version: ApiVersion,
    access_claims: &AccessClaims,
    state: &mut AppState,
    account: Account,
) -> (result: Result<(u16, Account), ApiError>)
    ensures
        final(state).transactions.rows() == old(state).transactions.rows(),
        result is Err ==> final(state).same_rows(old(state)),
        admin_check(access_claims.roles@) is Err ==> refused(result, AuthError::WrongCredentials),
        admin_check(access_claims.roles@) is Ok ==> exists|now: i64|
            now >= 0 && match #[trigger] add_outcome(old(state).accounts@, account, now) {
                Ok(stored) => {
                    &&& result == Ok::<(u16, Account), ApiError>((201u16, stored))
                    &&& final(state).accounts.rows() == old(state).accounts.rows().push(stored)
                    &&& final(state).accounts@ == old(state).accounts@.insert(account.id, stored)
                },
                Err(fault) => reports_fault(result, fault),
            },
{
    match let_through(access_claims) {
        Ok(_) => {},
        Err(error) => {
            return Err(error);
        },
    }
    match crate::application::repository::account_repo::add(account, &mut state.accounts) {
        Ok(account) => Ok((201, account)),
        Err(fault) => Err(ApiError::from(fault)),
    }
}

/// Answers an administrator with the account `id`, or 404 where there
/// is none.
pub fn get_account_handler(
    access_claims: &AccessClaims,
    version: &str,
    id: u128,
    state: &AppState,
) -> (result: Result<Account, ApiError>)
    ensures
        !admitted(access_claims.roles@, version@) ==> turned_away(
            result,
            access_claims.roles@,
            version@,
        ),
        admitted(access_claims.roles@, version@) ==> if state.accounts@.contains_key(id) {
            result == Ok::<Account, ApiError>(state.accounts@[id])
        } else {
            reports_fault(result, RepositoryError::RowNotFound)
        },
{
    match parse_version(version) {
        Ok(_) => {},
        Err(error) => {
            return Err(error);
        },
    }
    match let_through(access_claims) {
        Ok(_) => {},
        Err(error) => {
            return Err(error);
        },
    }
    match account_repo::get_by_id(id, &state.accounts) {
        Ok(account) => Ok(account),
        Err(fault) => Err(ApiError::from(fault)),
    }
}

/// Writes owner and balance of `account` over the stored account with
/// its id, for an administrator, and answers with the new row.
///
/// The row is stamped with the time of the call, which is not before
/// the epoch. Where the caller is turned away or the store refuses the
/// account, nothing changes.
pub fn update_account_handler(
    access_claims: &AccessClaims,
    version: &str,
    state: &mut AppState,
    account: Account,
) -> (result: Result<Account, ApiError>)
    ensures
        final(state).transactions.rows() == old(state).transactions.rows(),
        result is Err ==> final(state).same_rows(old(state)),
        !admitted(access_claims.roles@, version@) ==> turned_away(
            result,
            access_claims.roles@,
            version@,
        ),
        admitted(access_claims.roles@, version@) ==> exists|now: i64|
            now >= 0 && match #[trigger] update_outcome(old(state).accounts@, account, now) {
                Ok(stored) => {
                    &&& result == Ok::<Account, ApiError>(stored)
                    &&& final(state).accounts.rows() == old(state).accounts.rows().update(
                        row_index(old(state).accounts.rows(), account.id),
                        stored,
                    )
                    &&& final(state).accounts@ == old(state).accounts@.insert(account.id, stored)
                },
                Err(fault) => reports_fault(result, fault),
            },
{
    match parse_version(version) {
        Ok(_) => {},
        Err(error) => {
            return Err(error);
        },
    }
    match let_through(access_claims) {
        Ok(_) => {},
        Err(error) => {
            return Err(error);
        },
    }
    match account_repo::update(account, &mut state.accounts) {
        Ok(account) => Ok(account),
        Err(fault) => Err(ApiError::from(fault)),
    }
}

/// Removes the account `id` for an administrator and answers 200, or
/// 404 where there is no such account.
pub fn delete_account_handler(
    access_claims: &AccessClaims,
    version: &str,
    id: u128,
    state: &mut AppState,
) -> (result: Result<u16, ApiError>)
    ensures
        final(state).transactions.rows() == old(state).transactions.rows(),
        result is Err ==> final(state).same_rows(old(state)),
        !admitted(access_claims.roles@, version@) ==> turned_away(
            result,
            access_claims.roles@,
            version@,
        ),
        admitted(access_claims.roles@, version@) ==> if old(state).accounts@.contains_key(id) {
            &&& result == Ok::<u16, ApiError>(200u16)
            &&& final(state).accounts@ == old(state).accounts@.remove(id)
            &&& final(state).accounts.rows() == old(state).accounts.rows().remove(
                row_index(old(state).accounts.rows(), id),
            )
        } else {
            result matches Err(error) && is_bare_status(error, 404)
        },
{
    match parse_version(version) {
        Ok(_) => {},
        Err(error) => {
            return Err(error);
        },
    }
    match let_through(access_claims) {
        Ok(_) => {},
        Err(error) => {
            return Err(error);
        },
    }
    match account_repo::delete(id, &mut state.accounts) {
        Ok(true) => Ok(200),
        Ok(false) => Err(ApiError::from(404u16)),
        Err(fault) => Err(ApiError::from(fault)),
    }
}

} // verus!
