use vstd::prelude::*;
use vstd::string::StringExecFns;

use crate::api::api_error::{
    blank_entry, trace_text, ApiError, ApiErrorCode, ApiErrorEntry,
    ApiErrorEntryView, ApiErrorKind, DetailField,
};
use crate::api::api_version::{is_version_error, parse_version, version_named, ApiVersion};
use crate::application::repository::transaction_repo;
use crate::application::security::auth_error::AuthError;
use crate::application::security::jwt_auth::is_auth_error;
use crate::application::security::jwt_claims::{admin_check, AccessClaims, ClaimsMethods};
use crate::application::service::transaction_service;
use crate::application::service::transaction_service::{transfer_post, TransferError};
use crate::application::state::AppState;
use crate::domain::transaction::Transaction;
use crate::infrastructure::ids::{uuid_text, uuid_to_string};
use crate::infrastructure::json::json_quoted;

verus! {

/// `prefix` followed by the text of the UUID `id`.
pub(crate) fn with_uuid(prefix: &str, id: u128) -> (text: String)
    ensures
        text@ == prefix@ + uuid_text(id),
{
    let mut text = prefix.to_owned();
    let id_text = uuid_to_string(id);
    text.append(id_text.as_str());
    text
}

/// What can be wrong with a request on transactions.
#[derive(Clone, Copy, Debug, PartialEq, Eq, Structural)]
pub enum TransactionError {
    /// No transaction has this id.
    TransactionNotFound(u128),
    /// The amount to transfer is zero or negative.
    InvalidAmount,
    /// Source and destination are one account.
    AccountsAreSame,
    /// The source account holds less than the amount.
    InsufficientFunds,
    /// No account has the id given as source.
    SourceAccountNotFound(u128),
    /// No account has the id given as destination.
    DestinationAccountNotFound(u128),
}

impl TransactionError {
    /// The sentence that names the error.
    pub open spec fn message(self) -> Seq<char> {
        match self {
            TransactionError::TransactionNotFound(id) => "transaction not found: "@ + uuid_text(id),
            TransactionError::InvalidAmount => "invalid amount"@,
            TransactionError::AccountsAreSame => "source and destination accounts are the same"@,
            TransactionError::InsufficientFunds => "insufficient funds"@,
            TransactionError::SourceAccountNotFound(id) => "source account not found: "@
                + uuid_text(id),
            TransactionError::DestinationAccountNotFound(id) => "destination account not found: "@
                + uuid_text(id),
        }
    }

    /// The sentence that names the error.
    pub fn to_string(&self) -> (text: String)
        ensures
            text@ == self.message(),
    {
        match self {
            TransactionError::TransactionNotFound(id) => with_uuid("transaction not found: ", *id),
            TransactionError::InvalidAmount => "invalid amount".to_owned(),
            TransactionError::AccountsAreSame => {
                "source and destination accounts are the same".to_owned()
            },
            TransactionError::InsufficientFunds => "insufficient funds".to_owned(),
            TransactionError::SourceAccountNotFound(id) => {
                with_uuid("source account not found: ", *id)
            },
            TransactionError::DestinationAccountNotFound(id) => {
                with_uuid("destination account not found: ", *id)
            },
        }
    }

    /// The code that a response gives for the error.
    #[verifier::allow_in_spec]
    pub fn code(&self) -> ApiErrorCode
        returns
            (match self {
                TransactionError::TransactionNotFound(_) => ApiErrorCode::TransactionNotFound,
                TransactionError::InvalidAmount => ApiErrorCode::TransactionInvalidAmount,
                TransactionError::AccountsAreSame => ApiErrorCode::TransactionAccountsAreSame,
                TransactionError::InsufficientFunds => ApiErrorCode::TransactionInsufficientFunds,
                TransactionError::SourceAccountNotFound(_) => {
                    ApiErrorCode::TransactionSourceAccountNotFound
                },
                TransactionError::DestinationAccountNotFound(_) => {
                    ApiErrorCode::TransactionDestinationAccountNotFound
                },
            }),
    {
        match self {
            TransactionError::TransactionNotFound(_) => ApiErrorCode::TransactionNotFound,
            TransactionError::InvalidAmount => ApiErrorCode::TransactionInvalidAmount,
            TransactionError::AccountsAreSame => ApiErrorCode::TransactionAccountsAreSame,
            TransactionError::InsufficientFunds => ApiErrorCode::TransactionInsufficientFunds,
            TransactionError::SourceAccountNotFound(_) => {
                ApiErrorCode::TransactionSourceAccountNotFound
            },
            TransactionError::DestinationAccountNotFound(_) => {
                ApiErrorCode::TransactionDestinationAccountNotFound
            },
        }
    }

    /// The family of the error: a transaction that is not there is a
    /// resource that was not found, everything else a request that is
    /// not valid.
    #[verifier::allow_in_spec]
    pub fn kind(&self) -> ApiErrorKind
        returns
            (match self {
                TransactionError::TransactionNotFound(_) => ApiErrorKind::ResourceNotFound,
                TransactionError::InvalidAmount
                | TransactionError::AccountsAreSame
                | TransactionError::InsufficientFunds
                | TransactionError::SourceAccountNotFound(_)
                | TransactionError::DestinationAccountNotFound(_) => ApiErrorKind::ValidationError,
            }),
    {
        match self {
            TransactionError::TransactionNotFound(_) => ApiErrorKind::ResourceNotFound,
            TransactionError::InvalidAmount
            | TransactionError::AccountsAreSame
            | TransactionError::InsufficientFunds
            | TransactionError::SourceAccountNotFound(_)
            | TransactionError::DestinationAccountNotFound(_) => ApiErrorKind::ValidationError,
        }
    }

    /// The id that the error is about, under the name of what it
    /// identifies; nothing where the error is about no id.
    pub open spec fn detail(self) -> Option<(Seq<char>, Seq<char>)> {
        match self {
            TransactionError::TransactionNotFound(id) => Some(("transaction_id"@, uuid_text(id))),
            TransactionError::SourceAccountNotFound(id) => Some(
                ("source_account_id"@, uuid_text(id)),
            ),
            TransactionError::DestinationAccountNotFound(id) => Some(
                ("destination_account_id"@, uuid_text(id)),
            ),
            TransactionError::InvalidAmount
            | TransactionError::AccountsAreSame
            | TransactionError::InsufficientFunds => None,
        }
    }

    /// The longer account of the error, where there is one.
    pub open spec fn description(self) -> Option<Seq<char>> {
        match self {
            TransactionError::InsufficientFunds => Some(
                "there are insufficient funds in the source account for the transfer"@,
            ),
            TransactionError::TransactionNotFound(_)
            | TransactionError::InvalidAmount
            | TransactionError::AccountsAreSame
            | TransactionError::SourceAccountNotFound(_)
            | TransactionError::DestinationAccountNotFound(_) => None,
        }
    }

    /// The rule that the request broke, where it broke one.
    pub open spec fn reason(self) -> Option<Seq<char>> {
        match self {
            TransactionError::TransactionNotFound(_) => None,
            TransactionError::InvalidAmount => Some("amount must be greater than zero"@),
            TransactionError::AccountsAreSame => Some(
                "source and destination accounts must be different"@,
            ),
            TransactionError::InsufficientFunds => Some(
                "source account balance must be sufficient to cover the transfer amount"@,
            ),
            TransactionError::SourceAccountNotFound(_)
            | TransactionError::DestinationAccountNotFound(_) => Some(
                "must be an existing account"@,
            ),
        }
    }

    /// The HTTP status that answers the error: 404 for a transaction that
    /// is not there, 422 for a transfer that is not valid.
    #[verifier::allow_in_spec]
    pub fn status_code(&self) -> u16
        returns
            (match self {
                TransactionError::TransactionNotFound(_) => 404u16,
                TransactionError::InvalidAmount
                | TransactionError::AccountsAreSame
                | TransactionError::InsufficientFunds
                | TransactionError::SourceAccountNotFound(_)
                | TransactionError::DestinationAccountNotFound(_) => 422u16,
            }),
    {
        match self {
            TransactionError::TransactionNotFound(_) => 404,
            TransactionError::InvalidAmount
            | TransactionError::AccountsAreSame
            | TransactionError::InsufficientFunds
            | TransactionError::SourceAccountNotFound(_)
            | TransactionError::DestinationAccountNotFound(_) => 422,
        }
    }
}

/// The problems found with one transfer, in the order in which they were
/// found.
#[derive(Debug)]
pub struct TransferValidationErrors {
    errors: Vec<TransactionError>,
}

impl View for TransferValidationErrors {
    type V = Seq<TransactionError>;

    closed spec fn view(&self) -> Seq<TransactionError> {
        self.errors@
    }
}

impl TransferValidationErrors {
    /// No problem yet.
    pub fn new() -> (errors: TransferValidationErrors)
        ensures
            errors@ == Seq::<TransactionError>::empty(),
    {
        TransferValidationErrors { errors: Vec::new() }
    }

    /// Notes one more problem, after those already found.
    pub fn add(&mut self, error: TransactionError)
        ensures
            final(self)@ == old(self)@.push(error),
    {
        self.errors.push(error);
    }

    /// Whether any problem was found.
    pub fn has_errors(&self) -> (found: bool)
        ensures
            found == (self@.len() > 0),
    {
        self.errors.len() > 0
    }

    /// The problems found.
    pub fn errors(&self) -> (errors: &Vec<TransactionError>)
        ensures
            errors@ == self@,
    {
        &self.errors
    }
}

impl Default for TransferValidationErrors {
    fn default() -> (errors: TransferValidationErrors)
        ensures
            errors@ == Seq::<TransactionError>::empty(),
    {
        TransferValidationErrors::new()
    }
}

/// A detail that holds the text of the UUID `id` under the name `name`.
fn id_detail(name: &str, id: u128) -> (detail: DetailField)
    ensures
        detail@ == (name@, uuid_text(id)),
{
    DetailField { name: name.to_owned(), value: uuid_to_string(id) }
}

/// What the entry made for `error` says, whenever it was made and
/// whichever trace id it drew: message, code, kind, detail, description
/// and reason are those of the error, and the trace id is the text of
/// some UUID without its hyphens.
pub open spec fn describes_transaction_error(entry: ApiErrorEntryView, error: TransactionError)
    -> bool {
    &&& entry == (ApiErrorEntryView {
        code: Some(json_quoted(error.code().name())),
        kind: Some(json_quoted(error.kind().name())),
        description: error.description(),
        detail: error.detail(),
        reason: error.reason(),
        trace_id: entry.trace_id,
        ..blank_entry(error.message(), entry.timestamp)
    })
    &&& exists|id: u128| entry.trace_id == Some(#[trigger] trace_text(id))
    &&& entry.timestamp >= 0
}

impl From<TransactionError> for ApiErrorEntry {
    /// The entry that reports `transaction_error`.
    fn from(transaction_error: TransactionError) -> (entry: ApiErrorEntry)
        ensures
            describes_transaction_error(entry@, transaction_error),
    {
        let message = transaction_error.to_string();
        let error = ApiErrorEntry::new(message.as_str()).code(transaction_error.code()).kind(
            transaction_error.kind(),
        );
        let error = match transaction_error {
            TransactionError::TransactionNotFound(transaction_id) => error.detail(
                id_detail("transaction_id", transaction_id),
            ),
            TransactionError::InvalidAmount => error.reason("amount must be greater than zero"),
            TransactionError::AccountsAreSame => error.reason(
                "source and destination accounts must be different",
            ),
            TransactionError::InsufficientFunds => error.description(
                "there are insufficient funds in the source account for the transfer",
            ).reason("source account balance must be sufficient to cover the transfer amount"),
            TransactionError::SourceAccountNotFound(source_account_id) => error.detail(
                id_detail("source_account_id", source_account_id),
            ).reason("must be an existing account"),
            TransactionError::DestinationAccountNotFound(destination_account_id) => error.detail(
                id_detail("destination_account_id", destination_account_id),
            ).reason("must be an existing account"),
        };
        error.trace_id()
    }
}

impl vstd::std_specs::convert::FromSpecImpl<TransactionError> for ApiErrorEntry {
    /// The entry holds the time at which it was made and a trace id
    /// drawn for it, so the result is stated by `from` itself.
    open spec fn obeys_from_spec() -> bool {
        false
    }

    open spec fn from_spec(transaction_error: TransactionError) -> ApiErrorEntry {
        arbitrary()
    }
}

/// Whether `entries` report `errors`, one entry for each error and in the
/// same order.
pub open spec fn entries_describe(entries: Seq<ApiErrorEntry>, errors: Seq<TransactionError>)
    -> bool {
    &&& entries.len() == errors.len()
    &&& forall|i: int|
        0 <= i < errors.len() ==> describes_transaction_error(
            (#[trigger] entries[i])@,
            errors[i],
        )
}

/// Whether `api_error` answers with the status `status` and reports
/// `errors`, one entry for each and in the same order.
pub open spec fn answers_with(api_error: ApiError, status: u16, errors: Seq<TransactionError>)
    -> bool {
    api_error.status == status && entries_describe(api_error.errors@, errors)
}

impl From<TransactionError> for ApiError {
    /// The answer to a request that failed for `error`: the status of the
    /// error and the one entry that reports it.
    fn from(error: TransactionError) -> (api_error: ApiError)
        ensures
            answers_with(api_error, error.status_code(), seq![error]),
    {
        let status = error.status_code();
        let errors = vec![error];
        ApiError::from((status, errors))
    }
}

impl vstd::std_specs::convert::FromSpecImpl<TransactionError> for ApiError {
    /// The entries hold the time at which they were made, so the result
    /// is stated by `from` itself.
    open spec fn obeys_from_spec() -> bool {
        false
    }

    open spec fn from_spec(error: TransactionError) -> ApiError {
        arbitrary()
    }
}

impl From<(u16, Vec<TransactionError>)> for ApiError {
    /// The answer with a status and the entries that report the errors,
    /// one for each and in the same order.
    fn from(error_from: (u16, Vec<TransactionError>)) -> (api_error: ApiError)
        ensures
            answers_with(api_error, error_from.0, error_from.1@),
    {
        let (status, errors) = error_from;
        let mut entries: Vec<ApiErrorEntry> = Vec::new();
        let mut i: usize = 0;
        while i < errors.len()
            invariant
                i <= errors.len(),
                entries_describe(entries@, errors@.take(i as int)),
            decreases errors.len() - i,
        {
            let entry = ApiErrorEntry::from(errors[i]);
            entries.push(entry);
            i += 1;
        }
        assert(errors@.take(i as int) =~= errors@);
        ApiError { status, errors: entries }
    }
}

impl vstd::std_specs::convert::FromSpecImpl<(u16, Vec<TransactionError>)> for ApiError {
    /// The entries hold the time at which they were made, so the result
    /// is stated by `from` itself.
    open spec fn obeys_from_spec() -> bool {
        false
    }

    open spec fn from_spec(error_from: (u16, Vec<TransactionError>)) -> ApiError {
        arbitrary()
    }
}

impl From<TransferValidationErrors> for ApiError {
    /// The answer to a transfer that is not valid: status 422 and one
    /// entry for each problem found, in the order in which they were
    /// found.
    fn from(validation_errors: TransferValidationErrors) -> (api_error: ApiError)
        ensures
            answers_with(api_error, 422, validation_errors@),
    {
        let status: u16 = 422;
        let errors = validation_errors.errors;
        ApiError::from((status, errors))
    }
}

impl vstd::std_specs::convert::FromSpecImpl<TransferValidationErrors> for ApiError {
    /// The entries hold the time at which they were made, so the result
    /// is stated by `from` itself.
    open spec fn obeys_from_spec() -> bool {
        false
    }

    open spec fn from_spec(validation_errors: TransferValidationErrors) -> ApiError {
        arbitrary()
    }
}

/// What the entry made for a transfer on which the store failed says:
/// that the store failed, under a trace id by which the failure is found
/// again, and nothing of the cause.
pub open spec fn describes_storage_failure(entry: ApiErrorEntryView) -> bool {
    &&& entry == (ApiErrorEntryView {
        code: Some(json_quoted(ApiErrorCode::DatabaseError.name())),
        kind: Some(json_quoted(ApiErrorKind::DatabaseError.name())),
        trace_id: entry.trace_id,
        ..blank_entry("storage error"@, entry.timestamp)
    })
    &&& exists|id: u128| entry.trace_id == Some(#[trigger] trace_text(id))
    &&& entry.timestamp >= 0
}

/// Whether `api_error` is the answer to a transfer that did not take
/// place for `transfer_error`: 422 and an entry for each problem where the
/// request was not valid; 500 and one entry that names no cause where the
/// store failed, whatever the failure was.
pub open spec fn answers_transfer_error(api_error: ApiError, transfer_error: TransferError)
    -> bool {
    match transfer_error {
        TransferError::ValidationErrors(validation_errors) => answers_with(
            api_error,
            422,
            validation_errors@,
        ),
        TransferError::StorageError(_) => {
            &&& api_error.status == 500
            &&& api_error.errors@.len() == 1
            &&& describes_storage_failure(api_error.errors@[0]@)
        },
    }
}

impl From<TransferError> for ApiError {
    /// The answer to a transfer that did not take place.
    fn from(transfer_error: TransferError) -> (api_error: ApiError)
        ensures
            answers_transfer_error(api_error, transfer_error),
    {
        match transfer_error {
            TransferError::ValidationErrors(validation_errors) => ApiError::from(validation_errors),
            TransferError::StorageError(_) => {
                let entry = ApiErrorEntry::new("storage error").code(
                    ApiErrorCode::DatabaseError,
                ).kind(ApiErrorKind::DatabaseError).trace_id();
                ApiError::from((500u16, entry))
            },
        }
    }
}

impl vstd::std_specs::convert::FromSpecImpl<TransferError> for ApiError {
    /// The entries hold the time at which they were made, so the result
    /// is stated by `from` itself.
    open spec fn obeys_from_spec() -> bool {
        false
    }

    open spec fn from_spec(transfer_error: TransferError) -> ApiError {
        arbitrary()
    }
}

/// A request to move money.
#[derive(Debug, Clone, Copy, PartialEq, Eq, Structural)]
pub struct TransferOrder {
    pub source_account_id: u128,
    pub destination_account_id: u128,
    pub amount_cents: i64,
}

/// What a caller with the roles `roles` who asks for the transaction
/// `id` under the version `version` is answered from the records
/// `records`: first the version must be known, then the caller must be an
/// administrator, then the transaction must be there.
pub open spec fn get_transaction_answer(
    result: Result<Transaction, ApiError>,
    roles: Seq<char>,
    version: Seq<char>,
    id: u128,
    records: Map<u128, Transaction>,
) -> bool {
    if version_named(version) is None {
        result matches Err(error) && is_version_error(error, "unknown version: "@ + version)
    } else if admin_check(roles) is Err {
        result matches Err(error) && is_auth_error(error, AuthError::WrongCredentials)
    } else if !records.contains_key(id) {
        result matches Err(error) && answers_with(
            error,
            404,
            seq![TransactionError::TransactionNotFound(id)],
        )
    } else {
        result == Ok::<Transaction, ApiError>(records[id])
    }
}

/// Answers an administrator's request for the transaction `id`.
pub fn get_transaction_handler(
    access_claims: &AccessClaims,
    version: &str,
    id: u128,
    state: &AppState,
) -> (result: Result<Transaction, ApiError>)
    ensures
        get_transaction_answer(result, access_claims.roles@, version@, id, state.transactions@),
{
    let _api_version: ApiVersion = match parse_version(version) {
        Ok(api_version) => api_version,
        Err(error) => {
            return Err(error);
        },
    };
    match access_claims.validate_role_admin() {
        Ok(_) => {},
        Err(error) => {
            return Err(ApiError::from(error));
        },
    }
    match transaction_repo::get_by_id(id, &state.transactions) {
        Ok(transaction) => Ok(transaction),
        Err(_) => Err(ApiError::from(TransactionError::TransactionNotFound(id))),
    }
}

/// Whether `result` is the answer to a transfer that ended in
/// `outcome`: the record of the transfer, or the answer to its failure.
pub open spec fn answers_transfer(
    result: Result<Transaction, ApiError>,
    outcome: Result<Transaction, TransferError>,
) -> bool {
    match outcome {
        Ok(transaction) => result == Ok::<Transaction, ApiError>(transaction),
        Err(transfer_error) => result matches Err(error) && answers_transfer_error(
            error,
            transfer_error,
        ),
    }
}

/// Answers an administrator's order to move money.
///
/// A caller who is no administrator is turned away and nothing changes.
/// For an administrator the transfer is attempted once, under some
/// freshly drawn id and at some time not before the epoch, and the
/// answer is the record of the transfer or reports why it did not take
/// place.
pub fn transfer_handler(
    _api_version: ApiVersion,
    access_claims: &AccessClaims,
    state: &mut AppState,
    transfer_order: TransferOrder,
) -> (result: Result<Transaction, ApiError>)
    ensures
        admin_check(access_claims.roles@) is Err ==> {
            &&& result matches Err(error) && is_auth_error(error, AuthError::WrongCredentials)
            &&& final(state).same_rows(old(state))
        },
        admin_check(access_claims.roles@) is Ok ==> exists|
            outcome: Result<Transaction, TransferError>,
            transaction_id: u128,
            now: i64,
        |
            {
                &&& now >= 0
                &&& #[trigger] transfer_post(
                    old(state),
                    final(state),
                    outcome,
                    transfer_order.source_account_id,
                    transfer_order.destination_account_id,
                    transfer_order.amount_cents,
                    transaction_id,
                    now,
                )
                &&& answers_transfer(result, outcome)
            },
        result is Err ==> final(state).same_rows(old(state)),
{
    match access_claims.validate_role_admin() {
        Ok(_) => {},
        Err(error) => {
            return Err(ApiError::from(error));
        },
    }
    let outcome = transaction_service::transfer(
        transfer_order.source_account_id,
        transfer_order.destination_account_id,
        transfer_order.amount_cents,
        state,
    );
    match outcome {
        Ok(transaction) => Ok(transaction),
        Err(transfer_error) => Err(ApiError::from(transfer_error)),
    }
}

} // verus!
