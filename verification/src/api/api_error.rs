use vstd::prelude::*;
use vstd::string::StringExecFns;

use crate::application::repository::RepositoryError;
use crate::application::security::auth_error::AuthError;
use crate::infrastructure::clock::now_micros;
use crate::infrastructure::ids::{random_uuid, uuid_text, uuid_to_string};
use crate::infrastructure::json::{json_plain, json_quoted, json_string};

verus! {

/// The codes by which a client tells one error from another.
#[derive(Clone, Copy, Debug, PartialEq, Eq, Structural)]
pub enum ApiErrorCode {
    AuthWrongCredentials,
    AuthMissingCredentials,
    AuthTokenCreationError,
    AuthInvalidToken,
    AuthRevokedTokensInactive,
    AuthForbidden,
    UserNotFound,
    TransactionNotFound,
    TransactionInvalidAmount,
    TransactionAccountsAreSame,
    TransactionInsufficientFunds,
    TransactionSourceAccountNotFound,
    TransactionDestinationAccountNotFound,
    ResourceNotFound,
    ApiVersionError,
    DatabaseError,
    RedisError,
}

impl ApiErrorCode {
    /// The code in snake case, as it is written in a response.
    pub open spec fn name(self) -> Seq<char> {
        match self {
            ApiErrorCode::AuthWrongCredentials => "auth_wrong_credentials"@,
            ApiErrorCode::AuthMissingCredentials => "auth_missing_credentials"@,
            ApiErrorCode::AuthTokenCreationError => "auth_token_creation_error"@,
            ApiErrorCode::AuthInvalidToken => "auth_invalid_token"@,
            ApiErrorCode::AuthRevokedTokensInactive => "auth_revoked_tokens_inactive"@,
            ApiErrorCode::AuthForbidden => "auth_forbidden"@,
            ApiErrorCode::UserNotFound => "user_not_found"@,
            ApiErrorCode::TransactionNotFound => "transaction_not_found"@,
            ApiErrorCode::TransactionInvalidAmount => "transaction_invalid_amount"@,
            ApiErrorCode::TransactionAccountsAreSame => "transaction_accounts_are_same"@,
            ApiErrorCode::TransactionInsufficientFunds => "transaction_insufficient_funds"@,
            ApiErrorCode::TransactionSourceAccountNotFound => {
                "transaction_source_account_not_found"@
            },
            ApiErrorCode::TransactionDestinationAccountNotFound => {
                "transaction_destination_account_not_found"@
            },
            ApiErrorCode::ResourceNotFound => "resource_not_found"@,
            ApiErrorCode::ApiVersionError => "api_version_error"@,
            ApiErrorCode::DatabaseError => "database_error"@,
            ApiErrorCode::RedisError => "redis_error"@,
        }
    }

    /// The code in snake case, as it is written in a response.
    pub fn as_str(&self) -> (name: &'static str)
        ensures
            name@ == self.name(),
            json_plain(name@),
    {
        proof {
            reveal_strlit("auth_wrong_credentials");
            reveal_strlit("auth_missing_credentials");
            reveal_strlit("auth_token_creation_error");
            reveal_strlit("auth_invalid_token");
            reveal_strlit("auth_revoked_tokens_inactive");
            reveal_strlit("auth_forbidden");
            reveal_strlit("user_not_found");
            reveal_strlit("transaction_not_found");
            reveal_strlit("transaction_invalid_amount");
            reveal_strlit("transaction_accounts_are_same");
            reveal_strlit("transaction_insufficient_funds");
            reveal_strlit("transaction_source_account_not_found");
            reveal_strlit("transaction_destination_account_not_found");
            reveal_strlit("resource_not_found");
            reveal_strlit("api_version_error");
            reveal_strlit("database_error");
            reveal_strlit("redis_error");
        }
        match self {
            ApiErrorCode::AuthWrongCredentials => "auth_wrong_credentials",
            ApiErrorCode::AuthMissingCredentials => "auth_missing_credentials",
            ApiErrorCode::AuthTokenCreationError => "auth_token_creation_error",
            ApiErrorCode::AuthInvalidToken => "auth_invalid_token",
            ApiErrorCode::AuthRevokedTokensInactive => "auth_revoked_tokens_inactive",
            ApiErrorCode::AuthForbidden => "auth_forbidden",
            ApiErrorCode::UserNotFound => "user_not_found",
            ApiErrorCode::TransactionNotFound => "transaction_not_found",
            ApiErrorCode::TransactionInvalidAmount => "transaction_invalid_amount",
            ApiErrorCode::TransactionAccountsAreSame => "transaction_accounts_are_same",
            ApiErrorCode::TransactionInsufficientFunds => "transaction_insufficient_funds",
            ApiErrorCode::TransactionSourceAccountNotFound => {
                "transaction_source_account_not_found"
            },
            ApiErrorCode::TransactionDestinationAccountNotFound => {
                "transaction_destination_account_not_found"
            },
            ApiErrorCode::ResourceNotFound => "resource_not_found",
            ApiErrorCode::ApiVersionError => "api_version_error",
            ApiErrorCode::DatabaseError => "database_error",
            ApiErrorCode::RedisError => "redis_error",
        }
    }
}

/// The families of errors.
#[derive(Clone, Copy, Debug, PartialEq, Eq, Structural)]
pub enum ApiErrorKind {
    AuthenticationError,
    ResourceNotFound,
    ValidationError,
    DatabaseError,
    RedisError,
}

impl ApiErrorKind {
    /// The kind in snake case, as it is written in a response.
    pub open spec fn name(self) -> Seq<char> {
        match self {
            ApiErrorKind::AuthenticationError => "authentication_error"@,
            ApiErrorKind::ResourceNotFound => "resource_not_found"@,
            ApiErrorKind::ValidationError => "validation_error"@,
            ApiErrorKind::DatabaseError => "database_error"@,
            ApiErrorKind::RedisError => "redis_error"@,
        }
    }

    /// The kind in snake case, as it is written in a response.
    pub fn as_str(&self) -> (name: &'static str)
        ensures
            name@ == self.name(),
            json_plain(name@),
    {
        proof {
            reveal_strlit("authentication_error");
            reveal_strlit("resource_not_found");
            reveal_strlit("validation_error");
            reveal_strlit("database_error");
            reveal_strlit("redis_error");
        }
        match self {
            ApiErrorKind::AuthenticationError => "authentication_error",
            ApiErrorKind::ResourceNotFound => "resource_not_found",
            ApiErrorKind::ValidationError => "validation_error",
            ApiErrorKind::DatabaseError => "database_error",
            ApiErrorKind::RedisError => "redis_error",
        }
    }
}

/// One named value that an error carries for its reader, such as the id
/// that was not found.
#[derive(Clone, Debug)]
pub struct DetailField {
    pub name: String,
    pub value: String,
}

impl View for DetailField {
    type V = (Seq<char>, Seq<char>);

    open spec fn view(&self) -> (Seq<char>, Seq<char>) {
        (self.name@, self.value@)
    }
}

/// One error of a response.
#[derive(Clone, Debug)]
pub struct ApiErrorEntry {
    pub code: Option<String>,
    pub kind: Option<String>,
    pub message: String,
    pub description: Option<String>,
    pub detail: Option<DetailField>,
    pub reason: Option<String>,
    pub instance: Option<String>,
    pub trace_id: Option<String>,
    /// Microseconds since the Unix epoch.
    pub timestamp: i64,
    pub help: Option<String>,
    pub doc_url: Option<String>,
}

/// What an entry says, as plain text.
pub struct ApiErrorEntryView {
    pub code: Option<Seq<char>>,
    pub kind: Option<Seq<char>>,
    pub message: Seq<char>,
    pub description: Option<Seq<char>>,
    pub detail: Option<(Seq<char>, Seq<char>)>,
    pub reason: Option<Seq<char>>,
    pub instance: Option<Seq<char>>,
    pub trace_id: Option<Seq<char>>,
    pub timestamp: i64,
    pub help: Option<Seq<char>>,
    pub doc_url: Option<Seq<char>>,
}

/// The characters of an optional string.
pub open spec fn text_of(value: Option<String>) -> Option<Seq<char>> {
    match value {
        Some(text) => Some(text@),
        None => None,
    }
}

/// An entry that holds a message and the time it was made, and nothing
/// else.
pub open spec fn blank_entry(message: Seq<char>, timestamp: i64) -> ApiErrorEntryView {
    ApiErrorEntryView {
        code: None,
        kind: None,
        message,
        description: None,
        detail: None,
        reason: None,
        instance: None,
        trace_id: None,
        timestamp,
        help: None,
        doc_url: None,
    }
}

/// The text of a UUID without its hyphens.
pub open spec fn trace_text(id: u128) -> Seq<char> {
    uuid_text(id).filter(|c: char| c != '-')
}

impl View for ApiErrorEntry {
    type V = ApiErrorEntryView;

    open spec fn view(&self) -> ApiErrorEntryView {
        ApiErrorEntryView {
            code: text_of(self.code),
            kind: text_of(self.kind),
            message: self.message@,
            description: text_of(self.description),
            detail: match self.detail {
                Some(field) => Some(field@),
                None => None,
            },
            reason: text_of(self.reason),
            instance: text_of(self.instance),
            trace_id: text_of(self.trace_id),
            timestamp: self.timestamp,
            help: text_of(self.help),
            doc_url: text_of(self.doc_url),
        }
    }
}

/// `text` without its hyphens.
fn without_hyphens(text: &str) -> (stripped: String)
    ensures
        stripped@ == text@.filter(|c: char| c != '-'),
{
    let ghost kept = |c: char| c != '-';
    let mut stripped = String::new();
    let length = text.unicode_len();
    let mut i: usize = 0;
    assert(text@.take(0) =~= Seq::<char>::empty());
    while i < length
        invariant
            length == text@.len(),
            i <= length,
            kept == |c: char| c != '-',
            stripped@ == text@.take(i as int).filter(kept),
        decreases length - i,
    {
        let c = text.get_char(i);
        proof {
            let before = text@.take(i as int);
            assert(text@.take(i + 1) =~= before + seq![c]);
            Seq::filter_distributes_over_add(before, seq![c], kept);
            reveal_with_fuel(Seq::filter, 2);
            assert(seq![c].drop_last() =~= Seq::<char>::empty());
        }
        if c != '-' {
            stripped.push(c);
        }
        i += 1;
    }
    assert(text@.take(i as int) =~= text@);
    stripped
}

impl ApiErrorEntry {
    /// An entry with the message `message`, stamped with the current
    /// time, which is not before the epoch.
    pub fn new(message: &str) -> (entry: ApiErrorEntry)
        ensures
            entry@ == blank_entry(message@, entry.timestamp),
            entry.timestamp >= 0,
    {
        ApiErrorEntry {
            code: None,
            kind: None,
            message: message.to_owned(),
            description: None,
            detail: None,
            reason: None,
            instance: None,
            trace_id: None,
            timestamp: now_micros(),
            help: None,
            doc_url: None,
        }
    }

    /// Sets the code to the JSON text of its name in snake case: the
    /// name between two double quotes.
    pub fn code(self, code: ApiErrorCode) -> (entry: ApiErrorEntry)
        ensures
            entry@ == (ApiErrorEntryView { code: Some(json_quoted(code.name())), ..self@ }),
    {
        let mut entry = self;
        entry.code = json_string(code.as_str());
        entry
    }

    /// Sets the kind to the JSON text of its name in snake case: the
    /// name between two double quotes.
    pub fn kind(self, kind: ApiErrorKind) -> (entry: ApiErrorEntry)
        ensures
            entry@ == (ApiErrorEntryView { kind: Some(json_quoted(kind.name())), ..self@ }),
    {
        let mut entry = self;
        entry.kind = json_string(kind.as_str());
        entry
    }

    /// Sets the description.
    pub fn description(self, description: &str) -> (entry: ApiErrorEntry)
        ensures
            entry@ == (ApiErrorEntryView { description: Some(description@), ..self@ }),
    {
        let mut entry = self;
        entry.description = Some(description.to_owned());
        entry
    }

    /// Sets the detail.
    pub fn detail(self, detail: DetailField) -> (entry: ApiErrorEntry)
        ensures
            entry@ == (ApiErrorEntryView { detail: Some(detail@), ..self@ }),
    {
        let mut entry = self;
        entry.detail = Some(detail);
        entry
    }

    /// Sets the reason.
    pub fn reason(self, reason: &str) -> (entry: ApiErrorEntry)
        ensures
            entry@ == (ApiErrorEntryView { reason: Some(reason@), ..self@ }),
    {
        let mut entry = self;
        entry.reason = Some(reason.to_owned());
        entry
    }

    /// Sets the instance: the path of the request that failed.
    pub fn instance(self, instance: &str) -> (entry: ApiErrorEntry)
        ensures
            entry@ == (ApiErrorEntryView { instance: Some(instance@), ..self@ }),
    {
        let mut entry = self;
        entry.instance = Some(instance.to_owned());
        entry
    }

    /// Sets the trace id to the text, without hyphens, of the UUID with
    /// the value `id`.
    pub fn trace_id_from(self, id: u128) -> (entry: ApiErrorEntry)
        ensures
            entry@ == (ApiErrorEntryView { trace_id: Some(trace_text(id)), ..self@ }),
    {
        let mut entry = self;
        let text = uuid_to_string(id);
        entry.trace_id = Some(without_hyphens(text.as_str()));
        entry
    }

    /// Sets the trace id to that of a freshly drawn UUID.
    pub fn trace_id(self) -> (entry: ApiErrorEntry)
        ensures
            exists|id: u128|
                entry@ == (ApiErrorEntryView { trace_id: Some(#[trigger] trace_text(id)), ..self@ }),
    {
        let id = random_uuid();
        self.trace_id_from(id)
    }

    /// Sets the help text.
    pub fn help(self, help: &str) -> (entry: ApiErrorEntry)
        ensures
            entry@ == (ApiErrorEntryView { help: Some(help@), ..self@ }),
    {
        let mut entry = self;
        entry.help = Some(help.to_owned());
        entry
    }

    /// Sets the address of the documentation.
    pub fn doc_url(self, doc_url: &str) -> (entry: ApiErrorEntry)
        ensures
            entry@ == (ApiErrorEntryView { doc_url: Some(doc_url@), ..self@ }),
    {
        let mut entry = self;
        entry.doc_url = Some(doc_url.to_owned());
        entry
    }
}

/// The answer to a request that failed: an HTTP status and the errors
/// that explain it.
#[derive(Debug)]
pub struct ApiError {
    pub status: u16,
    pub errors: Vec<ApiErrorEntry>,
}

impl From<(u16, Vec<ApiErrorEntry>)> for ApiError {
    /// A status and the errors that explain it.
    fn from(error_from: (u16, Vec<ApiErrorEntry>)) -> (error: ApiError)
        ensures
            error.status == error_from.0,
            error.errors == error_from.1,
    {
        let (status, errors) = error_from;
        ApiError { status, errors }
    }
}

impl vstd::std_specs::convert::FromSpecImpl<(u16, Vec<ApiErrorEntry>)> for ApiError {
    open spec fn obeys_from_spec() -> bool {
        true
    }

    open spec fn from_spec(error_from: (u16, Vec<ApiErrorEntry>)) -> ApiError {
        ApiError { status: error_from.0, errors: error_from.1 }
    }
}

impl From<(u16, ApiErrorEntry)> for ApiError {
    /// A status and the one error that explains it.
    fn from(error_from: (u16, ApiErrorEntry)) -> (error: ApiError)
        ensures
            error.status == error_from.0,
            error.errors@ == seq![error_from.1],
    {
        let (status, error_entry) = error_from;
        ApiError { status, errors: vec![error_entry] }
    }
}

impl vstd::std_specs::convert::FromSpecImpl<(u16, ApiErrorEntry)> for ApiError {
    /// The list of errors is made anew, so the result is stated by
    /// `from` itself.
    open spec fn obeys_from_spec() -> bool {
        false
    }

    open spec fn from_spec(error_from: (u16, ApiErrorEntry)) -> ApiError {
        arbitrary()
    }
}

impl From<u16> for ApiError {
    /// A status without an explanation.
    fn from(status: u16) -> (error: ApiError)
        ensures
            error.status == status,
            error.errors@ == Seq::<ApiErrorEntry>::empty(),
    {
        ApiError { status, errors: Vec::new() }
    }
}

impl vstd::std_specs::convert::FromSpecImpl<u16> for ApiError {
    /// The list of errors is made anew, so the result is stated by
    /// `from` itself.
    open spec fn obeys_from_spec() -> bool {
        false
    }

    open spec fn from_spec(status: u16) -> ApiError {
        arbitrary()
    }
}

/// What the entry made for a failure of the store says, whenever it was
/// made.
pub open spec fn describes_repository_error(entry: ApiErrorEntryView, error: RepositoryError)
    -> bool {
    &&& entry == (ApiErrorEntryView {
        code: Some(json_quoted(ApiErrorCode::DatabaseError.name())),
        kind: Some(json_quoted(ApiErrorKind::DatabaseError.name())),
        description: Some("Database error: "@ + error.message()),
        ..blank_entry(error.message(), entry.timestamp)
    })
    &&& entry.timestamp >= 0
}

impl From<RepositoryError> for ApiErrorEntry {
    /// The entry that reports a failure of the store.
    fn from(e: RepositoryError) -> (entry: ApiErrorEntry)
        ensures
            describes_repository_error(entry@, e),
    {
        let message = e.to_string();
        let mut description = "Database error: ".to_owned();
        description.append(message.as_str());
        ApiErrorEntry::new(message.as_str()).code(ApiErrorCode::DatabaseError).kind(
            ApiErrorKind::DatabaseError,
        ).description(description.as_str())
    }
}

impl vstd::std_specs::convert::FromSpecImpl<RepositoryError> for ApiErrorEntry {
    /// The entry holds the time at which it was made, so the result is
    /// stated by `from` itself.
    open spec fn obeys_from_spec() -> bool {
        false
    }

    open spec fn from_spec(e: RepositoryError) -> ApiErrorEntry {
        arbitrary()
    }
}

impl RepositoryError {
    /// The HTTP status that answers the failure: 404 where a row was not
    /// found, 500 for everything else.
    #[verifier::allow_in_spec]
    pub fn status_code(&self) -> u16
        returns
            (match self {
                RepositoryError::RowNotFound => 404u16,
                RepositoryError::UniqueViolation
                | RepositoryError::CheckViolation
                | RepositoryError::NumericValueOutOfRange
                | RepositoryError::Unavailable => 500u16,
            }),
    {
        match self {
            RepositoryError::RowNotFound => 404,
            RepositoryError::UniqueViolation
            | RepositoryError::CheckViolation
            | RepositoryError::NumericValueOutOfRange
            | RepositoryError::Unavailable => 500,
        }
    }
}

impl From<RepositoryError> for ApiError {
    /// The answer to a request on which the store failed.
    fn from(error: RepositoryError) -> (api_error: ApiError)
        ensures
            api_error.status == error.status_code(),
            api_error.errors@.len() == 1,
            describes_repository_error(api_error.errors@[0]@, error),
    {
        let status = error.status_code();
        ApiError { status, errors: vec![ApiErrorEntry::from(error)] }
    }
}

impl vstd::std_specs::convert::FromSpecImpl<RepositoryError> for ApiError {
    /// The entry holds the time at which it was made, so the result is
    /// stated by `from` itself.
    open spec fn obeys_from_spec() -> bool {
        false
    }

    open spec fn from_spec(error: RepositoryError) -> ApiError {
        arbitrary()
    }
}

impl AuthError {
    /// The HTTP status that answers the error.
    #[verifier::allow_in_spec]
    pub fn status_code(&self) -> u16
        returns
            (match self {
                AuthError::WrongCredentials => 401u16,
                AuthError::MissingCredentials => 400u16,
                AuthError::TokenCreationError => 500u16,
                AuthError::InvalidToken => 400u16,
                AuthError::Forbidden => 403u16,
            }),
    {
        match self {
            AuthError::WrongCredentials => 401,
            AuthError::MissingCredentials => 400,
            AuthError::TokenCreationError => 500,
            AuthError::InvalidToken => 400,
            AuthError::Forbidden => 403,
        }
    }

    /// The code that a response gives for the error.
    #[verifier::allow_in_spec]
    pub fn code(&self) -> ApiErrorCode
        returns
            (match self {
                AuthError::WrongCredentials => ApiErrorCode::AuthWrongCredentials,
                AuthError::MissingCredentials => ApiErrorCode::AuthMissingCredentials,
                AuthError::TokenCreationError => ApiErrorCode::AuthTokenCreationError,
                AuthError::InvalidToken => ApiErrorCode::AuthInvalidToken,
                AuthError::Forbidden => ApiErrorCode::AuthForbidden,
            }),
    {
        match self {
            AuthError::WrongCredentials => ApiErrorCode::AuthWrongCredentials,
            AuthError::MissingCredentials => ApiErrorCode::AuthMissingCredentials,
            AuthError::TokenCreationError => ApiErrorCode::AuthTokenCreationError,
            AuthError::InvalidToken => ApiErrorCode::AuthInvalidToken,
            AuthError::Forbidden => ApiErrorCode::AuthForbidden,
        }
    }
}

/// What the entry made for a caller who was turned away says, whenever
/// it was made.
pub open spec fn describes_auth_error(entry: ApiErrorEntryView, error: AuthError) -> bool {
    &&& entry == (ApiErrorEntryView {
        code: Some(json_quoted(error.code().name())),
        kind: Some(json_quoted(ApiErrorKind::AuthenticationError.name())),
        ..blank_entry(error.message(), entry.timestamp)
    })
    &&& entry.timestamp >= 0
}

impl From<AuthError> for ApiError {
    /// The answer to a caller who was turned away.
    fn from(error: AuthError) -> (api_error: ApiError)
        ensures
            api_error.status == error.status_code(),
            api_error.errors@.len() == 1,
            describes_auth_error(api_error.errors@[0]@, error),
    {
        let message = error.to_string();
        let entry = ApiErrorEntry::new(message.as_str()).code(error.code()).kind(
            ApiErrorKind::AuthenticationError,
        );
        ApiError { status: error.status_code(), errors: vec![entry] }
    }
}

impl vstd::std_specs::convert::FromSpecImpl<AuthError> for ApiError {
    /// The entry holds the time at which it was made, so the result is
    /// stated by `from` itself.
    open spec fn obeys_from_spec() -> bool {
        false
    }

    open spec fn from_spec(error: AuthError) -> ApiError {
        arbitrary()
    }
}

} // verus!
