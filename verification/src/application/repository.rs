//! The two tables of the service, each a sequence of rows keyed by id.

use vstd::prelude::*;

pub mod account_repo;
pub mod table;
pub mod transaction_repo;

verus! {

/// Why a table refused an operation.
#[derive(Clone, Copy, Debug, PartialEq, Eq, Structural)]
pub enum RepositoryError {
    /// No row has the id that was asked for.
    RowNotFound,
    /// A row with the same id is already stored.
    UniqueViolation,
    /// The row breaks a rule of its table: an account's balance is negative.
    CheckViolation,
    /// A balance would leave the range of the column.
    NumericValueOutOfRange,
    /// The store could not be asked, or gave up: a connection that
    /// failed, a lock that was not had in time.
    Unavailable,
}

impl RepositoryError {
    /// The sentence that names the error.
    pub open spec fn message(self) -> Seq<char> {
        match self {
            RepositoryError::RowNotFound => {
                "no rows returned by a query that expected to return at least one row"@
            },
            RepositoryError::UniqueViolation => {
                "duplicate key value violates unique constraint"@
            },
            RepositoryError::CheckViolation => "new row violates check constraint"@,
            RepositoryError::NumericValueOutOfRange => "bigint out of range"@,
            RepositoryError::Unavailable => "the store is unavailable"@,
        }
    }

    /// The sentence that names the error.
    pub fn to_string(&self) -> (text: String)
        ensures
            text@ == self.message(),
    {
        match self {
            RepositoryError::RowNotFound => {
                "no rows returned by a query that expected to return at least one row".to_owned()
            },
            RepositoryError::UniqueViolation => {
                "duplicate key value violates unique constraint".to_owned()
            },
            RepositoryError::CheckViolation => "new row violates check constraint".to_owned(),
            RepositoryError::NumericValueOutOfRange => "bigint out of range".to_owned(),
            RepositoryError::Unavailable => "the store is unavailable".to_owned(),
        }
    }
}

pub type RepositoryResult<T> = Result<T, RepositoryError>;

} // verus!
