//! The persisted records: accounts and transactions.

pub mod account;
pub mod transaction;
pub mod user;
