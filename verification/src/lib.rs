//! Funds transfer engine: accounts, an append-only ledger of
//! transactions, and the validated, atomic movement of money between two
//! accounts.
//!
//! - [`domain`] holds the rows: accounts, transactions and users.
//! - [`application::repository`] holds the two tables, each a sequence of
//!   rows that is read as a map from id to row.
//! - [`application::service`] holds the transfer itself and what is
//!   proved of it: funds are conserved, debit and credit are exact, no
//!   balance becomes negative, and a transfer that fails changes nothing.
//! - [`application::security`] holds the claims of a caller and the check
//!   for an administrator.
//! - [`api`] holds the operations as the service answers them and the
//!   shape of its errors.
//! - [`infrastructure`] holds the calls to the clock, to the generator of
//!   UUIDs and to the JSON serialiser; their contracts are trusted.

pub mod api;
pub mod application;
pub mod domain;
pub mod infrastructure;
