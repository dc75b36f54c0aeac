//! What the service answers: the operations on transactions and the
//! shape of its errors.

pub mod accounts;
pub mod api_error;
pub mod api_version;
pub mod auth;
pub mod transactions;
