//! The operations that change balances.

pub mod transaction_service;
