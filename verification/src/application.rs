//! The rules of the service: storage, the transfer of funds, and the
//! claims that gate access to them.

pub mod repository;
pub mod security;
pub mod service;
pub mod state;
