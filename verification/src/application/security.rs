//! Who may call the service: the claims of a token and what they allow.

pub mod auth_error;
pub mod jwt_auth;
pub mod jwt_claims;
pub mod roles;
