use vstd::prelude::*;

use crate::application::security::auth_error::AuthError;
use crate::application::security::roles::{contains_role_admin, names_admin};

verus! {

/// The claims of an access token.
#[derive(Debug)]
pub struct AccessClaims {
    /// Subject.
    pub sub: String,
    /// JWT ID.
    pub jti: String,
    /// Issued time.
    pub iat: usize,
    /// Expiration time.
    pub exp: usize,
    /// Token type.
    pub typ: u8,
    /// Roles.
    pub roles: String,
}

/// The claims of a refresh token.
#[derive(Debug)]
pub struct RefreshClaims {
    /// Subject.
    pub sub: String,
    /// JWT ID.
    pub jti: String,
    /// Issued time.
    pub iat: usize,
    /// Expiration time.
    pub exp: usize,
    /// Reference to paired access token,
    pub prf: String,
    /// Expiration time of paired access token,
    pub pex: usize,
    /// Token type.
    pub typ: u8,
    /// Roles.
    pub roles: String,
}

/// The kinds of token, as the claim `typ` numbers them.
#[derive(Debug, Clone, Copy, PartialEq, Eq, Structural)]
pub enum JwtTokenType {
    AccessToken,
    RefreshToken,
    UnknownToken,
}

impl JwtTokenType {
    /// The number that stands for the kind in the claim `typ`.
    #[verifier::allow_in_spec]
    pub fn code(&self) -> u8
        returns
            (match self {
                JwtTokenType::AccessToken => 0u8,
                JwtTokenType::RefreshToken => 1u8,
                JwtTokenType::UnknownToken => 2u8,
            }),
    {
        match self {
            JwtTokenType::AccessToken => 0,
            JwtTokenType::RefreshToken => 1,
            JwtTokenType::UnknownToken => 2,
        }
    }
}

impl From<u8> for JwtTokenType {
    fn from(value: u8) -> (kind: JwtTokenType) {
        match value {
            0 => JwtTokenType::AccessToken,
            1 => JwtTokenType::RefreshToken,
            _ => JwtTokenType::UnknownToken,
        }
    }
}

impl vstd::std_specs::convert::FromSpecImpl<u8> for JwtTokenType {
    open spec fn obeys_from_spec() -> bool {
        true
    }

    /// The kind that the number stands for; every number but 0 and 1 is
    /// an unknown kind.
    open spec fn from_spec(value: u8) -> JwtTokenType {
        match value {
            0 => JwtTokenType::AccessToken,
            1 => JwtTokenType::RefreshToken,
            _ => JwtTokenType::UnknownToken,
        }
    }
}

/// Of the claims of a token, what tells who holds it and what the holder
/// may do.
pub struct Identity {
    pub sub: Seq<char>,
    pub jti: Seq<char>,
    pub iat: usize,
    pub exp: usize,
    pub roles: Seq<char>,
}

/// What the check for an administrator answers on the roles `roles`.
pub open spec fn admin_check(roles: Seq<char>) -> Result<(), AuthError> {
    if names_admin(roles) {
        Ok(())
    } else {
        Err(AuthError::WrongCredentials)
    }
}

/// What every kind of claims can say of its holder.
pub trait ClaimsMethods {
    /// The holder as the claims name it.
    spec fn identity(&self) -> Identity;

    /// Passes where the holder is an administrator.
    fn validate_role_admin(&self) -> (result: Result<(), AuthError>)
        ensures
            result == admin_check(self.identity().roles),
    ;

    fn get_sub(&self) -> (sub: &str)
        ensures
            sub@ == self.identity().sub,
    ;

    fn get_exp(&self) -> (exp: usize)
        ensures
            exp == self.identity().exp,
    ;

    fn get_iat(&self) -> (iat: usize)
        ensures
            iat == self.identity().iat,
    ;

    fn get_jti(&self) -> (jti: &str)
        ensures
            jti@ == self.identity().jti,
    ;
}

impl ClaimsMethods for AccessClaims {
    open spec fn identity(&self) -> Identity {
        Identity {
            sub: self.sub@,
            jti: self.jti@,
            iat: self.iat,
            exp: self.exp,
            roles: self.roles@,
        }
    }

    fn validate_role_admin(&self) -> (result: Result<(), AuthError>) {
        is_role_admin(self.roles.as_str())
    }

    fn get_sub(&self) -> (sub: &str) {
        self.sub.as_str()
    }

    fn get_iat(&self) -> (iat: usize) {
        self.iat
    }

    fn get_exp(&self) -> (exp: usize) {
        self.exp
    }

    fn get_jti(&self) -> (jti: &str) {
        self.jti.as_str()
    }
}

impl ClaimsMethods for RefreshClaims {
    open spec fn identity(&self) -> Identity {
        Identity {
            sub: self.sub@,
            jti: self.jti@,
            iat: self.iat,
            exp: self.exp,
            roles: self.roles@,
        }
    }

    fn validate_role_admin(&self) -> (result: Result<(), AuthError>) {
        is_role_admin(self.roles.as_str())
    }

    fn get_sub(&self) -> (sub: &str) {
        self.sub.as_str()
    }

    fn get_iat(&self) -> (iat: usize) {
        self.iat
    }

    fn get_exp(&self) -> (exp: usize) {
        self.exp
    }

    fn get_jti(&self) -> (jti: &str) {
        self.jti.as_str()
    }
}

/// Passes where the comma-separated list `roles` names the role `admin`;
/// else the caller has the wrong credentials.
pub fn is_role_admin(roles: &str) -> (result: Result<(), AuthError>)
    ensures
        result == admin_check(roles@),
{
    if !contains_role_admin(roles) {
        return Err(AuthError::WrongCredentials);
    }
    Ok(())
}

} // verus!
