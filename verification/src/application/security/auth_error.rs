use vstd::prelude::*;

verus! {

/// Why a caller was turned away.
#[derive(Clone, Copy, Debug, PartialEq, Eq, Structural)]
pub enum AuthError {
    WrongCredentials,
    MissingCredentials,
    TokenCreationError,
    InvalidToken,
    Forbidden,
}

impl AuthError {
    /// The sentence that names the error.
    pub open spec fn message(self) -> Seq<char> {
        match self {
            AuthError::WrongCredentials => "wrong credentials"@,
            AuthError::MissingCredentials => "missing credentials"@,
            AuthError::TokenCreationError => "token creation error"@,
            AuthError::InvalidToken => "invalid token"@,
            AuthError::Forbidden => "forbidden"@,
        }
    }

    /// The sentence that names the error.
    pub fn to_string(&self) -> (text: String)
        ensures
            text@ == self.message(),
    {
        match self {
            AuthError::WrongCredentials => "wrong credentials".to_owned(),
            AuthError::MissingCredentials => "missing credentials".to_owned(),
            AuthError::TokenCreationError => "token creation error".to_owned(),
            AuthError::InvalidToken => "invalid token".to_owned(),
            AuthError::Forbidden => "forbidden".to_owned(),
        }
    }
}

} // verus!
