use vstd::prelude::*;

use crate::api::api_error::ApiError;
use crate::api::api_version::ApiVersion;
use crate::application::security::auth_error::AuthError;
use crate::application::security::jwt_auth::{
    always_claimable, claims_issued_now, generate_claims, is_auth_error,
};
use crate::application::security::jwt_claims::{
    admin_check, AccessClaims, ClaimsMethods, RefreshClaims,
};
use crate::domain::user::User;
use crate::infrastructure::ids::{uuid_text, uuid_to_string};

verus! {

/// The credentials with which a user signs in.
#[derive(Debug)]
pub struct LoginUser {
    username: String,
    password_hash: String,
}

impl LoginUser {
    /// The name given.
    pub closed spec fn name(&self) -> Seq<char> {
        self.username@
    }

    /// The hash given.
    pub closed spec fn hash(&self) -> Seq<char> {
        self.password_hash@
    }

    /// The credentials of the user `username`.
    pub fn new(username: String, password_hash: String) -> (login: LoginUser)
        ensures
            login.name() == username@,
            login.hash() == password_hash@,
    {
        LoginUser { username, password_hash }
    }

    /// The name of the user who signs in.
    pub fn username(&self) -> (username: &str)
        ensures
            username@ == self.name(),
    {
        self.username.as_str()
    }
}

/// The user whose tokens are to be revoked.
#[derive(Debug, Clone, Copy, PartialEq, Eq, Structural)]
pub struct RevokeUser {
    pub user_id: u128,
}

/// Whether `login` holds the credentials of `user`: the user is active
/// and the hash given is the hash stored.
pub open spec fn access_granted(user: &User, login: &LoginUser) -> bool {
    user.active && user.password_hash@ == login.hash()
}

/// Signs in the user that was found under the name of `login`.
///
/// Turns the caller away with wrong credentials unless the user is
/// active and the hash given is the hash stored. Otherwise the answer is
/// a pair of claims issued to the user now, under two freshly drawn ids,
/// or a token creation error where a time of expiry cannot stand in a
/// claim; the claims are issued whenever both lives are such that a
/// token can be issued at every time.
pub fn login_handler(
    _api_version: ApiVersion,
    user: &User,
    login: &LoginUser,
    expire_access_seconds: i64,
    expire_refresh_seconds: i64,
) -> (result: Result<(AccessClaims, RefreshClaims), ApiError>)
    ensures
        !access_granted(user, login) ==> (result matches Err(error) && is_auth_error(
            error,
            AuthError::WrongCredentials,
        )),
        access_granted(user, login) ==> match result {
            Ok(claims) => claims_issued_now(
                claims,
                user.id,
                user.roles@,
                expire_access_seconds,
                expire_refresh_seconds,
            ),
            Err(error) => is_auth_error(error, AuthError::TokenCreationError),
        },
        access_granted(user, login) && always_claimable(expire_access_seconds)
            && always_claimable(expire_refresh_seconds) ==> result is Ok,
{
    if !(user.active && user.password_hash == login.password_hash) {
        return Err(ApiError::from(AuthError::WrongCredentials));
    }
    let issued = generate_claims(
        user.id,
        user.roles.as_str(),
        expire_access_seconds,
        expire_refresh_seconds,
    );
    match issued {
        Ok(claims) => Ok(claims),
        Err(error) => Err(ApiError::from(error)),
    }
}

/// Whether a caller with the subject `subject` and the roles `roles` may
/// revoke the tokens of the user `user_id`: users may revoke their own,
/// and an administrator those of everyone.
pub open spec fn may_revoke(subject: Seq<char>, roles: Seq<char>, user_id: u128) -> bool {
    subject == uuid_text(user_id) || admin_check(roles) is Ok
}

/// Lets through the caller who may revoke the tokens of the user named
/// in `revoke_user`, and turns everyone else away with wrong
/// credentials.
pub fn revoke_user_handler(
    _api_version: ApiVersion,
    access_claims: &AccessClaims,
    revoke_user: RevokeUser,
) -> (result: Result<(), ApiError>)
    ensures
        may_revoke(access_claims.sub@, access_claims.roles@, revoke_user.user_id) ==> result is Ok,
        !may_revoke(access_claims.sub@, access_claims.roles@, revoke_user.user_id) ==> (
        result matches Err(error) && is_auth_error(error, AuthError::WrongCredentials)),
{
    let user_id = uuid_to_string(revoke_user.user_id);
    if access_claims.sub != user_id {
        // Only admin can revoke tokens of other users.
        match access_claims.validate_role_admin() {
            Ok(_) => {},
            Err(error) => {
                return Err(ApiError::from(error));
            },
        }
    }
    Ok(())
}

} // verus!
