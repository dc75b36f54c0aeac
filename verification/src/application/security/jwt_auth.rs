use vstd::prelude::*;

use crate::api::api_error::{describes_auth_error, ApiError, ApiErrorEntry};
use crate::application::security::auth_error::AuthError;
use crate::application::security::jwt_claims::{AccessClaims, JwtTokenType, RefreshClaims};
use crate::infrastructure::clock::now_micros;
use crate::infrastructure::ids::{random_uuid, uuid_text, uuid_to_string};

verus! {

/// Whether `error` is the answer to a caller turned away for `reason`:
/// the status of the reason and one entry that names it.
pub open spec fn is_auth_error(error: ApiError, reason: AuthError) -> bool {
    &&& error.status == reason.status_code()
    &&& error.errors@.len() == 1
    &&& describes_auth_error(error.errors@[0]@, reason)
}

/// Whether `error` is the bare status `status`, without an entry.
pub open spec fn is_bare_status(error: ApiError, status: u16) -> bool {
    &&& error.status == status
    &&& error.errors@ == Seq::<ApiErrorEntry>::empty()
}

/// Whether the claims are those of a token of the kind `expected_type`.
pub fn validate_token_type(claims: &RefreshClaims, expected_type: JwtTokenType) -> (valid: bool)
    ensures
        valid == (claims.typ == expected_type.code()),
{
    claims.typ == expected_type.code()
}

/// What the list of revoked tokens says of a token: passes where the
/// token is not on it (`Some(false)`), turns the caller away with wrong
/// credentials where it is (`Some(true)`), and answers 500 where the list
/// could not be read (`None`).
pub fn validate_revoked(revoked: Option<bool>) -> (result: Result<(), ApiError>)
    ensures
        match revoked {
            Some(false) => result is Ok,
            Some(true) => result matches Err(error) && is_auth_error(
                error,
                AuthError::WrongCredentials,
            ),
            None => result matches Err(error) && is_bare_status(error, 500),
        },
{
    match revoked {
        Some(revoked) => {
            if revoked {
                return Err(ApiError::from(AuthError::WrongCredentials));
            }
        },
        None => {
            return Err(ApiError::from(500u16));
        },
    }
    Ok(())
}

/// Whether the holder of `refresh_claims` may sign out: answers 406
/// where the service keeps no list of revoked tokens, and an invalid
/// token where the claims are not those of a refresh token.
pub fn logout(refresh_claims: &RefreshClaims, revoked_tokens_enabled: bool) -> (result: Result<
    (),
    ApiError,
>)
    ensures
        if !revoked_tokens_enabled {
            result matches Err(error) && is_bare_status(error, 406)
        } else if refresh_claims.typ != JwtTokenType::RefreshToken.code() {
            result matches Err(error) && is_auth_error(error, AuthError::InvalidToken)
        } else {
            result is Ok
        },
{
    // Checking the configuration if the usage of the list of revoked tokens is enabled.
    if revoked_tokens_enabled {
        // Validate the refresh token.
        if !validate_token_type(refresh_claims, JwtTokenType::RefreshToken) {
            return Err(ApiError::from(AuthError::InvalidToken));
        }
        Ok(())
    } else {
        Err(ApiError::from(406u16))
    }
}

/// Whether the holder of `refresh_claims` may have new tokens: the
/// claims must be those of a refresh token.
pub fn refresh(refresh_claims: &RefreshClaims) -> (result: Result<(), ApiError>)
    ensures
        if refresh_claims.typ != JwtTokenType::RefreshToken.code() {
            result matches Err(error) && is_auth_error(error, AuthError::InvalidToken)
        } else {
            result is Ok
        },
{
    if !validate_token_type(refresh_claims, JwtTokenType::RefreshToken) {
        return Err(ApiError::from(AuthError::InvalidToken));
    }
    Ok(())
}

/// The answer to a clean-up of the list of revoked tokens: 406 where the
/// service keeps no such list, 500 where the clean-up failed (`None`),
/// else the number of tokens that were taken off the list.
pub fn cleanup_revoked_and_expired(revoked_tokens_enabled: bool, deleted: Option<usize>) -> (result:
    Result<usize, ApiError>)
    ensures
        if !revoked_tokens_enabled {
            result matches Err(error) && is_bare_status(error, 406)
        } else {
            match deleted {
                Some(count) => result == Ok::<usize, ApiError>(count),
                None => result matches Err(error) && is_bare_status(error, 500),
            }
        },
{
    if !revoked_tokens_enabled {
        return Err(ApiError::from(406u16));
    }
    if let Some(deleted) = deleted {
        return Ok(deleted);
    }
    Err(ApiError::from(500u16))
}

/// Whether a time in seconds can stand in a claim: it is not negative
/// and fits the claim's type.
pub open spec fn claimable(seconds: int) -> bool {
    0 <= seconds <= i64::MAX && seconds <= usize::MAX
}

/// Whether `access` and `refresh` are the claims issued at the time
/// `now`, in seconds, to the user `user_id` with the roles `roles`: the
/// access token has the id `access_token_id` and expires
/// `expire_access_seconds` after `now`; the refresh token has the id
/// `refresh_token_id`, expires `expire_refresh_seconds` after `now` and
/// names the access token it was issued with.
pub open spec fn claims_issued(
    access: AccessClaims,
    refresh: RefreshClaims,
    user_id: u128,
    roles: Seq<char>,
    now: i64,
    access_token_id: u128,
    refresh_token_id: u128,
    expire_access_seconds: i64,
    expire_refresh_seconds: i64,
) -> bool {
    &&& access.sub@ == uuid_text(user_id)
    &&& access.jti@ == uuid_text(access_token_id)
    &&& access.iat == now
    &&& access.exp == now + expire_access_seconds
    &&& access.typ == JwtTokenType::AccessToken.code()
    &&& access.roles@ == roles
    &&& refresh.sub@ == uuid_text(user_id)
    &&& refresh.jti@ == uuid_text(refresh_token_id)
    &&& refresh.iat == now
    &&& refresh.exp == now + expire_refresh_seconds
    &&& refresh.prf@ == uuid_text(access_token_id)
    &&& refresh.pex == now + expire_access_seconds
    &&& refresh.typ == JwtTokenType::RefreshToken.code()
    &&& refresh.roles@ == roles
}

/// The latest time, in seconds since the epoch, that the clock can show.
pub open spec fn latest_seconds() -> int {
    i64::MAX / 1_000_000
}

/// Whether a token that lives `expire_seconds` can be issued at every
/// time that the clock can show: the life is not negative, and its end
/// can stand in a claim even at the latest time.
pub open spec fn always_claimable(expire_seconds: i64) -> bool {
    0 <= expire_seconds && claimable(latest_seconds() + expire_seconds)
}

/// Whether `claims` are the access and the refresh claims issued to the
/// user `user_id` at some time that the clock can show, under some two
/// ids.
pub open spec fn claims_issued_now(
    claims: (AccessClaims, RefreshClaims),
    user_id: u128,
    roles: Seq<char>,
    expire_access_seconds: i64,
    expire_refresh_seconds: i64,
) -> bool {
    exists|now: i64, access_token_id: u128, refresh_token_id: u128|
        0 <= now <= latest_seconds() && #[trigger] claims_issued(
            claims.0,
            claims.1,
            user_id,
            roles,
            now,
            access_token_id,
            refresh_token_id,
            expire_access_seconds,
            expire_refresh_seconds,
        )
}

/// `seconds` as the value of a claim, where it can stand in one.
fn claim_seconds(seconds: Option<i64>) -> (claim: Option<usize>)
    ensures
        match seconds {
            Some(value) => if claimable(value as int) {
                claim == Some(value as usize)
            } else {
                claim is None
            },
            None => claim is None,
        },
{
    match seconds {
        Some(value) => {
            if value < 0 {
                return None;
            }
            let wide = value as u64;
            if wide > usize::MAX as u64 {
                return None;
            }
            Some(wide as usize)
        },
        None => None,
    }
}

/// The claims of a pair of tokens issued at the time `now`, in seconds
/// since the Unix epoch.
///
/// Fails with `TokenCreationError` where the time of issue or one of the
/// two times of expiry cannot stand in a claim.
pub fn generate_claims_at(
    user_id: u128,
    roles: &str,
    now: i64,
    access_token_id: u128,
    refresh_token_id: u128,
    expire_access_seconds: i64,
    expire_refresh_seconds: i64,
) -> (result: Result<(AccessClaims, RefreshClaims), AuthError>)
    ensures
        if claimable(now as int) && claimable(now + expire_access_seconds) && claimable(
            now + expire_refresh_seconds,
        ) {
            result matches Ok((access, refresh)) && claims_issued(
                access,
                refresh,
                user_id,
                roles@,
                now,
                access_token_id,
                refresh_token_id,
                expire_access_seconds,
                expire_refresh_seconds,
            )
        } else {
            result == Err::<(AccessClaims, RefreshClaims), AuthError>(
                AuthError::TokenCreationError,
            )
        },
{
    let iat = match claim_seconds(Some(now)) {
        Some(iat) => iat,
        None => {
            return Err(AuthError::TokenCreationError);
        },
    };
    let access_token_exp = match claim_seconds(now.checked_add(expire_access_seconds)) {
        Some(exp) => exp,
        None => {
            return Err(AuthError::TokenCreationError);
        },
    };
    let refresh_token_exp = match claim_seconds(now.checked_add(expire_refresh_seconds)) {
        Some(exp) => exp,
        None => {
            return Err(AuthError::TokenCreationError);
        },
    };
    let access_claims = AccessClaims {
        sub: uuid_to_string(user_id),
        jti: uuid_to_string(access_token_id),
        iat,
        exp: access_token_exp,
        typ: JwtTokenType::AccessToken.code(),
        roles: roles.to_owned(),
    };
    let refresh_claims = RefreshClaims {
        sub: uuid_to_string(user_id),
        jti: uuid_to_string(refresh_token_id),
        iat,
        exp: refresh_token_exp,
        prf: uuid_to_string(access_token_id),
        pex: access_token_exp,
        typ: JwtTokenType::RefreshToken.code(),
        roles: roles.to_owned(),
    };
    Ok((access_claims, refresh_claims))
}

/// The claims of a pair of tokens issued now to the user `user_id`, each
/// token under a freshly drawn id: what `generate_claims_at` returns for
/// some time of issue that the clock can show and some two ids.
///
/// The claims are issued whenever both lives are such that a token can
/// be issued at every time; a token creation error is the only failure.
pub fn generate_claims(
    user_id: u128,
    roles: &str,
    expire_access_seconds: i64,
    expire_refresh_seconds: i64,
) -> (result: Result<(AccessClaims, RefreshClaims), AuthError>)
    ensures
        match result {
            Ok(claims) => claims_issued_now(
                claims,
                user_id,
                roles@,
                expire_access_seconds,
                expire_refresh_seconds,
            ),
            Err(error) => error == AuthError::TokenCreationError,
        },
        always_claimable(expire_access_seconds) && always_claimable(expire_refresh_seconds)
            ==> result is Ok,
{
    let now = now_micros() / 1_000_000;
    let access_token_id = random_uuid();
    let refresh_token_id = random_uuid();
    let result = generate_claims_at(
        user_id,
        roles,
        now,
        access_token_id,
        refresh_token_id,
        expire_access_seconds,
        expire_refresh_seconds,
    );
    proof {
        if result is Ok {
            let claims = result->Ok_0;
            assert(claims_issued(
                claims.0,
                claims.1,
                user_id,
                roles@,
                now,
                access_token_id,
                refresh_token_id,
                expire_access_seconds,
                expire_refresh_seconds,
            ));
        }
    }
    result
}

} // verus!
