use axum_web::api::api_version::ApiVersion;
use axum_web::api::auth::{login_handler, revoke_user_handler, LoginUser, RevokeUser};
use axum_web::application::security::jwt_claims::AccessClaims;
use axum_web::domain::user::User;

const USER: u128 = 0xa1a2a3a4_b1b2_c1c2_d1d2_d3d4d5d6d7d8;
const USER_TEXT: &str = "a1a2a3a4-b1b2-c1c2-d1d2-d3d4d5d6d7d8";

fn user(active: bool, roles: &str) -> User {
    User {
        id: USER,
        username: "alice".to_string(),
        email: "alice@email.com".to_string(),
        password_hash: "xyz123".to_string(),
        password_salt: "salt".to_string(),
        active,
        roles: roles.to_string(),
        created_at: None,
        updated_at: None,
    }
}

fn login(password_hash: &str) -> LoginUser {
    LoginUser::new("alice".to_string(), password_hash.to_string())
}

fn claims(sub: &str, roles: &str) -> AccessClaims {
    AccessClaims {
        sub: sub.to_string(),
        jti: "00000000-0000-0000-0000-00000000000b".to_string(),
        iat: 1_700_000_000,
        exp: 1_700_003_600,
        typ: 0,
        roles: roles.to_string(),
    }
}

#[test]
fn login_issues_claims_to_an_active_user_with_the_stored_hash() {
    let (access, refresh) =
        login_handler(ApiVersion::V1, &user(true, "customer"), &login("xyz123"), 3_600, 7_200)
            .unwrap();
    assert_eq!(access.sub, USER_TEXT);
    assert_eq!(access.roles, "customer");
    assert_eq!(access.typ, 0);
    assert_eq!(access.exp, access.iat + 3_600);
    assert_eq!(refresh.sub, USER_TEXT);
    assert_eq!(refresh.typ, 1);
    assert_eq!(refresh.exp, refresh.iat + 7_200);
    assert_eq!(refresh.prf, access.jti);
    assert_eq!(refresh.pex, access.exp);
    assert_eq!(login("xyz123").username(), "alice");
}

#[test]
fn login_turns_away_a_wrong_hash_and_an_inactive_user() {
    let wrong_hash =
        login_handler(ApiVersion::V1, &user(true, "customer"), &login("xyz1231"), 3_600, 7_200)
            .unwrap_err();
    assert_eq!(wrong_hash.status, 401);
    assert_eq!(wrong_hash.errors.len(), 1);
    assert_eq!(wrong_hash.errors[0].message, "wrong credentials");
    assert_eq!(wrong_hash.errors[0].code, Some("\"auth_wrong_credentials\"".to_string()));
    assert_eq!(wrong_hash.errors[0].kind, Some("\"authentication_error\"".to_string()));

    let empty = login_handler(ApiVersion::V1, &user(true, "admin"), &login(""), 3_600, 7_200);
    assert_eq!(empty.unwrap_err().status, 401);

    let inactive =
        login_handler(ApiVersion::V1, &user(false, "admin"), &login("xyz123"), 3_600, 7_200);
    assert_eq!(inactive.unwrap_err().status, 401);
}

#[test]
fn login_reports_claims_that_cannot_be_made() {
    let failed =
        login_handler(ApiVersion::V1, &user(true, "customer"), &login("xyz123"), i64::MAX, 7_200)
            .unwrap_err();
    assert_eq!(failed.status, 500);
    assert_eq!(failed.errors[0].message, "token creation error");
    assert_eq!(failed.errors[0].code, Some("\"auth_token_creation_error\"".to_string()));
}

#[test]
fn users_may_revoke_their_own_tokens_and_administrators_all() {
    let own = revoke_user_handler(
        ApiVersion::V1,
        &claims(USER_TEXT, "customer"),
        RevokeUser { user_id: USER },
    );
    assert!(own.is_ok());
    let administrator = revoke_user_handler(
        ApiVersion::V1,
        &claims("00000000-0000-0000-0000-00000000000a", "customer,admin"),
        RevokeUser { user_id: USER },
    );
    assert!(administrator.is_ok());
    let other = revoke_user_handler(
        ApiVersion::V1,
        &claims("00000000-0000-0000-0000-00000000000a", "customer"),
        RevokeUser { user_id: USER },
    )
    .unwrap_err();
    assert_eq!(other.status, 401);
    assert_eq!(other.errors[0].message, "wrong credentials");
    let upper_case = revoke_user_handler(
        ApiVersion::V1,
        &claims("A1A2A3A4-B1B2-C1C2-D1D2-D3D4D5D6D7D8", "customer"),
        RevokeUser { user_id: USER },
    );
    assert_eq!(upper_case.unwrap_err().status, 401);
}
