use axum_web::application::security::auth_error::AuthError;
use axum_web::application::security::jwt_auth::{
    cleanup_revoked_and_expired, generate_claims, generate_claims_at, logout, refresh,
    validate_revoked, validate_token_type,
};
use axum_web::application::security::jwt_claims::{
    is_role_admin, AccessClaims, ClaimsMethods, JwtTokenType, RefreshClaims,
};
use axum_web::application::security::roles::contains_role_admin;

const USER: u128 = 0xa1a2a3a4_b1b2_c1c2_d1d2_d3d4d5d6d7d8;
const USER_TEXT: &str = "a1a2a3a4-b1b2-c1c2-d1d2-d3d4d5d6d7d8";

fn access_claims(roles: &str) -> AccessClaims {
    AccessClaims {
        sub: USER_TEXT.to_string(),
        jti: "token-1".to_string(),
        iat: 1_000,
        exp: 2_000,
        typ: 0,
        roles: roles.to_string(),
    }
}

fn refresh_claims(typ: u8, roles: &str) -> RefreshClaims {
    RefreshClaims {
        sub: USER_TEXT.to_string(),
        jti: "token-2".to_string(),
        iat: 1_000,
        exp: 9_000,
        prf: "token-1".to_string(),
        pex: 2_000,
        typ,
        roles: roles.to_string(),
    }
}

#[test]
fn admin_is_found_among_the_roles() {
    assert!(contains_role_admin("admin"));
    assert!(contains_role_admin("admin,customer"));
    assert!(contains_role_admin("customer,admin"));
    assert!(contains_role_admin("customer,admin,guest"));
    assert!(contains_role_admin(",admin"));
    assert!(contains_role_admin("admin,"));
    assert!(contains_role_admin("admin,admin"));
}

#[test]
fn admin_is_not_found_where_no_item_is_admin() {
    assert!(!contains_role_admin(""));
    assert!(!contains_role_admin(","));
    assert!(!contains_role_admin("customer"));
    assert!(!contains_role_admin("customer,guest"));
    assert!(!contains_role_admin("administrator"));
    assert!(!contains_role_admin("superadmin"));
    assert!(!contains_role_admin("admi"));
    assert!(!contains_role_admin("Admin"));
    assert!(!contains_role_admin("ADMIN"));
    assert!(!contains_role_admin(" admin"));
    assert!(!contains_role_admin("admin "));
    assert!(!contains_role_admin("customer, admin"));
    assert!(!contains_role_admin("admin;customer"));
    assert!(!contains_role_admin("adm,in"));
    assert!(!contains_role_admin("\u{e4}dmin"));
    assert!(!contains_role_admin("kunde,\u{e4}dmin,gast"));
}

#[test]
fn is_role_admin_turns_others_away() {
    assert_eq!(is_role_admin("admin"), Ok(()));
    assert_eq!(is_role_admin("guest,admin"), Ok(()));
    assert_eq!(is_role_admin("customer"), Err(AuthError::WrongCredentials));
    assert_eq!(is_role_admin(""), Err(AuthError::WrongCredentials));
}

#[test]
fn claims_say_who_holds_them() {
    let access = access_claims("admin");
    assert_eq!(access.validate_role_admin(), Ok(()));
    assert_eq!(access.get_sub(), USER_TEXT);
    assert_eq!(access.get_jti(), "token-1");
    assert_eq!(access.get_iat(), 1_000);
    assert_eq!(access.get_exp(), 2_000);
    let refresh = refresh_claims(1, "customer");
    assert_eq!(refresh.validate_role_admin(), Err(AuthError::WrongCredentials));
    assert_eq!(refresh.get_sub(), USER_TEXT);
    assert_eq!(refresh.get_jti(), "token-2");
    assert_eq!(refresh.get_iat(), 1_000);
    assert_eq!(refresh.get_exp(), 9_000);
    assert_eq!(access_claims("guest").validate_role_admin(), Err(AuthError::WrongCredentials));
    assert_eq!(refresh_claims(1, "guest,admin").validate_role_admin(), Ok(()));
}

#[test]
fn token_types_are_numbered() {
    assert_eq!(JwtTokenType::AccessToken.code(), 0);
    assert_eq!(JwtTokenType::RefreshToken.code(), 1);
    assert_eq!(JwtTokenType::UnknownToken.code(), 2);
    assert_eq!(JwtTokenType::from(0), JwtTokenType::AccessToken);
    assert_eq!(JwtTokenType::from(1), JwtTokenType::RefreshToken);
    assert_eq!(JwtTokenType::from(2), JwtTokenType::UnknownToken);
    assert_eq!(JwtTokenType::from(3), JwtTokenType::UnknownToken);
    assert_eq!(JwtTokenType::from(255), JwtTokenType::UnknownToken);
}

#[test]
fn validate_token_type_compares_the_number() {
    assert!(validate_token_type(&refresh_claims(1, ""), JwtTokenType::RefreshToken));
    assert!(!validate_token_type(&refresh_claims(0, ""), JwtTokenType::RefreshToken));
    assert!(validate_token_type(&refresh_claims(0, ""), JwtTokenType::AccessToken));
    assert!(!validate_token_type(&refresh_claims(1, ""), JwtTokenType::AccessToken));
    assert!(validate_token_type(&refresh_claims(2, ""), JwtTokenType::UnknownToken));
    assert!(!validate_token_type(&refresh_claims(7, ""), JwtTokenType::UnknownToken));
}

#[test]
fn validate_revoked_reads_the_answer_of_the_list() {
    assert!(validate_revoked(Some(false)).is_ok());
    let revoked = validate_revoked(Some(true)).unwrap_err();
    assert_eq!(revoked.status, 401);
    assert_eq!(revoked.errors.len(), 1);
    assert_eq!(revoked.errors[0].message, "wrong credentials");
    assert_eq!(revoked.errors[0].code, Some("\"auth_wrong_credentials\"".to_string()));
    let unreadable = validate_revoked(None).unwrap_err();
    assert_eq!(unreadable.status, 500);
    assert!(unreadable.errors.is_empty());
}

#[test]
fn logout_needs_the_list_and_a_refresh_token() {
    assert!(logout(&refresh_claims(1, "customer"), true).is_ok());
    let disabled = logout(&refresh_claims(1, "customer"), false).unwrap_err();
    assert_eq!(disabled.status, 406);
    assert!(disabled.errors.is_empty());
    let disabled = logout(&refresh_claims(0, "customer"), false).unwrap_err();
    assert_eq!(disabled.status, 406);
    let wrong_kind = logout(&refresh_claims(0, "customer"), true).unwrap_err();
    assert_eq!(wrong_kind.status, 400);
    assert_eq!(wrong_kind.errors.len(), 1);
    assert_eq!(wrong_kind.errors[0].message, "invalid token");
    assert_eq!(wrong_kind.errors[0].code, Some("\"auth_invalid_token\"".to_string()));
}

#[test]
fn refresh_needs_a_refresh_token() {
    assert!(refresh(&refresh_claims(1, "customer")).is_ok());
    let wrong_kind = refresh(&refresh_claims(0, "customer")).unwrap_err();
    assert_eq!(wrong_kind.status, 400);
    assert_eq!(wrong_kind.errors[0].message, "invalid token");
    assert!(refresh(&refresh_claims(2, "admin")).is_err());
}

#[test]
fn cleanup_reports_the_count() {
    assert_eq!(cleanup_revoked_and_expired(true, Some(3)).unwrap(), 3);
    assert_eq!(cleanup_revoked_and_expired(true, Some(0)).unwrap(), 0);
    assert_eq!(cleanup_revoked_and_expired(true, None).unwrap_err().status, 500);
    assert_eq!(cleanup_revoked_and_expired(false, Some(3)).unwrap_err().status, 406);
    assert_eq!(cleanup_revoked_and_expired(false, None).unwrap_err().status, 406);
}

#[test]
fn generate_claims_at_pairs_the_two_tokens() {
    let (access, refresh) =
        generate_claims_at(USER, "customer", 1_700_000_000, 1, 2, 3_600, 7_776_000).unwrap();
    assert_eq!(access.sub, USER_TEXT);
    assert_eq!(access.jti, "00000000-0000-0000-0000-000000000001");
    assert_eq!(access.iat, 1_700_000_000);
    assert_eq!(access.exp, 1_700_003_600);
    assert_eq!(access.typ, 0);
    assert_eq!(access.roles, "customer");
    assert_eq!(refresh.sub, USER_TEXT);
    assert_eq!(refresh.jti, "00000000-0000-0000-0000-000000000002");
    assert_eq!(refresh.iat, 1_700_000_000);
    assert_eq!(refresh.exp, 1_707_776_000);
    assert_eq!(refresh.prf, "00000000-0000-0000-0000-000000000001");
    assert_eq!(refresh.pex, 1_700_003_600);
    assert_eq!(refresh.typ, 1);
    assert_eq!(refresh.roles, "customer");
    assert!(validate_token_type(&refresh, JwtTokenType::RefreshToken));
}

#[test]
fn generate_claims_at_fails_on_times_that_no_claim_can_hold() {
    let failed = |now: i64, access: i64, refresh: i64| {
        matches!(
            generate_claims_at(USER, "customer", now, 1, 2, access, refresh),
            Err(AuthError::TokenCreationError)
        )
    };
    assert!(failed(-1, 10, 10));
    assert!(failed(5, -6, 10));
    assert!(failed(5, 10, -6));
    assert!(failed(i64::MAX, 1, 0));
    assert!(failed(i64::MAX, 0, 1));
    assert!(failed(1, i64::MAX, 0));
    assert!(!failed(0, 0, 0));
    assert!(!failed(5, -5, -5));
    let (access, refresh) = generate_claims_at(USER, "", 5, 1, 2, -5, -4).unwrap();
    assert_eq!(access.exp, 0);
    assert_eq!(refresh.exp, 1);
    assert_eq!(refresh.pex, 0);
}

#[test]
fn generate_claims_reads_the_clock_and_draws_two_ids() {
    let (access, refresh) = generate_claims(USER, "admin", 3_600, 7_200).unwrap();
    assert_eq!(access.sub, USER_TEXT);
    assert_eq!(refresh.sub, USER_TEXT);
    // Later than the first of January 2020, in seconds.
    assert!(access.iat > 1_577_836_800);
    assert_eq!(access.iat, refresh.iat);
    assert_eq!(access.exp, access.iat + 3_600);
    assert_eq!(refresh.exp, access.iat + 7_200);
    assert_eq!(refresh.pex, access.exp);
    assert_eq!(refresh.prf, access.jti);
    assert_ne!(refresh.jti, access.jti);
    assert_eq!(access.jti.len(), 36);
    assert_eq!(access.typ, 0);
    assert_eq!(refresh.typ, 1);
    assert_eq!(access.roles, "admin");
    assert_eq!(access.validate_role_admin(), Ok(()));
}
