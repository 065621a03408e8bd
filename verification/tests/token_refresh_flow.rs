use workflow_core::auth::{Claims, Entitlement, UserRecord};
use workflow_core::ctx::AccessKind;
use workflow_core::error::EngineError;
use workflow_core::token_flow::{
    deleted_user_must_revoke, fallback_user_plan, identity_response, refresh_failure_clears_cookie,
    require_refresh_token, select_refresh_token, DecodeOutcome, FallbackUserPlan, RefreshCookie,
};

fn refresh_claims() -> Claims {
    Claims { jti: Some(1), exp: Some(9999), entitlements: vec![Entitlement::Refresh] }
}

fn user_claims() -> Claims {
    Claims { jti: Some(1), exp: Some(9999), entitlements: vec![Entitlement::User { user_id: 3 }] }
}

fn cookie(token: &str, outcome: DecodeOutcome) -> RefreshCookie {
    RefreshCookie { token: token.to_string(), outcome }
}

#[test]
fn logout_never_reuses_a_refresh_token() {
    let cookies = vec![cookie("good", DecodeOutcome::Valid(refresh_claims()))];
    assert_eq!(select_refresh_token(true, &cookies), None);
}

#[test]
fn undecodable_cookies_are_skipped_gracefully() {
    let cookies = vec![
        cookie("garbage", DecodeOutcome::Undecodable),
        cookie("good", DecodeOutcome::Valid(refresh_claims())),
    ];
    assert_eq!(select_refresh_token(false, &cookies), Some("good".to_string()));
}

#[test]
fn invalid_first_decodable_cookie_is_final() {
    let cookies = vec![
        cookie("expired", DecodeOutcome::Invalid),
        cookie("good", DecodeOutcome::Valid(refresh_claims())),
    ];
    assert_eq!(select_refresh_token(false, &cookies), None);
}

#[test]
fn token_without_refresh_entitlement_is_not_used() {
    let cookies = vec![cookie("user-token", DecodeOutcome::Valid(user_claims()))];
    assert_eq!(select_refresh_token(false, &cookies), None);
}

#[test]
fn no_cookies_means_no_refresh_token() {
    assert_eq!(select_refresh_token(false, &Vec::new()), None);
}

#[test]
fn only_unknown_or_revoked_refresh_clears_the_cookie() {
    assert!(refresh_failure_clears_cookie(&EngineError::TokenRefreshNotFound));
    assert!(refresh_failure_clears_cookie(&EngineError::TokenRevoked));
    assert!(!refresh_failure_clears_cookie(&EngineError::Infrastructure));
    assert!(!refresh_failure_clears_cookie(&EngineError::Unauthorized));
}

#[test]
fn development_access_resolves_the_default_user() {
    assert_eq!(
        fallback_user_plan(AccessKind::Development),
        FallbackUserPlan::ResolveDefaultUser
    );
    assert!(matches!(
        fallback_user_plan(AccessKind::Public),
        FallbackUserPlan::RegisterGuest { .. }
    ));
    assert!(matches!(
        fallback_user_plan(AccessKind::Private),
        FallbackUserPlan::RegisterGuest { .. }
    ));
}

#[test]
fn issued_pair_must_carry_a_refresh_token() {
    assert!(require_refresh_token(&"tok".to_string()).is_ok());
    assert!(matches!(
        require_refresh_token(&"".to_string()),
        Err(EngineError::Validation { .. })
    ));
}

#[test]
fn deletion_revokes_only_refreshed_sessions() {
    let deleted = UserRecord { user_id: 3, is_admin: false, delete_complete_ts: Some(7) };
    let live = UserRecord { user_id: 3, is_admin: false, delete_complete_ts: None };
    assert!(deleted_user_must_revoke(true, &deleted));
    assert!(!deleted_user_must_revoke(false, &deleted));
    assert!(!deleted_user_must_revoke(true, &live));
}

#[test]
fn identity_response_renders_the_user_id() {
    let r = identity_response("tok".to_string(), Some(123), 1);
    assert_eq!(r.token, "tok");
    assert_eq!(r.exp, 123);
    assert_eq!(r.identity_id, "00000000-0000-0000-0000-000000000001");
    let r = identity_response("tok".to_string(), None, 1);
    assert_eq!(r.exp, 0);
}
