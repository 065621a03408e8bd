use workflow_core::error::{EngineError, ErrorClass};

#[test]
fn each_error_maps_to_its_class() {
    assert_eq!(
        EngineError::Validation { message: "m".to_string() }.class(),
        ErrorClass::Validation
    );
    assert_eq!(EngineError::WorkflowNotFound.class(), ErrorClass::Routing);
    assert_eq!(EngineError::AmbiguousSignalTarget.class(), ErrorClass::Routing);
    assert_eq!(EngineError::WorkflowConflict.class(), ErrorClass::Routing);
    assert_eq!(EngineError::Unauthorized.class(), ErrorClass::Policy);
    assert_eq!(
        EngineError::Forbidden { reason: "r".to_string() }.class(),
        ErrorClass::Policy
    );
    assert_eq!(EngineError::GroupNotMember.class(), ErrorClass::Policy);
    assert_eq!(EngineError::TokenRevoked.class(), ErrorClass::Revoked);
    assert_eq!(EngineError::TokenRefreshNotFound.class(), ErrorClass::Revoked);
    assert_eq!(
        EngineError::GroupDeactivated { reasons: "r".to_string() }.class(),
        ErrorClass::Revoked
    );
    assert_eq!(EngineError::PoolUnavailable.class(), ErrorClass::Infrastructure);
    assert_eq!(EngineError::Infrastructure.class(), ErrorClass::Infrastructure);
}

#[test]
fn only_infrastructure_errors_are_retryable() {
    assert!(EngineError::Infrastructure.is_retryable());
    assert!(EngineError::PoolUnavailable.is_retryable());
    assert!(!EngineError::WorkflowNotFound.is_retryable());
    assert!(!EngineError::Validation { message: "m".to_string() }.is_retryable());
    assert!(!EngineError::TokenRevoked.is_retryable());
}

#[test]
fn token_lifetimes_match_their_definitions() {
    assert_eq!(workflow_core::token_flow::TOKEN_TTL, 900_000);
    assert_eq!(workflow_core::token_flow::REFRESH_TOKEN_TTL, 7_776_000_000);
    assert_eq!(workflow_core::token_flow::USER_REFRESH_TOKEN_COOKIE, "user_refresh_token");
}
