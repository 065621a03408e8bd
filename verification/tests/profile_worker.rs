use workflow_core::bus::MessageBus;
use workflow_core::error::EngineError;
use workflow_core::profile_set::{
    profile_set_commit, profile_set_plan, readable_issues, validation_gate, ProfileSetRequest,
    ValidationIssue,
};

fn full_request() -> ProfileSetRequest {
    ProfileSetRequest {
        user_id: Some(1),
        display_name: Some("Nova".to_string()),
        account_number: Some(1234),
        bio: Some("hi".to_string()),
    }
}

#[test]
fn plan_builds_update_for_all_fields() {
    let plan = profile_set_plan(&full_request()).unwrap();
    assert_eq!(
        plan.query,
        "UPDATE db_user.users SET display_name = $2,account_number = $3,bio = $4 WHERE user_id = $1"
    );
    assert_eq!(plan.bind_user_id, 1);
    assert_eq!(plan.bind_display_name, Some("Nova".to_string()));
    assert_eq!(plan.bind_account_number, Some(1234));
    assert_eq!(plan.bind_bio, Some("hi".to_string()));
    assert_eq!(plan.purge_namespace, "user");
    assert_eq!(plan.purge_key, 1);
}

#[test]
fn plan_assigns_bind_positions_to_present_fields() {
    let req = ProfileSetRequest {
        user_id: Some(1),
        display_name: None,
        account_number: None,
        bio: Some("hi".to_string()),
    };
    let plan = profile_set_plan(&req).unwrap();
    assert_eq!(plan.query, "UPDATE db_user.users SET bio = $2 WHERE user_id = $1");
    let req = ProfileSetRequest {
        user_id: Some(1),
        display_name: Some("Nova".to_string()),
        account_number: None,
        bio: Some("hi".to_string()),
    };
    let plan = profile_set_plan(&req).unwrap();
    assert_eq!(
        plan.query,
        "UPDATE db_user.users SET display_name = $2,bio = $3 WHERE user_id = $1"
    );
}

#[test]
fn plan_without_fields_is_a_validation_error() {
    let req = ProfileSetRequest {
        user_id: Some(1),
        display_name: None,
        account_number: None,
        bio: None,
    };
    assert!(matches!(profile_set_plan(&req), Err(EngineError::Validation { .. })));
}

#[test]
fn plan_without_user_id_is_a_validation_error() {
    let req = ProfileSetRequest {
        user_id: None,
        display_name: Some("Nova".to_string()),
        account_number: None,
        bio: None,
    };
    assert!(matches!(profile_set_plan(&req), Err(EngineError::Validation { .. })));
}

fn issue(parts: &[&str]) -> ValidationIssue {
    ValidationIssue { path: parts.iter().map(|p| p.to_string()).collect() }
}

#[test]
fn readable_issues_joins_paths_with_dots_and_commas() {
    let issues = vec![issue(&["display_name", "length"]), issue(&["bio"])];
    assert_eq!(readable_issues(&issues), "display_name.length, bio");
}

#[test]
fn validation_gate_passes_without_findings() {
    assert!(validation_gate(&Vec::new()).is_ok());
}

#[test]
fn validation_gate_reports_findings_verbatim() {
    let issues = vec![issue(&["account_number", "range"])];
    match validation_gate(&issues) {
        Err(EngineError::Validation { message }) => {
            assert_eq!(message, "account_number.range");
        }
        other => panic!("expected a validation error, got {:?}", other),
    }
}

#[test]
fn invalid_input_has_no_partial_side_effect() {
    let mut bus = MessageBus::new();
    // a request missing every updatable field never reaches the bus
    let req = ProfileSetRequest {
        user_id: Some(1),
        display_name: None,
        account_number: None,
        bio: None,
    };
    if profile_set_plan(&req).is_ok() {
        panic!("the plan must be rejected");
    }
    assert_eq!(bus.len(), 0);
    // a validation finding stops the flow before any publish as well
    let plan = profile_set_plan(&full_request()).unwrap();
    let findings = vec![issue(&["display_name"])];
    if validation_gate(&findings).is_ok() {
        panic!("expected a validation error");
    }
    let _ = plan;
    assert_eq!(bus.len(), 0);
}

#[test]
fn commit_publishes_update_then_analytics() {
    let mut bus = MessageBus::new();
    let plan = profile_set_plan(&full_request()).unwrap();
    assert!(validation_gate(&Vec::new()).is_ok());
    profile_set_commit(&plan, &mut bus, 9, 5000);
    assert_eq!(bus.len(), 2);

    let user_id_text = "00000000-0000-0000-0000-000000000001".to_string();
    let mut update_filter = workflow_core::tags::TagSet::new();
    update_filter.insert("user_id".to_string(), user_id_text.clone());
    let update = bus.tail_read(&"user.update".to_string(), &update_filter).unwrap();
    assert_eq!(update.seq, 0);
    assert_eq!(update.ray_id, 9);
    assert_eq!(update.ts, 5000);

    let analytics = bus
        .tail_read(&"analytics.event_create".to_string(), &workflow_core::tags::TagSet::new())
        .unwrap();
    assert_eq!(analytics.seq, 1);
    assert_eq!(
        analytics.body,
        "{\"user_id\":\"00000000-0000-0000-0000-000000000001\"}"
    );
}
