use workflow_core::builder::{SignalBuilder, WorkflowBuilder, NIL_ID};
use workflow_core::engine::WorkflowRegistry;
use workflow_core::error::EngineError;
use workflow_core::tags::TagSet;

fn user_tags(id: &str) -> TagSet {
    let mut t = TagSet::new();
    t.insert("user_id".to_string(), id.to_string());
    t
}

fn start_workflow(reg: &mut WorkflowRegistry, wid: u128, user: &str) {
    let r = WorkflowBuilder::new(1, "user-lifecycle".to_string(), "{}".to_string())
        .workflow_id(wid)
        .tags(user_tags(user))
        .dispatch(reg);
    assert_eq!(r, Ok(wid));
}

#[test]
fn dry_run_dispatch_persists_nothing() {
    let mut reg = WorkflowRegistry::new();
    let r = WorkflowBuilder::new(1, "user-lifecycle".to_string(), "{}".to_string())
        .workflow_id(42)
        .dry_run(true)
        .dispatch(&mut reg);
    assert_eq!(r, Ok(NIL_ID));
    assert!(reg.get_workflow(42).is_none());
    assert_eq!(reg.instance_count(), 0);
}

#[test]
fn dispatch_persists_and_is_found() {
    let mut reg = WorkflowRegistry::new();
    start_workflow(&mut reg, 42, "U1");
    let w = reg.get_workflow(42).expect("the dispatched instance is persisted");
    assert_eq!(w.workflow_id, 42);
    assert_eq!(w.workflow_name, "user-lifecycle");
}

#[test]
fn same_workflow_id_never_duplicates() {
    let mut reg = WorkflowRegistry::new();
    start_workflow(&mut reg, 42, "U1");
    let second = WorkflowBuilder::new(1, "user-lifecycle".to_string(), "{}".to_string())
        .workflow_id(42)
        .dispatch(&mut reg);
    assert_eq!(second, Err(EngineError::WorkflowConflict));
    assert_eq!(reg.instance_count(), 1);
}

#[test]
fn empty_workflow_name_is_a_validation_error() {
    let mut reg = WorkflowRegistry::new();
    let r = WorkflowBuilder::new(1, "".to_string(), "{}".to_string()).dispatch(&mut reg);
    assert!(matches!(r, Err(EngineError::Validation { .. })));
    assert_eq!(reg.instance_count(), 0);
}

#[test]
fn generated_workflow_ids_create_distinct_instances() {
    let mut reg = WorkflowRegistry::new();
    let a = WorkflowBuilder::new(1, "user-lifecycle".to_string(), "{}".to_string())
        .dispatch(&mut reg)
        .unwrap();
    let b = WorkflowBuilder::new(1, "user-lifecycle".to_string(), "{}".to_string())
        .dispatch(&mut reg)
        .unwrap();
    assert_ne!(a, b);
    assert_eq!(reg.instance_count(), 2);
}

#[test]
fn signal_to_zero_matches_is_not_found_never_silent() {
    let mut reg = WorkflowRegistry::new();
    start_workflow(&mut reg, 42, "U1");
    let r = SignalBuilder::new(1, "profile_set".to_string(), "{}".to_string())
        .tags(user_tags("U2"))
        .dispatch(&mut reg);
    assert_eq!(r, Err(EngineError::WorkflowNotFound));
    // and a dry run reports the same resolution
    let dry = SignalBuilder::new(1, "profile_set".to_string(), "{}".to_string())
        .tags(user_tags("U2"))
        .dry_run(true)
        .dispatch(&mut reg);
    assert_eq!(dry, Err(EngineError::WorkflowNotFound));
}

#[test]
fn signal_to_two_matches_is_ambiguous() {
    let mut reg = WorkflowRegistry::new();
    start_workflow(&mut reg, 1, "U1");
    start_workflow(&mut reg, 2, "U1");
    let r = SignalBuilder::new(1, "profile_set".to_string(), "{}".to_string())
        .tags(user_tags("U1"))
        .dispatch(&mut reg);
    assert_eq!(r, Err(EngineError::AmbiguousSignalTarget));
}

#[test]
fn signal_to_unique_match_delivers_exactly_once_under_retry() {
    let mut reg = WorkflowRegistry::new();
    start_workflow(&mut reg, 42, "U1");
    let first = SignalBuilder::new(1, "profile_set".to_string(), "{\"bio\":\"x\"}".to_string())
        .tags(user_tags("U1"))
        .signal_id(777)
        .dispatch(&mut reg);
    assert_eq!(first, Ok(42));
    // a single retry with the same idempotency key
    let retry = SignalBuilder::new(1, "profile_set".to_string(), "{\"bio\":\"x\"}".to_string())
        .tags(user_tags("U1"))
        .signal_id(777)
        .dispatch(&mut reg);
    assert_eq!(retry, Ok(42));
    let w = reg.get_workflow(42).unwrap();
    assert_eq!(w.received_signals.len(), 1);
    assert_eq!(w.received_signals[0].signal_id, 777);
    assert_eq!(w.received_signals[0].signal_name, "profile_set");
}

#[test]
fn signal_dry_run_resolves_but_delivers_nothing() {
    let mut reg = WorkflowRegistry::new();
    start_workflow(&mut reg, 42, "U1");
    let dry = SignalBuilder::new(1, "profile_set".to_string(), "{}".to_string())
        .tags(user_tags("U1"))
        .dry_run(true)
        .dispatch(&mut reg);
    assert_eq!(dry, Ok(42));
    assert_eq!(reg.get_workflow(42).unwrap().received_signals.len(), 0);
}

#[test]
fn empty_signal_name_is_a_validation_error() {
    let mut reg = WorkflowRegistry::new();
    start_workflow(&mut reg, 42, "U1");
    let r = SignalBuilder::new(1, "".to_string(), "{}".to_string())
        .tags(user_tags("U1"))
        .dispatch(&mut reg);
    assert!(matches!(r, Err(EngineError::Validation { .. })));
}
