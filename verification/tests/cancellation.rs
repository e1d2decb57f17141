use atlas_core::cancellation::{CancellationRegistry, RegisteredRequest};
use atlas_core::ids::{DocumentId, WorkspaceId};
use atlas_core::state::AppState;

#[test]
fn cancelling_an_unknown_request_id_is_a_clean_no_op() {
    let mut registry = CancellationRegistry::new();
    assert!(registry.cancel("unknown-request").is_ok());
}

#[test]
fn cancelling_a_registered_request_sets_its_flag() {
    let mut registry = CancellationRegistry::new();
    let flag = registry.register("req-1").unwrap();
    assert!(!registry.is_set(flag));
    registry.cancel("req-1").unwrap();
    assert!(registry.is_set(flag));
}

#[test]
fn unregistering_then_cancelling_is_a_clean_no_op_not_an_error() {
    let mut registry = CancellationRegistry::new();
    let flag = registry.register("req-2").unwrap();
    registry.unregister("req-2");
    assert!(registry.cancel("req-2").is_ok());
    assert!(!registry.is_set(flag));
}

#[test]
fn concurrent_requests_do_not_interfere_with_each_others_cancellation_state() {
    let mut registry = CancellationRegistry::new();
    let flag_a = registry.register("req-a").unwrap();
    let flag_b = registry.register("req-b").unwrap();
    registry.cancel("req-a").unwrap();
    assert!(registry.is_set(flag_a));
    assert!(!registry.is_set(flag_b));
}

#[test]
fn registered_request_guard_unregisters_when_finished() {
    let mut registry = CancellationRegistry::new();
    let guard = RegisteredRequest::new(&mut registry, "req-scoped".to_string()).unwrap();
    registry.cancel("req-scoped").unwrap();
    assert!(guard.is_cancelled(&registry));
    guard.finish(&mut registry);
    assert!(registry.cancel("req-scoped").is_ok());
    let flag = registry.register("req-scoped").unwrap();
    assert!(!registry.is_set(flag), "a fresh registration must start un-cancelled");
}

#[test]
fn re_registering_the_same_id_gets_a_fresh_uncancelled_flag() {
    let mut registry = CancellationRegistry::new();
    let first = registry.register("req-reuse").unwrap();
    registry.cancel("req-reuse").unwrap();
    assert!(registry.is_set(first));
    let second = registry.register("req-reuse").unwrap();
    assert!(!registry.is_set(second));
    registry.cancel("req-reuse").unwrap();
    assert!(registry.is_set(second));
}

#[test]
fn starts_with_no_active_workspace_or_document() {
    let state = AppState::new();
    assert!(state.active_workspace_id().unwrap().is_none());
    assert!(state.active_document_id().unwrap().is_none());
}

#[test]
fn set_active_workspace_id_is_reflected_in_getter() {
    let mut state = AppState::new();
    state.set_active_workspace_id(Some(WorkspaceId(1))).unwrap();
    assert_eq!(state.active_workspace_id().unwrap(), Some(WorkspaceId(1)));
}

#[test]
fn switching_workspace_clears_active_document() {
    let mut state = AppState::new();
    state.set_active_workspace_id(Some(WorkspaceId(1))).unwrap();
    state.set_active_document_id(Some(DocumentId(5))).unwrap();
    assert_eq!(state.active_document_id().unwrap(), Some(DocumentId(5)));
    state.set_active_workspace_id(Some(WorkspaceId(2))).unwrap();
    assert!(state.active_document_id().unwrap().is_none());
}

#[test]
fn clearing_active_workspace_also_clears_document() {
    let mut state = AppState::new();
    state.set_active_workspace_id(Some(WorkspaceId(1))).unwrap();
    state.set_active_document_id(Some(DocumentId(5))).unwrap();
    state.set_active_workspace_id(None).unwrap();
    assert!(state.active_workspace_id().unwrap().is_none());
    assert!(state.active_document_id().unwrap().is_none());
}

#[test]
fn registered_request_guard_unregisters_on_drop() {
    let mut registry = CancellationRegistry::new();
    let guard = RegisteredRequest::new(&mut registry, "req-scoped".to_string()).unwrap();
    registry.cancel("req-scoped").unwrap();
    assert!(guard.is_cancelled(&registry));
    guard.finish(&mut registry);
    assert!(registry.cancel("req-scoped").is_ok());
    let flag = registry.register("req-scoped").unwrap();
    assert!(!registry.is_set(flag));
}
