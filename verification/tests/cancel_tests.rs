use knockknock::shredder::cancel::{CancellationToken, OperationRegistry};

#[test]
fn acquiring_the_current_token_never_clears_stop() {
    let mut registry = OperationRegistry::new();
    let token = registry.begin_global_operation();
    token.cancel();
    assert!(registry
        .get_global_token()
        .expect("operation session exists")
        .is_cancelled());
}

#[test]
fn a_new_operation_gets_a_fresh_token() {
    let mut registry = OperationRegistry::new();
    let first = registry.begin_global_operation();
    first.cancel();
    let second = registry.begin_global_operation();
    assert!(!second.is_cancelled());
    assert!(
        first.is_cancelled(),
        "the old session remains stopped but is no longer global"
    );
    assert!(!registry
        .get_global_token()
        .expect("operation session exists")
        .is_cancelled());
}

#[test]
fn operation_status_reports_the_current_shared_token_without_resetting_it() {
    let mut registry = OperationRegistry::new();
    let token = registry.begin_global_operation();
    token.cancel();
    assert!(registry.is_global_operation_cancelled());
    assert!(registry.is_global_operation_cancelled());
}

#[test]
fn querying_or_acquiring_without_a_session_does_not_create_one() {
    let registry = OperationRegistry::new();
    assert!(registry.get_global_token().is_none());
    assert!(!registry.is_global_operation_cancelled());
    assert!(registry.get_global_token().is_none());
}

#[test]
fn test_cancellation_token_basic() {
    let token = CancellationToken::new();
    assert!(!token.is_cancelled());
    token.cancel();
    assert!(token.is_cancelled());
}

#[test]
fn test_cancellation_global_reset() {
    let mut registry = OperationRegistry::new();
    registry.begin_global_operation();
    assert!(!registry.is_global_operation_cancelled());
    registry.cancel_global();
    assert!(registry.is_global_operation_cancelled());
    registry.begin_global_operation();
    assert!(!registry.is_global_operation_cancelled());
}

#[test]
fn clones_of_a_token_share_the_stop_flag() {
    let token = CancellationToken::new();
    let clone = token.clone();
    clone.cancel();
    assert!(token.is_cancelled());
}

#[test]
fn cancelling_without_a_session_changes_nothing() {
    let registry = OperationRegistry::new();
    registry.cancel_global();
    assert!(!registry.is_global_operation_cancelled());
    assert!(registry.get_global_token().is_none());
}
