use ankaios_agent::objects::{ExecutionState, ExecutionStateEnum};

#[test]
fn execution_state_constructors() {
    let s = ExecutionState::stopping_requested();
    assert_eq!(s.state, ExecutionStateEnum::Stopping);
    assert_eq!(s.additional_info, "");
    let s = ExecutionState::delete_failed("delete failed".to_string());
    assert_eq!(s.state, ExecutionStateEnum::DeleteFailed);
    assert_eq!(s.additional_info, "delete failed");
    assert_eq!(ExecutionState::removed().state, ExecutionStateEnum::Removed);
    assert_eq!(ExecutionState::initial().state, ExecutionStateEnum::Pending);
    assert_eq!(ExecutionState::unknown().state, ExecutionStateEnum::Unknown);
}

#[test]
fn execution_state_comparison() {
    let a = ExecutionState::delete_failed("x".to_string());
    assert!(a.is_same_as(&a.duplicate()));
    assert!(!a.is_same_as(&ExecutionState::delete_failed("y".to_string())));
    assert!(!ExecutionState::removed().is_same_as(&ExecutionState::unknown()));
    assert!(ExecutionState::removed().is_removed());
    assert!(!ExecutionState::initial().is_removed());
}
