use ankaios_agent::generic_polling_state_checker::{GenericPollingStateChecker, PollingLoopState};
use ankaios_agent::objects::{ExecutionState, ExecutionStateEnum};

fn state(kind: ExecutionStateEnum) -> ExecutionState {
    ExecutionState {
        state: kind,
        additional_info: String::new(),
    }
}

#[test]
fn first_unknown_state_is_not_reported() {
    let mut lp = PollingLoopState::new("agent_A".to_string(), "workload_1".to_string());
    let outcome = lp.on_state_polled(ExecutionState::unknown());
    assert!(outcome.report.is_none());
    assert!(!outcome.stop);
    assert!(!lp.is_finished());
}

#[test]
fn changed_state_is_reported_once() {
    let mut lp = PollingLoopState::new("agent_A".to_string(), "workload_1".to_string());
    let outcome = lp.on_state_polled(state(ExecutionStateEnum::Running));
    let report = outcome.report.expect("a changed state is reported");
    assert_eq!(report.agent_name, "agent_A");
    assert_eq!(report.workload_name, "workload_1");
    assert_eq!(report.execution_state.state, ExecutionStateEnum::Running);
    assert!(!outcome.stop);

    let outcome = lp.on_state_polled(state(ExecutionStateEnum::Running));
    assert!(outcome.report.is_none());
    assert!(!outcome.stop);

    let outcome = lp.on_state_polled(state(ExecutionStateEnum::Succeeded));
    assert_eq!(
        outcome.report.unwrap().execution_state.state,
        ExecutionStateEnum::Succeeded
    );
}

#[test]
fn additional_info_change_is_a_change() {
    let mut lp = PollingLoopState::new("a".to_string(), "w".to_string());
    let _ = lp.on_state_polled(ExecutionState::delete_failed("one".to_string()));
    let outcome = lp.on_state_polled(ExecutionState::delete_failed("two".to_string()));
    assert_eq!(outcome.report.unwrap().execution_state.additional_info, "two");
}

#[test]
fn removed_state_is_reported_and_stops() {
    let mut lp = PollingLoopState::new("agent_A".to_string(), "workload_1".to_string());
    let _ = lp.on_state_polled(state(ExecutionStateEnum::Running));
    let outcome = lp.on_state_polled(ExecutionState::removed());
    assert_eq!(
        outcome.report.unwrap().execution_state.state,
        ExecutionStateEnum::Removed
    );
    assert!(outcome.stop);
    assert!(lp.is_finished());

    let outcome = lp.on_state_polled(state(ExecutionStateEnum::Running));
    assert!(outcome.report.is_none());
    assert!(outcome.stop);
}

#[test]
fn stop_checker_without_task() {
    let checker = GenericPollingStateChecker { task_handle: None };
    checker.stop_checker();
}

#[test]
fn stop_checker_aborts_the_task() {
    let runtime = tokio::runtime::Builder::new_current_thread()
        .enable_time()
        .build()
        .unwrap();
    let (tx, mut rx) = tokio::sync::mpsc::channel::<u8>(1);
    let handle = runtime.spawn(async move {
        tokio::time::sleep(std::time::Duration::from_millis(50)).await;
        let _ = tx.send(1).await;
    });
    let checker = GenericPollingStateChecker {
        task_handle: Some(handle),
    };
    checker.stop_checker();
    runtime.block_on(async {
        tokio::time::sleep(std::time::Duration::from_millis(100)).await;
    });
    assert!(rx.try_recv().is_err());
}
