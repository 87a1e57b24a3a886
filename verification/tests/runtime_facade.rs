use ankaios_agent::objects::{ExecutionState, ExecutionStateEnum};
use ankaios_agent::runtime_facade::{
    DeletionCommand, DeletionEvent, DeletionPhase, GenericRuntimeFacade, WorkloadDeletion,
};

const WORKLOAD_ID: &str = "workload_id_1";

fn state_of(report: &Option<ExecutionState>) -> Option<(ExecutionStateEnum, String)> {
    report
        .as_ref()
        .map(|s| (s.state, s.additional_info.clone()))
}

/// Drives a deletion with the given runtime answers and collects what it
/// reports and asks.
fn drive(
    report: bool,
    id: Option<&str>,
    delete_result: Result<(), &str>,
) -> (Vec<(ExecutionStateEnum, String)>, Vec<DeletionCommand<String>>) {
    let mut deletion = WorkloadDeletion::new(report);
    let mut reports = Vec::new();
    let mut commands = Vec::new();
    let mut event = DeletionEvent::Begin;
    loop {
        let action = deletion.step(event);
        if let Some(s) = state_of(&action.report) {
            reports.push(s);
        }
        event = match &action.command {
            DeletionCommand::LookUpWorkloadId => match id {
                Some(id) => DeletionEvent::WorkloadIdFound(id.to_string()),
                None => DeletionEvent::WorkloadIdNotFound,
            },
            DeletionCommand::DeleteWorkload(_) => match delete_result {
                Ok(()) => DeletionEvent::DeleteSucceeded,
                Err(e) => DeletionEvent::DeleteFailed(e.to_string()),
            },
            DeletionCommand::Finish | DeletionCommand::Nothing => {
                commands.push(action.command);
                break;
            }
        };
        commands.push(action.command);
    }
    assert_eq!(deletion.phase, DeletionPhase::Finished);
    (reports, commands)
}

#[test]
fn utest_runtime_facade_delete_workload() {
    let (reports, commands) = drive(true, Some(WORKLOAD_ID), Ok(()));
    assert_eq!(
        reports,
        vec![
            (ExecutionStateEnum::Stopping, String::new()),
            (ExecutionStateEnum::Removed, String::new()),
        ]
    );
    assert_eq!(commands.len(), 3);
    assert!(matches!(commands[0], DeletionCommand::LookUpWorkloadId));
    assert!(matches!(&commands[1], DeletionCommand::DeleteWorkload(id) if id == WORKLOAD_ID));
    assert!(matches!(commands[2], DeletionCommand::Finish));
}

#[test]
fn utest_runtime_facade_delete_workload_without_reporting_workload_states() {
    let (reports, commands) = drive(false, Some(WORKLOAD_ID), Ok(()));
    assert!(reports.is_empty());
    assert!(matches!(&commands[1], DeletionCommand::DeleteWorkload(id) if id == WORKLOAD_ID));
}

#[test]
fn utest_runtime_facade_delete_workload_failed() {
    let (reports, commands) = drive(true, Some(WORKLOAD_ID), Err("delete failed"));
    assert_eq!(
        reports,
        vec![
            (ExecutionStateEnum::Stopping, String::new()),
            (ExecutionStateEnum::DeleteFailed, "delete failed".to_string()),
        ]
    );
    assert!(matches!(commands[2], DeletionCommand::Finish));
}

#[test]
fn delete_failed_without_reporting_reports_nothing() {
    let (reports, _) = drive(false, Some(WORKLOAD_ID), Err("delete failed"));
    assert!(reports.is_empty());
}

#[test]
fn delete_of_absent_workload_reports_removed_without_deleting() {
    let (reports, commands) = drive(true, None, Ok(()));
    assert_eq!(
        reports,
        vec![
            (ExecutionStateEnum::Stopping, String::new()),
            (ExecutionStateEnum::Removed, String::new()),
        ]
    );
    assert_eq!(commands.len(), 2);
    assert!(!commands
        .iter()
        .any(|c| matches!(c, DeletionCommand::DeleteWorkload(_))));
}

#[test]
fn deletion_ignores_events_it_does_not_await() {
    let mut deletion = WorkloadDeletion::new(true);
    let action = deletion.step(DeletionEvent::<String>::DeleteSucceeded);
    assert!(action.report.is_none());
    assert!(matches!(action.command, DeletionCommand::Nothing));
    assert_eq!(deletion.phase, DeletionPhase::NotStarted);

    let action = deletion.step(DeletionEvent::<String>::Begin);
    assert!(matches!(action.command, DeletionCommand::LookUpWorkloadId));
    let action = deletion.step(DeletionEvent::<String>::Begin);
    assert!(action.report.is_none());
    assert!(matches!(action.command, DeletionCommand::Nothing));
    assert_eq!(deletion.phase, DeletionPhase::LookingUpWorkloadId);

    let _ = deletion.step(DeletionEvent::<String>::WorkloadIdNotFound);
    let action = deletion.step(DeletionEvent::<String>::DeleteFailed("late".to_string()));
    assert!(action.report.is_none());
    assert!(matches!(action.command, DeletionCommand::Nothing));
    assert_eq!(deletion.phase, DeletionPhase::Finished);
}

#[test]
fn facade_keeps_its_runtime() {
    let facade = GenericRuntimeFacade::new(String::from("runtime1"));
    assert_eq!(facade.runtime(), "runtime1");
}
