//! The runtime facade: it owns a runtime connector, and it decides what the
//! background task that deletes a workload reports and asks of the runtime.

use vstd::prelude::*;

use crate::objects::{
    spec_delete_failed, spec_removed, spec_stopping_requested, ExecutionState,
    ExecutionStateView,
};

verus! {

/// A facade in front of one runtime connector.
pub struct GenericRuntimeFacade<R> {
    runtime: R,
}

impl<R> GenericRuntimeFacade<R> {
    /// The runtime connector that the facade forwards to.
    pub closed spec fn held_runtime(&self) -> R {
        self.runtime
    }

    /// A facade in front of `runtime`.
    pub fn new(runtime: R) -> (facade: Self)
        ensures
            facade.held_runtime() == runtime,
    {
        GenericRuntimeFacade { runtime }
    }

    /// The runtime connector that the facade forwards to.
    pub fn runtime(&self) -> (runtime: &R)
        ensures
            *runtime == self.held_runtime(),
    {
        &self.runtime
    }
}

/// How far the deletion of a workload has come.
#[derive(Clone, Copy, Debug, PartialEq, Eq, Structural)]
pub enum DeletionPhase {
    /// Nothing has been done yet.
    NotStarted,
    /// The runtime was asked for the workload's id.
    LookingUpWorkloadId,
    /// The runtime was asked to delete the workload.
    DeletingWorkload,
    /// Nothing is left to do.
    Finished,
}

/// What the runtime and the task's start tell the deletion.
#[derive(Debug)]
pub enum DeletionEvent<Id> {
    /// The deletion task starts.
    Begin,
    /// The runtime knows the workload under this id.
    WorkloadIdFound(Id),
    /// The runtime does not know the workload: it is already gone.
    WorkloadIdNotFound,
    /// The runtime deleted the workload.
    DeleteSucceeded,
    /// The runtime could not delete the workload, for the given reason.
    DeleteFailed(String),
}

/// What the deletion asks of the runtime next.
#[derive(Debug)]
pub enum DeletionCommand<Id> {
    /// Ask the runtime for the workload's id.
    LookUpWorkloadId,
    /// Ask the runtime to delete the workload with this id.
    DeleteWorkload(Id),
    /// The deletion is over.
    Finish,
    /// The event was not awaited: nothing to do.
    Nothing,
}

/// The answer to one event: a state to report for the workload, if any, and
/// what to ask of the runtime next.
#[derive(Debug)]
pub struct DeletionAction<Id> {
    pub report: Option<ExecutionState>,
    pub command: DeletionCommand<Id>,
}

/// The progress of the deletion of one workload.
#[derive(Clone, Copy, Debug, PartialEq, Eq, Structural)]
pub struct WorkloadDeletion {
    /// Whether execution states are reported for the workload while it is
    /// deleted.
    pub report_workload_states: bool,
    pub phase: DeletionPhase,
}

/// The view of an optional execution state.
pub open spec fn opt_state_view(s: Option<ExecutionState>) -> Option<ExecutionStateView> {
    match s {
        Some(s) => Some(s@),
        None => None,
    }
}

/// A deletion that has not started yet.
pub open spec fn initial_deletion(report_workload_states: bool) -> WorkloadDeletion {
    WorkloadDeletion { report_workload_states, phase: DeletionPhase::NotStarted }
}

/// `state`, where the deletion reports execution states; nothing otherwise.
pub open spec fn reported(m: WorkloadDeletion, state: ExecutionStateView) -> Option<ExecutionStateView> {
    if m.report_workload_states {
        Some(state)
    } else {
        None
    }
}

/// One step of the deletion: the next progress, the state to report and what
/// to ask of the runtime.
pub open spec fn deletion_step<Id>(m: WorkloadDeletion, e: DeletionEvent<Id>) -> (
    WorkloadDeletion,
    Option<ExecutionStateView>,
    DeletionCommand<Id>,
) {
    match (m.phase, e) {
        (DeletionPhase::NotStarted, DeletionEvent::Begin) => (
            WorkloadDeletion { phase: DeletionPhase::LookingUpWorkloadId, ..m },
            reported(m, spec_stopping_requested()),
            DeletionCommand::LookUpWorkloadId,
        ),
        (DeletionPhase::LookingUpWorkloadId, DeletionEvent::WorkloadIdFound(id)) => (
            WorkloadDeletion { phase: DeletionPhase::DeletingWorkload, ..m },
            None,
            DeletionCommand::DeleteWorkload(id),
        ),
        (DeletionPhase::LookingUpWorkloadId, DeletionEvent::WorkloadIdNotFound) => (
            WorkloadDeletion { phase: DeletionPhase::Finished, ..m },
            reported(m, spec_removed()),
            DeletionCommand::Finish,
        ),
        (DeletionPhase::DeletingWorkload, DeletionEvent::DeleteSucceeded) => (
            WorkloadDeletion { phase: DeletionPhase::Finished, ..m },
            reported(m, spec_removed()),
            DeletionCommand::Finish,
        ),
        (DeletionPhase::DeletingWorkload, DeletionEvent::DeleteFailed(err)) => (
            WorkloadDeletion { phase: DeletionPhase::Finished, ..m },
            reported(m, spec_delete_failed(err@)),
            DeletionCommand::Finish,
        ),
        _ => (m, None, DeletionCommand::Nothing),
    }
}

impl WorkloadDeletion {
    /// The deletion of a workload, reporting its execution states or not.
    pub fn new(report_workload_states: bool) -> (d: Self)
        ensures
            d == initial_deletion(report_workload_states),
    {
        WorkloadDeletion { report_workload_states, phase: DeletionPhase::NotStarted }
    }

    fn report(&self, state: ExecutionState) -> (r: Option<ExecutionState>)
        ensures
            opt_state_view(r) == reported(*self, state@),
    {
        if self.report_workload_states {
            Some(state)
        } else {
            None
        }
    }

    /// Takes in one event and answers what to report and what to ask next.
    pub fn step<Id>(&mut self, event: DeletionEvent<Id>) -> (action: DeletionAction<Id>)
        ensures
            *final(self) == deletion_step(*old(self), event).0,
            opt_state_view(action.report) == deletion_step(*old(self), event).1,
            action.command == deletion_step(*old(self), event).2,
    {
        match (self.phase, event) {
            (DeletionPhase::NotStarted, DeletionEvent::Begin) => {
                let report = self.report(ExecutionState::stopping_requested());
                self.phase = DeletionPhase::LookingUpWorkloadId;
                DeletionAction { report, command: DeletionCommand::LookUpWorkloadId }
            },
            (DeletionPhase::LookingUpWorkloadId, DeletionEvent::WorkloadIdFound(id)) => {
                self.phase = DeletionPhase::DeletingWorkload;
                DeletionAction { report: None, command: DeletionCommand::DeleteWorkload(id) }
            },
            (DeletionPhase::LookingUpWorkloadId, DeletionEvent::WorkloadIdNotFound) => {
                let report = self.report(ExecutionState::removed());
                self.phase = DeletionPhase::Finished;
                DeletionAction { report, command: DeletionCommand::Finish }
            },
            (DeletionPhase::DeletingWorkload, DeletionEvent::DeleteSucceeded) => {
                let report = self.report(ExecutionState::removed());
                self.phase = DeletionPhase::Finished;
                DeletionAction { report, command: DeletionCommand::Finish }
            },
            (DeletionPhase::DeletingWorkload, DeletionEvent::DeleteFailed(err)) => {
                let report = self.report(ExecutionState::delete_failed(err));
                self.phase = DeletionPhase::Finished;
                DeletionAction { report, command: DeletionCommand::Finish }
            },
            _ => DeletionAction { report: None, command: DeletionCommand::Nothing },
        }
    }
}


/// The reports and commands of a deletion that takes in `events` one after the
/// other from `m`, with the progress it ends in.
pub open spec fn run_deletion<Id>(m: WorkloadDeletion, events: Seq<DeletionEvent<Id>>) -> (
    WorkloadDeletion,
    Seq<ExecutionStateView>,
    Seq<DeletionCommand<Id>>,
)
    decreases events.len(),
{
    if events.len() == 0 {
        (m, Seq::empty(), Seq::empty())
    } else {
        let (m1, report, command) = deletion_step(m, events[0]);
        let (m2, reports, commands) = run_deletion(m1, events.drop_first());
        let first: Seq<ExecutionStateView> = match report {
            Some(r) => seq![r],
            None => Seq::empty(),
        };
        (m2, first + reports, seq![command] + commands)
    }
}

/// A state that ends what is reported of a deletion: removed, or a failed
/// deletion with its reason.
pub open spec fn is_final_report(r: ExecutionStateView) -> bool {
    r == spec_removed() || r == spec_delete_failed(r.additional_info)
}

/// Whether the deletion reports states or not never changes.
pub proof fn lemma_deletion_keeps_reporting_choice<Id>(
    m: WorkloadDeletion,
    events: Seq<DeletionEvent<Id>>,
)
    ensures
        run_deletion(m, events).0.report_workload_states == m.report_workload_states,
    decreases events.len(),
{
    if events.len() > 0 {
        lemma_deletion_keeps_reporting_choice(deletion_step(m, events[0]).0, events.drop_first());
    }
}

/// A deletion that does not report execution states reports none, whatever
/// the runtime answers.
pub proof fn lemma_deletion_without_reporting_is_silent<Id>(
    m: WorkloadDeletion,
    events: Seq<DeletionEvent<Id>>,
)
    requires
        !m.report_workload_states,
    ensures
        run_deletion(m, events).1 == Seq::<ExecutionStateView>::empty(),
    decreases events.len(),
{
    if events.len() > 0 {
        lemma_deletion_without_reporting_is_silent(deletion_step(m, events[0]).0, events.drop_first());
        assert(run_deletion(m, events).1 =~= run_deletion(deletion_step(m, events[0]).0, events.drop_first()).1);
    }
}

/// Deleting a workload that the runtime knows and deletes reports first that
/// the workload is asked to stop, then that it is removed; the runtime is
/// asked for the id, then to delete the workload under that id.
pub proof fn lemma_deletion_success<Id>(report_workload_states: bool, id: Id)
    ensures
        ({
            let events = seq![
                DeletionEvent::Begin,
                DeletionEvent::WorkloadIdFound(id),
                DeletionEvent::DeleteSucceeded,
            ];
            let (m, reports, commands) = run_deletion(initial_deletion(report_workload_states), events);
            &&& m.phase == DeletionPhase::Finished
            &&& reports == (if report_workload_states {
                seq![spec_stopping_requested(), spec_removed()]
            } else {
                Seq::empty()
            })
            &&& commands == seq![
                DeletionCommand::LookUpWorkloadId,
                DeletionCommand::DeleteWorkload(id),
                DeletionCommand::Finish,
            ]
        }),
{
    let events = seq![
        DeletionEvent::Begin,
        DeletionEvent::WorkloadIdFound(id),
        DeletionEvent::DeleteSucceeded,
    ];
    let m0 = initial_deletion(report_workload_states);
    reveal_with_fuel(run_deletion, 4);
    assert(events.drop_first() =~= seq![DeletionEvent::WorkloadIdFound(id), DeletionEvent::DeleteSucceeded]);
    assert(events.drop_first().drop_first() =~= seq![DeletionEvent::<Id>::DeleteSucceeded]);
    assert(events.drop_first().drop_first().drop_first() =~= Seq::<DeletionEvent<Id>>::empty());
    let r = run_deletion(m0, events);
    assert(r.1 =~= (if report_workload_states {
        seq![spec_stopping_requested(), spec_removed()]
    } else {
        Seq::empty()
    }));
    assert(r.2 =~= seq![
        DeletionCommand::LookUpWorkloadId,
        DeletionCommand::DeleteWorkload(id),
        DeletionCommand::Finish,
    ]);
}


/// Deleting a workload that the runtime does not know (it is already gone)
/// reports first that the workload is asked to stop, then that it is removed,
/// and never asks the runtime to delete anything.
pub proof fn lemma_deletion_of_absent_workload<Id>(report_workload_states: bool)
    ensures
        ({
            let events = seq![DeletionEvent::<Id>::Begin, DeletionEvent::WorkloadIdNotFound];
            let (m, reports, commands) = run_deletion(initial_deletion(report_workload_states), events);
            &&& m.phase == DeletionPhase::Finished
            &&& reports == (if report_workload_states {
                seq![spec_stopping_requested(), spec_removed()]
            } else {
                Seq::empty()
            })
            &&& commands == seq![DeletionCommand::<Id>::LookUpWorkloadId, DeletionCommand::Finish]
        }),
{
    let events = seq![DeletionEvent::<Id>::Begin, DeletionEvent::WorkloadIdNotFound];
    let m0 = initial_deletion(report_workload_states);
    reveal_with_fuel(run_deletion, 3);
    assert(events.drop_first() =~= seq![DeletionEvent::<Id>::WorkloadIdNotFound]);
    assert(events.drop_first().drop_first() =~= Seq::<DeletionEvent<Id>>::empty());
    let r = run_deletion(m0, events);
    assert(r.1 =~= (if report_workload_states {
        seq![spec_stopping_requested(), spec_removed()]
    } else {
        Seq::empty()
    }));
    assert(r.2 =~= seq![DeletionCommand::<Id>::LookUpWorkloadId, DeletionCommand::Finish]);
}

/// When the runtime fails to delete a workload, the deletion reports first
/// that the workload is asked to stop, then that its deletion failed with the
/// runtime's reason; it never reports the workload as removed.
pub proof fn lemma_deletion_failure<Id>(report_workload_states: bool, id: Id, err: String)
    ensures
        ({
            let events = seq![
                DeletionEvent::Begin,
                DeletionEvent::WorkloadIdFound(id),
                DeletionEvent::DeleteFailed(err),
            ];
            let (m, reports, commands) = run_deletion(initial_deletion(report_workload_states), events);
            &&& m.phase == DeletionPhase::Finished
            &&& reports == (if report_workload_states {
                seq![spec_stopping_requested(), spec_delete_failed(err@)]
            } else {
                Seq::empty()
            })
            &&& !reports.contains(spec_removed())
            &&& commands == seq![
                DeletionCommand::LookUpWorkloadId,
                DeletionCommand::DeleteWorkload(id),
                DeletionCommand::Finish,
            ]
        }),
{
    let events = seq![
        DeletionEvent::Begin,
        DeletionEvent::WorkloadIdFound(id),
        DeletionEvent::DeleteFailed(err),
    ];
    let m0 = initial_deletion(report_workload_states);
    reveal_with_fuel(run_deletion, 4);
    assert(events.drop_first() =~= seq![DeletionEvent::WorkloadIdFound(id), DeletionEvent::DeleteFailed(err)]);
    assert(events.drop_first().drop_first() =~= seq![DeletionEvent::<Id>::DeleteFailed(err)]);
    assert(events.drop_first().drop_first().drop_first() =~= Seq::<DeletionEvent<Id>>::empty());
    let r = run_deletion(m0, events);
    assert(r.1 =~= (if report_workload_states {
        seq![spec_stopping_requested(), spec_delete_failed(err@)]
    } else {
        Seq::empty()
    }));
    if report_workload_states {
        assert(r.1[0] != spec_removed());
        assert(r.1[1] != spec_removed());
    }
    assert(r.2 =~= seq![
        DeletionCommand::LookUpWorkloadId,
        DeletionCommand::DeleteWorkload(id),
        DeletionCommand::Finish,
    ]);
}

/// What a deletion can still report from the given progress, whatever the
/// events: nothing once finished; at most one final report while the runtime
/// is at work; from the start, at most the stop request and then one final
/// report.
pub open spec fn reports_fit_phase(phase: DeletionPhase, reports: Seq<ExecutionStateView>) -> bool {
    match phase {
        DeletionPhase::Finished => reports.len() == 0,
        DeletionPhase::NotStarted => {
            &&& reports.len() <= 2
            &&& reports.len() >= 1 ==> reports[0] == spec_stopping_requested()
            &&& reports.len() == 2 ==> is_final_report(reports[1])
        },
        _ => reports.len() <= 1 && (reports.len() == 1 ==> is_final_report(reports[0])),
    }
}

/// Whatever the events and their order, a deletion reports at most two
/// states: first that the workload is asked to stop, then one final state
/// (removed or failed deletion); nothing follows a final state.
pub proof fn lemma_deletion_reports_shape<Id>(m: WorkloadDeletion, events: Seq<DeletionEvent<Id>>)
    ensures
        reports_fit_phase(m.phase, run_deletion(m, events).1),
    decreases events.len(),
{
    if events.len() > 0 {
        let (m1, report, command) = deletion_step(m, events[0]);
        lemma_deletion_reports_shape(m1, events.drop_first());
        let rest = run_deletion(m1, events.drop_first()).1;
        let all = run_deletion(m, events).1;
        if !m.report_workload_states {
            lemma_deletion_without_reporting_is_silent(m, events);
        }
        match report {
            Some(r) => {
                assert(all =~= seq![r] + rest);
                assert(all[0] == r);
                assert(forall|i: int| 0 <= i < rest.len() ==> all[i + 1] == rest[i]);
            },
            None => {
                assert(all =~= rest);
            },
        }
    }
}


/// Whether the command asks the runtime to delete a workload.
pub open spec fn is_delete_command<Id>(c: DeletionCommand<Id>) -> bool {
    c is DeleteWorkload
}

/// Once the runtime has been asked to delete the workload, or the deletion is
/// over, the runtime is not asked to delete again.
pub proof fn lemma_no_delete_after_delete<Id>(m: WorkloadDeletion, events: Seq<DeletionEvent<Id>>)
    requires
        m.phase == DeletionPhase::DeletingWorkload || m.phase == DeletionPhase::Finished,
    ensures
        forall|i: int|
            0 <= i < run_deletion(m, events).2.len() ==> !is_delete_command(
                #[trigger] run_deletion(m, events).2[i],
            ),
    decreases events.len(),
{
    if events.len() > 0 {
        let (m1, report, command) = deletion_step(m, events[0]);
        lemma_no_delete_after_delete(m1, events.drop_first());
        let rest = run_deletion(m1, events.drop_first()).2;
        let all = run_deletion(m, events).2;
        assert(all =~= seq![command] + rest);
        assert forall|i: int| 0 <= i < all.len() implies !is_delete_command(#[trigger] all[i]) by {
            if i > 0 {
                assert(all[i] == rest[i - 1]);
            }
        }
    }
}

/// The runtime is asked to delete the workload at most once in a deletion,
/// and only under the id that the runtime itself gave for it, in the event
/// that the command answers.
pub proof fn lemma_delete_asked_once_with_given_id<Id>(
    m: WorkloadDeletion,
    events: Seq<DeletionEvent<Id>>,
)
    ensures
        run_deletion(m, events).2.len() == events.len(),
        forall|i: int|
            0 <= i < events.len() && (#[trigger] run_deletion(m, events).2[i] is DeleteWorkload)
                ==> events[i] == DeletionEvent::WorkloadIdFound(
                run_deletion(m, events).2[i]->DeleteWorkload_0,
            ),
        forall|i: int, j: int|
            0 <= i < events.len() && 0 <= j < events.len() && is_delete_command(
                #[trigger] run_deletion(m, events).2[i],
            ) && is_delete_command(#[trigger] run_deletion(m, events).2[j]) ==> i == j,
    decreases events.len(),
{
    if events.len() > 0 {
        let (m1, report, command) = deletion_step(m, events[0]);
        let tail = events.drop_first();
        lemma_delete_asked_once_with_given_id(m1, tail);
        let rest = run_deletion(m1, tail).2;
        let all = run_deletion(m, events).2;
        assert(all =~= seq![command] + rest);
        assert(forall|i: int| 0 < i < all.len() ==> all[i] == rest[i - 1]);
        assert(forall|i: int| 0 < i < events.len() ==> events[i] == tail[i - 1]);
        if is_delete_command(command) {
            lemma_no_delete_after_delete(m1, tail);
            assert forall|j: int| 0 < j < all.len() implies !is_delete_command(all[j]) by {
                assert(all[j] == rest[j - 1]);
            }
        }
        assert forall|i: int|
            0 <= i < events.len() && (#[trigger] all[i] is DeleteWorkload) implies events[i]
            == DeletionEvent::WorkloadIdFound(all[i]->DeleteWorkload_0) by {
            if i > 0 {
                assert(all[i] == rest[i - 1]);
                assert(events[i] == tail[i - 1]);
            }
        }
        assert forall|i: int, j: int|
            0 <= i < events.len() && 0 <= j < events.len() && is_delete_command(#[trigger] all[i])
                && is_delete_command(#[trigger] all[j]) implies i == j by {
            if i > 0 && j > 0 {
                assert(all[i] == rest[i - 1]);
                assert(all[j] == rest[j - 1]);
            }
        }
    }
}


/// What one step of a deletion does, for every progress and event:
/// - nothing is reported when states are not reported;
/// - starting reports the stop request and asks for the workload's id;
/// - a found id is asked to be deleted, with no report;
/// - a missing id or a successful delete reports the workload removed, a
///   failed delete reports the failure with the runtime's reason, and each
///   of these ends the deletion;
/// - an event that the progress does not await changes nothing and asks
///   nothing; the reporting choice never changes.
pub proof fn lemma_deletion_step_effects<Id>(m: WorkloadDeletion, e: DeletionEvent<Id>)
    ensures
        ({
            let (m1, report, command) = deletion_step(m, e);
            let on = m.report_workload_states;
            &&& m1.report_workload_states == on
            &&& !on ==> report is None
            &&& (m.phase == DeletionPhase::NotStarted && e is Begin) ==> m1.phase
                == DeletionPhase::LookingUpWorkloadId && command is LookUpWorkloadId && (on
                ==> report == Some(spec_stopping_requested()))
            &&& (m.phase == DeletionPhase::LookingUpWorkloadId && e is WorkloadIdFound) ==> m1.phase
                == DeletionPhase::DeletingWorkload && report is None && command
                == DeletionCommand::DeleteWorkload(e->WorkloadIdFound_0)
            &&& (m.phase == DeletionPhase::LookingUpWorkloadId && e is WorkloadIdNotFound)
                ==> m1.phase == DeletionPhase::Finished && command is Finish && (on ==> report
                == Some(spec_removed()))
            &&& (m.phase == DeletionPhase::DeletingWorkload && e is DeleteSucceeded) ==> m1.phase
                == DeletionPhase::Finished && command is Finish && (on ==> report == Some(
                spec_removed(),
            ))
            &&& (m.phase == DeletionPhase::DeletingWorkload && e is DeleteFailed) ==> m1.phase
                == DeletionPhase::Finished && command is Finish && (on ==> report == Some(
                spec_delete_failed(e->DeleteFailed_0@),
            ))
            &&& !((m.phase == DeletionPhase::NotStarted && e is Begin) || (m.phase
                == DeletionPhase::LookingUpWorkloadId && (e is WorkloadIdFound
                || e is WorkloadIdNotFound)) || (m.phase == DeletionPhase::DeletingWorkload && (
            e is DeleteSucceeded || e is DeleteFailed))) ==> m1 == m && report is None
                && command is Nothing
        }),
{
}

} // verus!
