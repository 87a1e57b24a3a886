//! The polling state checker: a background task asks the runtime for a
//! workload's execution state at a fixed interval and reports each change.
//! Here stands what the task decides on each answer; the task itself, with
//! its timer, is run by the code in `app/`.

use vstd::prelude::*;

use tokio::task::{JoinError, JoinHandle};

use crate::objects::{
    plain_state, ExecutionState, ExecutionStateEnum, ExecutionStateView, WorkloadState,
    WorkloadStateView,
};

verus! {

#[verifier::external_type_specification]
#[verifier::external_body]
#[verifier::reject_recursive_types(T)]
pub struct ExJoinHandle<T>(JoinHandle<T>);

#[verifier::external_type_specification]
#[verifier::external_body]
pub struct ExJoinError(JoinError);

/// Calls `tokio::task::JoinHandle::abort`, which cancels the task that the
/// handle belongs to. Nothing is claimed of it: it changes no value that the
/// library holds.
#[verifier::external_body]
fn abort_task(handle: &JoinHandle<()>) {
    handle.abort();
}

/// The handle of the task that polls one workload's state.
pub struct GenericPollingStateChecker {
    pub task_handle: Option<JoinHandle<()>>,
}

impl GenericPollingStateChecker {
    /// Stops the polling task, if there is one.
    pub fn stop_checker(self) {
        match self.task_handle {
            Some(handle) => abort_task(&handle),
            None => {},
        }
    }
}

/// What the polling task knows between two polls: whose state it checks, the
/// state it reported last, and whether it is done.
pub struct PollingLoopState {
    agent_name: String,
    workload_name: String,
    last_state: ExecutionState,
    finished: bool,
}

/// The mathematical value of a [`PollingLoopState`].
pub struct PollingLoopView {
    pub agent_name: Seq<char>,
    pub workload_name: Seq<char>,
    pub last_state: ExecutionStateView,
    pub finished: bool,
}

impl View for PollingLoopState {
    type V = PollingLoopView;

    closed spec fn view(&self) -> PollingLoopView {
        PollingLoopView {
            agent_name: self.agent_name@,
            workload_name: self.workload_name@,
            last_state: self.last_state@,
            finished: self.finished,
        }
    }
}

/// The answer to one poll: the workload state to report, if any, and whether
/// the task stops polling.
#[derive(Debug)]
pub struct PollOutcome {
    pub report: Option<WorkloadState>,
    pub stop: bool,
}

/// The view of an optional workload state.
pub open spec fn opt_report_view(r: Option<WorkloadState>) -> Option<WorkloadStateView> {
    match r {
        Some(r) => Some(r@),
        None => None,
    }
}

/// The loop before its first poll: the last known state is unknown.
pub open spec fn initial_polling(agent_name: Seq<char>, workload_name: Seq<char>) -> PollingLoopView {
    PollingLoopView {
        agent_name,
        workload_name,
        last_state: plain_state(ExecutionStateEnum::Unknown),
        finished: false,
    }
}

/// One poll: a state that differs from the last one is reported and becomes
/// the last one; the loop stops once it has reported that the workload is
/// removed.
pub open spec fn poll_step(m: PollingLoopView, current: ExecutionStateView) -> (
    PollingLoopView,
    Option<WorkloadStateView>,
    bool,
) {
    if m.finished {
        (m, None, true)
    } else if current == m.last_state {
        (m, None, false)
    } else {
        let removed = current.state == ExecutionStateEnum::Removed;
        (
            PollingLoopView { last_state: current, finished: removed, ..m },
            Some(
                WorkloadStateView {
                    agent_name: m.agent_name,
                    workload_name: m.workload_name,
                    execution_state: current,
                },
            ),
            removed,
        )
    }
}

impl PollingLoopState {
    /// The loop for the workload `workload_name` on the agent `agent_name`.
    pub fn new(agent_name: String, workload_name: String) -> (s: Self)
        ensures
            s@ == initial_polling(agent_name@, workload_name@),
    {
        PollingLoopState {
            agent_name,
            workload_name,
            last_state: ExecutionState::unknown(),
            finished: false,
        }
    }

    /// Whether the loop has stopped.
    pub fn is_finished(&self) -> (b: bool)
        ensures
            b == self@.finished,
    {
        self.finished
    }

    /// Takes in the state that the runtime gave on one poll.
    pub fn on_state_polled(&mut self, current: ExecutionState) -> (outcome: PollOutcome)
        ensures
            final(self)@ == poll_step(old(self)@, current@).0,
            opt_report_view(outcome.report) == poll_step(old(self)@, current@).1,
            outcome.stop == poll_step(old(self)@, current@).2,
            // a loop that is still polling reports each changed state, with
            // the workload's names, and remembers it
            !old(self)@.finished && current@ != old(self)@.last_state ==> {
                &&& opt_report_view(outcome.report) == Some(
                    WorkloadStateView {
                        agent_name: old(self)@.agent_name,
                        workload_name: old(self)@.workload_name,
                        execution_state: current@,
                    },
                )
                &&& final(self)@.last_state == current@
            },
            // an unchanged state is not reported and changes nothing
            !old(self)@.finished && current@ == old(self)@.last_state ==> outcome.report is None
                && final(self)@ == old(self)@,
            // a loop that is still polling stops exactly when it reports the
            // workload removed
            !old(self)@.finished ==> (outcome.stop <==> (current@ != old(self)@.last_state
                && current@.state == ExecutionStateEnum::Removed)),
            !old(self)@.finished ==> final(self)@.finished == outcome.stop,
            final(self)@.agent_name == old(self)@.agent_name,
            final(self)@.workload_name == old(self)@.workload_name,
            // a stopped loop stays stopped and reports nothing
            old(self)@.finished ==> outcome.report is None && outcome.stop && final(self)@ == old(
                self,
            )@,
    {
        if self.finished {
            PollOutcome { report: None, stop: true }
        } else if current.is_same_as(&self.last_state) {
            PollOutcome { report: None, stop: false }
        } else {
            let removed = current.is_removed();
            self.last_state = current.duplicate();
            self.finished = removed;
            let report = WorkloadState {
                agent_name: self.agent_name.clone(),
                workload_name: self.workload_name.clone(),
                execution_state: current,
            };
            PollOutcome { report: Some(report), stop: removed }
        }
    }
}


/// The reports of a loop that takes in the polled states `polls` one after
/// the other from `m`, with the loop state it ends in.
pub open spec fn run_polling(m: PollingLoopView, polls: Seq<ExecutionStateView>) -> (
    PollingLoopView,
    Seq<WorkloadStateView>,
)
    decreases polls.len(),
{
    if polls.len() == 0 {
        (m, Seq::empty())
    } else {
        let (m1, report, stop) = poll_step(m, polls[0]);
        let (m2, reports) = run_polling(m1, polls.drop_first());
        let first: Seq<WorkloadStateView> = match report {
            Some(r) => seq![r],
            None => Seq::empty(),
        };
        (m2, first + reports)
    }
}

/// How a run of polls unfolds after its first poll.
proof fn lemma_run_polling_unfold(m: PollingLoopView, polls: Seq<ExecutionStateView>)
    requires
        polls.len() > 0,
    ensures
        ({
            let (m1, report, stop) = poll_step(m, polls[0]);
            let rest = run_polling(m1, polls.drop_first()).1;
            let all = run_polling(m, polls).1;
            match report {
                Some(r) => all.len() == rest.len() + 1 && all[0] == r && (forall|i: int|
                    0 < i < all.len() ==> #[trigger] all[i] == rest[i - 1]),
                None => all == rest,
            }
        }),
{
    let (m1, report, stop) = poll_step(m, polls[0]);
    let rest = run_polling(m1, polls.drop_first()).1;
    let all = run_polling(m, polls).1;
    match report {
        Some(r) => {
            assert(all =~= seq![r] + rest);
        },
        None => {
            assert(all =~= rest);
        },
    }
}

/// Every report names the checked workload and its agent, and a loop that
/// has stopped reports nothing more.
pub proof fn lemma_polling_reports_name_the_workload(m: PollingLoopView, polls: Seq<ExecutionStateView>)
    ensures
        forall|i: int|
            0 <= i < run_polling(m, polls).1.len() ==> (#[trigger] run_polling(m, polls).1[i]).agent_name
                == m.agent_name && run_polling(m, polls).1[i].workload_name == m.workload_name,
        m.finished ==> run_polling(m, polls).1.len() == 0,
    decreases polls.len(),
{
    if polls.len() > 0 {
        let (m1, report, stop) = poll_step(m, polls[0]);
        lemma_polling_reports_name_the_workload(m1, polls.drop_first());
        lemma_run_polling_unfold(m, polls);
    }
}

/// The reports change state one after the other, starting from `start`.
pub open spec fn changes_only(start: ExecutionStateView, reports: Seq<WorkloadStateView>) -> bool {
    &&& reports.len() > 0 ==> reports[0].execution_state != start
    &&& forall|i: int|
        0 <= i < reports.len() - 1 ==> (#[trigger] reports[i]).execution_state != reports[i
            + 1].execution_state
}

/// Whatever the runtime answers, over any number of polls, a state is
/// reported only when it changed: the first report differs from the state
/// known before the polls (so, from the start, an unknown state is never
/// reported first), and no report repeats the state of the report before it.
pub proof fn lemma_polling_reports_changes_only(m: PollingLoopView, polls: Seq<ExecutionStateView>)
    ensures
        changes_only(m.last_state, run_polling(m, polls).1),
    decreases polls.len(),
{
    if polls.len() > 0 {
        let (m1, report, stop) = poll_step(m, polls[0]);
        lemma_polling_reports_changes_only(m1, polls.drop_first());
        lemma_run_polling_unfold(m, polls);
        let rest = run_polling(m1, polls.drop_first()).1;
        let all = run_polling(m, polls).1;
        assert(changes_only(m1.last_state, rest));
        match report {
            Some(r) => {
                assert(m1.last_state == r.execution_state);
                assert(r.execution_state != m.last_state);
                assert forall|i: int|
                    0 <= i < all.len() - 1 implies (#[trigger] all[i]).execution_state
                    != all[i + 1].execution_state by {
                    assert(all[i + 1] == rest[i]);
                    if i > 0 {
                        assert(all[i] == rest[i - 1]);
                    }
                }
            },
            None => {
                assert(m1.last_state == m.last_state);
            },
        }
    }
}

/// Once the loop has reported that the workload is removed, it reports
/// nothing more: such a report is the last one.
pub proof fn lemma_polling_stops_after_removed(m: PollingLoopView, polls: Seq<ExecutionStateView>)
    ensures
        forall|i: int|
            0 <= i < run_polling(m, polls).1.len() && (#[trigger] run_polling(
                m,
                polls,
            ).1[i]).execution_state.state == ExecutionStateEnum::Removed ==> i == run_polling(
                m,
                polls,
            ).1.len() - 1,
    decreases polls.len(),
{
    if polls.len() > 0 {
        let (m1, report, stop) = poll_step(m, polls[0]);
        lemma_polling_stops_after_removed(m1, polls.drop_first());
        lemma_polling_reports_name_the_workload(m1, polls.drop_first());
        lemma_run_polling_unfold(m, polls);
        let rest = run_polling(m1, polls.drop_first()).1;
        let all = run_polling(m, polls).1;
        if report is Some {
            assert forall|i: int|
                0 <= i < all.len() && (#[trigger] all[i]).execution_state.state
                    == ExecutionStateEnum::Removed implies i == all.len() - 1 by {
                if i > 0 {
                    assert(all[i] == rest[i - 1]);
                }
            }
        }
    }
}

/// Polling the state that was reported last reports nothing and keeps the
/// loop as it is.
pub proof fn lemma_polling_same_state_again_is_silent(
    m: PollingLoopView,
    current: ExecutionStateView,
)
    requires
        !m.finished,
    ensures
        ({
            let (m1, report, stop) = poll_step(m, current);
            let (m2, report2, stop2) = poll_step(m1, current);
            &&& m2 == m1
            &&& report2 is None
            &&& stop2 == stop
        }),
{
}


/// What one poll does, for every loop state and every polled state:
/// - a loop that is still polling reports a state exactly when it differs
///   from the last one, and the report carries that state with the loop's
///   agent and workload names; the reported state becomes the last one;
/// - it stops, and is finished afterwards, exactly when the reported state
///   is a removed one: any other kind of state, changed or not, keeps it
///   polling;
/// - a stopped loop reports nothing and stays stopped.
pub proof fn lemma_poll_reports_each_change_and_stops_only_on_removed(
    m: PollingLoopView,
    current: ExecutionStateView,
)
    ensures
        ({
            let (m1, report, stop) = poll_step(m, current);
            &&& !m.finished ==> (report is Some <==> current != m.last_state)
            &&& !m.finished && current != m.last_state ==> report == Some(
                WorkloadStateView {
                    agent_name: m.agent_name,
                    workload_name: m.workload_name,
                    execution_state: current,
                },
            ) && m1.last_state == current
            &&& !m.finished ==> (stop <==> report is Some && current.state
                == ExecutionStateEnum::Removed)
            &&& !m.finished && current.state != ExecutionStateEnum::Removed ==> !stop
                && !m1.finished
            &&& !m.finished ==> m1.finished == stop
            &&& m1.agent_name == m.agent_name && m1.workload_name == m.workload_name
            &&& m.finished ==> report is None && stop && m1 == m
        }),
{
}

/// Over any number of polls from the start, a removed state that the runtime
/// gives is reported: if some poll gives a removed state and no earlier poll
/// did, the run reports it as its last report; and as long as no poll gives
/// a removed state, the loop keeps polling.
pub proof fn lemma_polling_runs_until_removed(m: PollingLoopView, polls: Seq<ExecutionStateView>)
    requires
        !m.finished,
        m.last_state.state != ExecutionStateEnum::Removed,
        forall|i: int| 0 <= i < polls.len() ==> (#[trigger] polls[i]).state
            != ExecutionStateEnum::Removed,
    ensures
        !run_polling(m, polls).0.finished,
        run_polling(m, polls).0.last_state.state != ExecutionStateEnum::Removed,
        run_polling(m, polls).0.agent_name == m.agent_name,
        run_polling(m, polls).0.workload_name == m.workload_name,
    decreases polls.len(),
{
    if polls.len() > 0 {
        let m1 = poll_step(m, polls[0]).0;
        assert(forall|i: int| 0 <= i < polls.drop_first().len() ==> polls.drop_first()[i] == polls[i + 1]);
        lemma_polling_runs_until_removed(m1, polls.drop_first());
    }
}

/// A loop that is still polling and has not seen a removed state reports a
/// removed state the first time it is polled, and stops.
pub proof fn lemma_removed_is_reported(m: PollingLoopView, current: ExecutionStateView)
    requires
        !m.finished,
        m.last_state.state != ExecutionStateEnum::Removed,
        current.state == ExecutionStateEnum::Removed,
    ensures
        poll_step(m, current).1 == Some(
            WorkloadStateView {
                agent_name: m.agent_name,
                workload_name: m.workload_name,
                execution_state: current,
            },
        ),
        poll_step(m, current).2,
        poll_step(m, current).0.finished,
{
}

} // verus!
