//! The workload objects that the agent's decisions read and produce.

use vstd::prelude::*;

verus! {

/// The kinds of execution state that a workload can be in.
#[derive(Clone, Copy, Debug, PartialEq, Eq, Structural)]
pub enum ExecutionStateEnum {
    /// Nothing is known about the workload yet.
    Unknown,
    /// The workload waits to be started.
    Pending,
    /// The workload is running.
    Running,
    /// The workload ran to completion.
    Succeeded,
    /// The workload stopped with an error.
    Failed,
    /// The workload was asked to stop.
    Stopping,
    /// Deleting the workload from its runtime failed.
    DeleteFailed,
    /// The workload no longer exists on its runtime.
    Removed,
}

/// The execution state of a workload: its kind and a free-text detail.
#[derive(Debug)]
pub struct ExecutionState {
    pub state: ExecutionStateEnum,
    pub additional_info: String,
}

/// The mathematical value of an [`ExecutionState`].
pub struct ExecutionStateView {
    pub state: ExecutionStateEnum,
    pub additional_info: Seq<char>,
}

impl View for ExecutionState {
    type V = ExecutionStateView;

    open spec fn view(&self) -> ExecutionStateView {
        ExecutionStateView { state: self.state, additional_info: self.additional_info@ }
    }
}

/// A state of the given kind with no additional information.
pub open spec fn plain_state(state: ExecutionStateEnum) -> ExecutionStateView {
    ExecutionStateView { state, additional_info: Seq::empty() }
}

/// The state reported when a workload is asked to stop.
pub open spec fn spec_stopping_requested() -> ExecutionStateView {
    plain_state(ExecutionStateEnum::Stopping)
}

/// The state reported when the runtime refused to delete a workload.
pub open spec fn spec_delete_failed(info: Seq<char>) -> ExecutionStateView {
    ExecutionStateView { state: ExecutionStateEnum::DeleteFailed, additional_info: info }
}

/// The state reported when a workload is gone from its runtime.
pub open spec fn spec_removed() -> ExecutionStateView {
    plain_state(ExecutionStateEnum::Removed)
}

impl ExecutionState {
    /// The state of a workload of which nothing is known yet.
    pub fn unknown() -> (s: Self)
        ensures
            s@ == plain_state(ExecutionStateEnum::Unknown),
    {
        ExecutionState { state: ExecutionStateEnum::Unknown, additional_info: String::new() }
    }

    /// The state of a workload that has just been handed to the agent.
    pub fn initial() -> (s: Self)
        ensures
            s@ == plain_state(ExecutionStateEnum::Pending),
    {
        ExecutionState { state: ExecutionStateEnum::Pending, additional_info: String::new() }
    }

    /// The state of a workload that the agent asked to stop.
    pub fn stopping_requested() -> (s: Self)
        ensures
            s@ == spec_stopping_requested(),
    {
        ExecutionState { state: ExecutionStateEnum::Stopping, additional_info: String::new() }
    }

    /// The state of a workload that its runtime failed to delete, with the
    /// runtime's error text.
    pub fn delete_failed(info: String) -> (s: Self)
        ensures
            s@ == spec_delete_failed(info@),
    {
        ExecutionState { state: ExecutionStateEnum::DeleteFailed, additional_info: info }
    }

    /// The state of a workload that no longer exists.
    pub fn removed() -> (s: Self)
        ensures
            s@ == spec_removed(),
    {
        ExecutionState { state: ExecutionStateEnum::Removed, additional_info: String::new() }
    }

    /// Whether the two states are equal: same kind and same detail.
    pub fn is_same_as(&self, other: &Self) -> (b: bool)
        ensures
            b == (self@ == other@),
    {
        self.state == other.state && self.additional_info == other.additional_info
    }

    /// Whether this state says that the workload is gone.
    pub fn is_removed(&self) -> (b: bool)
        ensures
            b == (self@.state == ExecutionStateEnum::Removed),
    {
        self.state == ExecutionStateEnum::Removed
    }

    /// A copy of this state.
    pub fn duplicate(&self) -> (s: Self)
        ensures
            s@ == self@,
    {
        ExecutionState { state: self.state, additional_info: self.additional_info.clone() }
    }
}

/// The execution state of one workload, as the agent reports it.
#[derive(Debug)]
pub struct WorkloadState {
    pub agent_name: String,
    pub workload_name: String,
    pub execution_state: ExecutionState,
}

/// The mathematical value of a [`WorkloadState`].
pub struct WorkloadStateView {
    pub agent_name: Seq<char>,
    pub workload_name: Seq<char>,
    pub execution_state: ExecutionStateView,
}

impl View for WorkloadState {
    type V = WorkloadStateView;

    open spec fn view(&self) -> WorkloadStateView {
        WorkloadStateView {
            agent_name: self.agent_name@,
            workload_name: self.workload_name@,
            execution_state: self.execution_state@,
        }
    }
}

} // verus!
