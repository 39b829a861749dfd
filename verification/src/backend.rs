//! The backend executor's bookkeeping: how the outcome of a remote operation
//! becomes the completion event of the task that asked for it.

use vstd::prelude::*;
use crate::task::{BackendEvent, CompletedTaskPayload, StateDiff, Task, TaskError};

verus! {

/// Seconds allowed for connecting to the remote service.
pub const CONNECT_TIMEOUT_SECS: u64 = 10;

/// Seconds allowed for one request to the remote service.
pub const REQUEST_TIMEOUT_SECS: u64 = 10;

/// How a remote operation ended, as a handler sees it.
#[derive(Debug, PartialEq, Eq)]
pub enum RemoteOutcome {
    /// The service answered; this is what the answer holds for the task.
    Answered(CompletedTaskPayload),
    /// The request could not be made: what it names is unknown or malformed.
    Refused(String),
    /// No address could be reached.
    Unreachable(String),
    /// The service did not answer in time.
    TimedOut,
    /// The service answered with a proof that does not verify.
    InvalidProof(String),
}

/// The result that a task ends with when its remote operation ended with
/// `outcome`. A failure is classified and handed on; nothing is retried here.
pub open spec fn result_of(outcome: RemoteOutcome, timeout_note: String) -> Result<
    CompletedTaskPayload,
    TaskError,
> {
    match outcome {
        RemoteOutcome::Answered(payload) => Ok(payload),
        RemoteOutcome::Refused(reason) => Err(TaskError::Configuration(reason)),
        RemoteOutcome::Unreachable(reason) => Err(TaskError::Transport(reason)),
        RemoteOutcome::TimedOut => Err(TaskError::Transport(timeout_note)),
        RemoteOutcome::InvalidProof(reason) => Err(TaskError::ProofVerification(reason)),
    }
}

/// Classifies the outcome of a remote operation. `timeout_note` is the text
/// that a timeout is reported with.
pub fn classify(outcome: RemoteOutcome, timeout_note: String) -> (result: Result<
    CompletedTaskPayload,
    TaskError,
>)
    ensures
        result == result_of(outcome, timeout_note),
        result is Ok <==> outcome is Answered,
{
    match outcome {
        RemoteOutcome::Answered(payload) => Ok(payload),
        RemoteOutcome::Refused(reason) => Err(TaskError::Configuration(reason)),
        RemoteOutcome::Unreachable(reason) => Err(TaskError::Transport(reason)),
        RemoteOutcome::TimedOut => Err(TaskError::Transport(timeout_note)),
        RemoteOutcome::InvalidProof(reason) => Err(TaskError::ProofVerification(reason)),
    }
}

/// The event that reports on `task`.
pub open spec fn completion(
    task: Task,
    execution_result: Result<CompletedTaskPayload, TaskError>,
    state_diff: Option<StateDiff>,
) -> BackendEvent {
    match state_diff {
        None => BackendEvent::TaskCompleted { task, execution_result },
        Some(state_diff) => BackendEvent::TaskCompletedStateChange { task, execution_result, state_diff },
    }
}

/// Builds the one event that reports on `task`: it carries the task itself,
/// its result, and the state change that the task made, if it made one.
pub fn completion_event(
    task: Task,
    execution_result: Result<CompletedTaskPayload, TaskError>,
    state_diff: Option<StateDiff>,
) -> (event: BackendEvent)
    ensures
        event == completion(task, execution_result, state_diff),
        event.spec_task() == task,
        event.spec_execution_result() == execution_result,
        event.spec_state_diff() == state_diff,
{
    match state_diff {
        None => BackendEvent::TaskCompleted { task, execution_result },
        Some(state_diff) => BackendEvent::TaskCompletedStateChange { task, execution_result, state_diff },
    }
}

} // verus!
