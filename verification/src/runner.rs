//! The decisions of the task runner, which waits for indexing tasks to finish
//! one after the other and accounts for each. The runner never stops: a
//! failure it cannot report or count is passed over.
use vstd::prelude::*;
use crate::error::{IndexerRunnerError, ProgressTrackerError};
use crate::indexer::IndexerMsg;

verus! {

/// What the runner does after a step.
#[derive(Debug)]
pub enum RunnerAction {
    /// Count the finished task out of the progress.
    DecrementProgress,
    /// Report that the task could not be joined to its status channel.
    ReportJoinFailure(IndexerRunnerError),
    /// Report the failure to the task's status channel.
    ReportFailure(IndexerRunnerError),
    /// Wait for the next task.
    Continue,
}

/// What to do once a task has been joined: `Ok` with the task's own result,
/// or `Err` with why it could not be joined (it panicked or was cancelled).
pub fn after_join(joined: Result<Result<(), IndexerRunnerError>, String>) -> (action: RunnerAction)
    ensures
        match joined {
            Ok(Ok(_)) => action is DecrementProgress,
            Ok(Err(e)) => action == RunnerAction::ReportFailure(e),
            Err(m) => action matches RunnerAction::ReportJoinFailure(IndexerRunnerError::FailedTaskError(x)) && x@ == m@,
        },
{
    match joined {
        Ok(Ok(_)) => RunnerAction::DecrementProgress,
        Ok(Err(e)) => RunnerAction::ReportFailure(e),
        Err(message) => RunnerAction::ReportJoinFailure(IndexerRunnerError::FailedTaskError(message)),
    }
}

/// What to do once the failure to join a task was reported: the task is
/// then accounted as finished; a report that could not be sent is itself
/// reported as the task's failure.
pub fn after_join_failure_report(sent: Result<(), String>) -> (action: RunnerAction)
    ensures
        match sent {
            Ok(_) => action is DecrementProgress,
            Err(m) => action matches RunnerAction::ReportFailure(
                IndexerRunnerError::ProgressTrackerError(ProgressTrackerError::FailedCommSendError(x)),
            ) && x@ == m@,
        },
{
    match sent {
        Ok(_) => RunnerAction::DecrementProgress,
        Err(message) => RunnerAction::ReportFailure(
            IndexerRunnerError::ProgressTrackerError(ProgressTrackerError::FailedCommSendError(message)),
        ),
    }
}

/// What to do once a task's failure was reported, whether or not the report
/// could be sent: wait for the next task.
pub fn after_failure_report(sent: Result<(), String>) -> (action: RunnerAction)
    ensures
        action is Continue,
{
    RunnerAction::Continue
}

/// What to do once the progress was told that a task finished, whether or
/// not it could be told: wait for the next task.
pub fn after_decrement(told: Result<(), String>) -> (action: RunnerAction)
    ensures
        action is Continue,
{
    RunnerAction::Continue
}

/// The outcome of handing a new task to the runner: the task must be queued,
/// then the progress told.
pub fn new_task_outcome(queued: Result<(), String>, told: Result<(), String>) -> (r: Result<(), IndexerRunnerError>)
    ensures
        match queued {
            Err(m) => r matches Err(IndexerRunnerError::FailedRegisterTaskError(x)) && x@ == m@,
            Ok(_) => match told {
                Ok(_) => r is Ok,
                Err(m) => r matches Err(IndexerRunnerError::ProgressTrackerError(
                    ProgressTrackerError::FailedCommSendError(x),
                )) && x@ == m@,
            },
        },
{
    match queued {
        Err(message) => Err(IndexerRunnerError::FailedRegisterTaskError(message)),
        Ok(_) => match told {
            Ok(_) => Ok(()),
            Err(message) => Err(IndexerRunnerError::ProgressTrackerError(ProgressTrackerError::FailedCommSendError(message))),
        },
    }
}

/// The status report that tells that an indexing task failed as a whole: it
/// names no item and reports no success.
pub fn task_failure_report() -> (msg: IndexerMsg)
    ensures
        msg.item is None,
        !msg.success,
        !msg.already_exists,
{
    IndexerMsg { item: None, success: false, already_exists: false }
}

} // verus!
