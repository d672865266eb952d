//! Counting the indexing tasks in progress.
use vstd::prelude::*;
use crate::error::ProgressTrackerError;

verus! {

/// What the tracker broadcasts after every change.
#[derive(Clone, Copy, Debug, PartialEq, Eq, Structural)]
pub enum ProgressTrackerMsg {
    Progress { amount: i32 },
}

/// The number of indexing tasks in progress.
#[derive(Debug)]
pub struct ProgressTracker {
    in_progress: i32,
}

impl ProgressTracker {
    pub closed spec fn count(self) -> int {
        self.in_progress as int
    }

    /// No task in progress.
    pub fn new() -> (t: Self)
        ensures
            t.count() == 0,
    {
        ProgressTracker { in_progress: 0 }
    }

    /// The number of tasks in progress.
    pub fn in_progress(&self) -> (n: i32)
        ensures
            n == self.count(),
    {
        self.in_progress
    }

    /// Counts `amount` more tasks and gives the message announcing the new
    /// count.
    pub fn inc(&mut self, amount: i32) -> (msg: ProgressTrackerMsg)
        requires
            i32::MIN <= old(self).count() + amount <= i32::MAX,
        ensures
            final(self).count() == old(self).count() + amount,
            msg == (ProgressTrackerMsg::Progress { amount: final(self).count() as i32 }),
    {
        self.in_progress = self.in_progress + amount;
        ProgressTrackerMsg::Progress { amount: self.in_progress }
    }

    /// Counts `amount` fewer tasks and gives the message announcing the new
    /// count.
    pub fn dec(&mut self, amount: i32) -> (msg: ProgressTrackerMsg)
        requires
            i32::MIN <= old(self).count() - amount <= i32::MAX,
        ensures
            final(self).count() == old(self).count() - amount,
            msg == (ProgressTrackerMsg::Progress { amount: final(self).count() as i32 }),
    {
        self.in_progress = self.in_progress - amount;
        ProgressTrackerMsg::Progress { amount: self.in_progress }
    }
}

/// The outcome of broadcasting a progress message.
pub fn broadcast_outcome(sent: Result<(), String>) -> (r: Result<(), ProgressTrackerError>)
    ensures
        match sent {
            Ok(_) => r is Ok,
            Err(m) => r matches Err(ProgressTrackerError::FailedCommSendError(x)) && x@ == m@,
        },
{
    match sent {
        Ok(_) => Ok(()),
        Err(message) => Err(ProgressTrackerError::FailedCommSendError(message)),
    }
}

/// Counting tasks in and then the same number out leaves the count as it
/// was.
pub proof fn law_inc_then_dec(before: ProgressTracker, middle: ProgressTracker, after: ProgressTracker, amount: i32)
    requires
        middle.count() == before.count() + amount,
        after.count() == middle.count() - amount,
    ensures
        after.count() == before.count(),
{
}

} // verus!
