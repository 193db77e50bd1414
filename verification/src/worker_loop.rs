//! The worker's polling loop: after each attempt to claim a job it either processes the job,
//! stops, or sleeps for the poll interval. A claimed job is processed at once, so a backlog is
//! drained without pauses and the worker sleeps only when the queue had nothing to claim.
use vstd::prelude::*;

verus! {

/// What the worker does after trying to claim a job.
#[derive(Debug, Clone, Copy, PartialEq, Eq, Structural)]
pub enum WorkerAction {
    /// Process the job that was claimed, then poll again without sleeping.
    Process,
    /// Stop: shutdown was requested and nothing was claimed.
    Stop,
    /// Sleep for the poll interval (or until shutdown), then poll again.
    Sleep,
}

/// The worker's decision after a claim attempt: a claimed job is always processed; otherwise
/// the worker stops when shutdown was requested and sleeps when it was not.
pub fn worker_next(shutdown: bool, claimed: bool) -> (a: WorkerAction)
    ensures
        claimed ==> a == WorkerAction::Process,
        !claimed && shutdown ==> a == WorkerAction::Stop,
        !claimed && !shutdown ==> a == WorkerAction::Sleep,
{
    if claimed {
        WorkerAction::Process
    } else if shutdown {
        WorkerAction::Stop
    } else {
        WorkerAction::Sleep
    }
}

} // verus!
