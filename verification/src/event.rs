//! What passes between a pool and the threads that drive it.

use vstd::prelude::*;

verus! {

/// The answer to a worker that asks the channel for its next job.
#[derive(Debug, PartialEq, Eq)]
pub enum Delivery<J> {
    /// The job at the head of the queue: the worker runs it.
    Job(J),
    /// Nothing is queued and the channel is open: the worker keeps waiting.
    Empty,
    /// End of stream: the channel is closed and drained, the worker leaves
    /// its loop.
    Closed,
    /// The lock around the channel is poisoned: the attempt fails and the
    /// worker's thread dies.
    Poisoned,
}

/// How the execution of a job ended.
#[derive(Clone, Copy, Debug, PartialEq, Eq, Structural)]
pub enum JobOutcome {
    /// The job ran to its end.
    Returned,
    /// The job failed abnormally and took its worker's thread with it.
    Panicked,
}

/// How far the teardown of a pool has come.
#[derive(Clone, Copy, Debug, PartialEq, Eq, Structural)]
pub enum ShutdownStatus {
    /// The teardown waits for the thread of this worker to end.
    Pending(usize),
    /// Every worker has left its loop at the end of the stream and was joined.
    Complete,
    /// The thread of this worker had died: the teardown has failed.
    Failed(usize),
}

} // verus!
