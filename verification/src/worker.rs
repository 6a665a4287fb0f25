//! A worker: its identity, where its loop stands, and the notices it emits.

use vstd::prelude::*;
use crate::decimal::{decimal, to_decimal};

verus! {

/// Where a worker's loop stands.
///
/// A worker waits for a job (`Running`), runs it (`Executing`) and waits
/// again, until the channel reports that it is closed (`Terminated`).
/// `Panicked` is no state of that loop: it records that the worker's thread
/// died, of a job that failed or of the poisoned channel lock.
#[derive(Clone, Copy, Debug, PartialEq, Eq, Structural)]
pub enum WorkerState {
    Running,
    Executing,
    Terminated,
    Panicked,
}

impl WorkerState {
    /// The worker's thread has ended, one way or the other.
    pub open spec fn stopped(self) -> bool {
        self == WorkerState::Terminated || self == WorkerState::Panicked
    }

    /// The moves of a worker: from waiting to executing, to the end of its
    /// loop or to its death; from executing back to waiting or to its death;
    /// none once its thread has ended.
    pub open spec fn may_become(self, next: WorkerState) -> bool {
        match self {
            WorkerState::Running => next != WorkerState::Running,
            WorkerState::Executing => next == WorkerState::Running || next
                == WorkerState::Panicked,
            WorkerState::Terminated => false,
            WorkerState::Panicked => false,
        }
    }
}

/// One worker of a pool.
#[derive(Clone, Copy, Debug, PartialEq, Eq, Structural)]
pub struct Worker {
    id: usize,
    state: WorkerState,
}

/// The text a worker emits when its thread starts.
pub open spec fn startup_text(id: nat) -> Seq<char> {
    "Thread "@ + decimal(id) + " is starting up"@
}

/// The text a worker emits when it leaves its loop at the end of the stream.
pub open spec fn shutdown_text(id: nat) -> Seq<char> {
    "Thread "@ + decimal(id) + " is shutting down"@
}

impl Worker {
    /// The worker's number within its pool.
    pub closed spec fn spec_id(&self) -> usize {
        self.id
    }

    /// Where the worker's loop stands.
    pub closed spec fn spec_state(&self) -> WorkerState {
        self.state
    }

    /// A worker that waits for its first job.
    pub fn new(id: usize) -> (worker: Worker)
        ensures
            worker.id() == id,
            worker.state() == WorkerState::Running,
    {
        Worker { id, state: WorkerState::Running }
    }

    /// The same worker at another point of its loop.
    pub(crate) fn moved_to(&self, state: WorkerState) -> (worker: Worker)
        ensures
            worker.id() == self.id(),
            worker.state() == state,
    {
        Worker { id: self.id, state }
    }

    /// The worker's number within its pool.
    #[verifier::when_used_as_spec(spec_id)]
    pub fn id(&self) -> (id: usize)
        ensures
            id == self.id(),
    {
        self.id
    }

    /// Where the worker's loop stands.
    #[verifier::when_used_as_spec(spec_state)]
    pub fn state(&self) -> (state: WorkerState)
        ensures
            state == self.state(),
    {
        self.state
    }

    /// The notice for the diagnostic stream when the worker's thread starts.
    pub fn startup_notice(&self) -> (text: String)
        ensures
            text@ == startup_text(self.id() as nat),
    {
        let mut text = String::from_str("Thread ");
        let digits = to_decimal(self.id);
        text.append(digits.as_str());
        text.append(" is starting up");
        text
    }

    /// The notice for the diagnostic stream when the worker leaves its loop
    /// because the channel is closed and drained.
    pub fn shutdown_notice(&self) -> (text: String)
        ensures
            text@ == shutdown_text(self.id() as nat),
    {
        let mut text = String::from_str("Thread ");
        let digits = to_decimal(self.id);
        text.append(digits.as_str());
        text.append(" is shutting down");
        text
    }
}

} // verus!
