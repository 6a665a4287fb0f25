//! A fixed-size worker pool, as a state machine with proofs.
//!
//! A pool is a fixed number of workers that share one queue of jobs. Each
//! worker takes the oldest job, runs it, and comes back for the next; when
//! the pool is torn down the queue is closed, the workers drain it and leave,
//! and the teardown waits for each of them in turn.
//!
//! [`ThreadPool`] holds all of that but the running itself. It owns the
//! queue and the books on every worker, and it is driven from outside: the
//! owner submits jobs with [`ThreadPool::execute`] and tears the pool down
//! with [`ThreadPool::shutdown`]; the thread of each worker asks for work
//! with [`ThreadPool::receive`] and reports the end of a job with
//! [`ThreadPool::finish`]. Each call is one atomic step, so whoever shares a
//! pool between threads puts it behind a lock. The pool never blocks: where a
//! thread would have to wait, the answer says so ([`Delivery::Empty`],
//! [`ShutdownStatus::Pending`]).
//!
//! The modules:
//!
//! - [`model`] is the pool as mathematics: its state with the history of its
//!   jobs, its transitions, and the invariant that they keep.
//! - [`schedule`] describes runs: every order in which the steps can be taken.
//! - [`laws`] proves what the pool guarantees in every state and after every
//!   run: jobs are delivered in the order of submission, each to one worker;
//!   none is lost or run twice; a single worker runs them in order; the
//!   teardown is not complete before the work is; a job that failed fails the
//!   teardown.
//! - [`pool`] is the executable pool, each of whose operations takes the step
//!   of the model that its contract names.
//! - [`worker`], [`event`] and [`error`] hold the small types that pass in
//!   and out; [`decimal`] renders numbers for their messages.

pub mod decimal;
pub mod error;
pub mod event;
pub mod laws;
pub mod model;
pub mod pool;
pub mod schedule;
pub mod worker;

pub use error::ThreadCountError;
pub use event::{Delivery, JobOutcome, ShutdownStatus};
pub use pool::ThreadPool;
pub use worker::{Worker, WorkerState};
