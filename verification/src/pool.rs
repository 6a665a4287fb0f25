//! The pool itself: the channel, the workers, and the steps that submission,
//! the workers' loops and the teardown take.

use std::collections::VecDeque;
use vstd::prelude::*;
use crate::error::ThreadCountError;
use crate::event::{Delivery, JobOutcome, ShutdownStatus};
use crate::model::PoolState;
use crate::worker::{Worker, WorkerState};

verus! {

/// A pool of a fixed number of workers that share one queue of jobs.
///
/// The pool decides and keeps the books; it does not run anything. Whoever
/// drives it (one thread for each worker, and the owner of the pool) reports
/// what happened and is told what to do next. `J` is whatever the driver
/// runs as a job.
pub struct ThreadPool<J> {
    /// The workers in construction order; the worker at index `i` has the
    /// number `i`.
    workers: Vec<Worker>,
    /// The channel: the jobs that wait for a worker, oldest first.
    queue: VecDeque<J>,
    /// Whether the producer handle of the channel exists.
    job_sender: bool,
    /// Whether a failed job has poisoned the lock around the channel.
    poisoned: bool,
    /// How many workers, in construction order, the teardown has joined.
    joined: usize,
    /// The state of the model that the fields stand for, with the history of
    /// the jobs.
    state: Ghost<PoolState<J>>,
}

impl<J> View for ThreadPool<J> {
    type V = PoolState<J>;

    closed spec fn view(&self) -> PoolState<J> {
        self.state@
    }
}

impl<J> ThreadPool<J> {
    /// The pool's fields say what its state says.
    pub closed spec fn consistent(&self) -> bool {
        let s = self.state@;
        &&& self.workers@.len() == s.workers.len()
        &&& forall|i: int|
            0 <= i < self.workers@.len() ==> (#[trigger] self.workers@[i]).id() == i
                && self.workers@[i].state() == s.workers[i].state()
        &&& self.queue@ == s.queue
        &&& self.job_sender == s.open
        &&& self.poisoned == s.poisoned
        &&& self.joined == s.joined
    }

    /// The pool is in a state it can reach, and its fields agree with it.
    pub open spec fn wf(&self) -> bool {
        self@.inv() && self.consistent()
    }

    /// Makes a pool of `thread_count` workers, all waiting for a job.
    ///
    /// A count of zero is refused with an error that names the count.
    pub fn build(thread_count: usize) -> (r: Result<ThreadPool<J>, ThreadCountError>)
        ensures
            r is Err <==> thread_count == 0,
            r matches Err(error) ==> error.caller()@ == "ThreadPool::build"@
                && error.invalid_val() == thread_count,
            r matches Ok(pool) ==> pool.wf() && pool@ == PoolState::<J>::init(thread_count as nat),
            r matches Ok(pool) ==> pool@.workers.len() == thread_count && forall|i: int|
                0 <= i < thread_count ==> (#[trigger] pool@.workers[i]) is Running,
    {
        if thread_count <= 0 {
            return Err(ThreadCountError::new("ThreadPool::build", thread_count));
        }
        let mut workers: Vec<Worker> = Vec::new();
        let mut id: usize = 0;
        while id < thread_count
            invariant
                id <= thread_count,
                workers@.len() == id,
                forall|i: int|
                    0 <= i < id ==> (#[trigger] workers@[i]).id() == i
                        && workers@[i].state() == WorkerState::Running,
            decreases thread_count - id,
        {
            workers.push(Worker::new(id));
            id += 1;
        }
        proof {
            PoolState::<J>::lemma_init_inv(thread_count as nat);
        }
        Ok(
            ThreadPool {
                workers,
                queue: VecDeque::new(),
                job_sender: true,
                poisoned: false,
                joined: 0,
                state: Ghost(PoolState::init(thread_count as nat)),
            },
        )
    }

    /// The number of workers, fixed when the pool was built.
    pub fn worker_count(&self) -> (n: usize)
        requires
            self.wf(),
        ensures
            n == self@.workers.len(),
            n > 0,
    {
        self.workers.len()
    }

    /// The worker with the number `id`.
    pub fn worker(&self, id: usize) -> (worker: Worker)
        requires
            self.wf(),
            self@.has_worker(id as int),
        ensures
            worker.id() == id,
            worker.state() == self@.workers[id as int].state(),
    {
        self.workers[id]
    }

    /// The number of jobs that wait in the queue.
    pub fn queued(&self) -> (n: usize)
        requires
            self.wf(),
        ensures
            n == self@.queue.len(),
    {
        self.queue.len()
    }

    /// Whether jobs can still be submitted.
    pub fn is_open(&self) -> (open: bool)
        requires
            self.wf(),
        ensures
            open == self@.open,
    {
        self.job_sender
    }

    /// Whether a failed job has poisoned the lock around the channel.
    pub fn is_poisoned(&self) -> (poisoned: bool)
        requires
            self.wf(),
        ensures
            poisoned == self@.poisoned,
    {
        self.poisoned
    }

    /// Whether the thread of at least one worker has not ended: whether
    /// anyone is left to take a job from the channel.
    pub fn has_live_worker(&self) -> (live: bool)
        requires
            self.wf(),
        ensures
            live == self@.has_live_worker(),
    {
        let count: usize = self.workers.len();
        let mut id: usize = 0;
        while id < count
            invariant
                self.wf(),
                count == self.workers@.len(),
                id <= count,
                forall|i: int| 0 <= i < id ==> (#[trigger] self@.workers[i]).state().stopped(),
            decreases count - id,
        {
            match self.workers[id].state() {
                WorkerState::Running | WorkerState::Executing => {
                    assert(self@.has_worker(id as int)
                        && !self@.workers[id as int].state().stopped());
                    return true;
                },
                WorkerState::Terminated | WorkerState::Panicked => {},
            }
            id += 1;
        }
        false
    }

    /// Submits `job`: it joins the queue behind every job submitted before.
    ///
    /// The channel must take it: the pool is open and a worker is left to
    /// receive. To submit a job once the teardown has begun, or once every
    /// worker's thread has died, is an error of the caller, which
    /// [`ThreadPool::is_open`] and [`ThreadPool::has_live_worker`] let it
    /// avoid.
    pub fn execute(&mut self, job: J)
        requires
            old(self).wf(),
            old(self)@.can_submit(),
        ensures
            final(self).wf(),
            final(self)@ == old(self)@.submit(job),
    {
        proof {
            self.state@.lemma_submit_inv(job);
        }
        self.state = Ghost(self.state@.submit(job));
        self.queue.push_back(job);
    }

    /// The waiting worker `worker` asks for its next job.
    ///
    /// It is handed the oldest job in the queue, if there is one; told to
    /// keep waiting while the queue is empty and open; told to leave its
    /// loop once the queue is closed and drained. If the lock is poisoned,
    /// the attempt fails and the worker's thread dies.
    pub fn receive(&mut self, worker: usize) -> (delivery: Delivery<J>)
        requires
            old(self).wf(),
            old(self)@.can_receive(worker as int),
        ensures
            final(self).wf(),
            final(self)@ == old(self)@.receive(worker as int),
            delivery == old(self)@.delivery(),
    {
        proof {
            self.state@.lemma_receive_inv(worker as int);
        }
        self.state = Ghost(self.state@.receive(worker as int));
        if self.poisoned {
            self.move_worker(worker, WorkerState::Panicked);
            return Delivery::Poisoned;
        }
        match self.queue.pop_front() {
            Some(job) => {
                self.move_worker(worker, WorkerState::Executing);
                Delivery::Job(job)
            },
            None => {
                if self.job_sender {
                    Delivery::Empty
                } else {
                    self.move_worker(worker, WorkerState::Terminated);
                    Delivery::Closed
                }
            },
        }
    }

    /// The job that `worker` executes has ended with `outcome`.
    ///
    /// After a job that returned, the worker waits for the next one. A job
    /// that panicked takes the worker's thread with it and poisons the lock
    /// around the channel.
    pub fn finish(&mut self, worker: usize, outcome: JobOutcome)
        requires
            old(self).wf(),
            old(self)@.can_finish(worker as int),
        ensures
            final(self).wf(),
            final(self)@ == old(self)@.finish(worker as int, outcome),
    {
        proof {
            self.state@.lemma_finish_inv(worker as int, outcome);
        }
        self.state = Ghost(self.state@.finish(worker as int, outcome));
        match outcome {
            JobOutcome::Returned => {
                self.move_worker(worker, WorkerState::Running);
            },
            JobOutcome::Panicked => {
                self.poisoned = true;
                self.move_worker(worker, WorkerState::Panicked);
            },
        }
    }

    /// Takes a step of the teardown and says how far it has come.
    ///
    /// The producer handle is dropped, so nothing more can be submitted; what
    /// is queued stays deliverable. The workers are joined in construction
    /// order, as far as their threads have ended normally. The status names
    /// the first worker that could not be joined: one that is still at work,
    /// for which the teardown has to wait, or one whose thread had died, at
    /// which the teardown fails.
    pub fn shutdown(&mut self) -> (status: ShutdownStatus)
        requires
            old(self).wf(),
        ensures
            final(self).wf(),
            final(self)@ == old(self)@.shutdown(),
            status == final(self)@.status(),
            status matches ShutdownStatus::Pending(worker) ==> final(self)@.can_receive(
                worker as int,
            ) || final(self)@.can_finish(worker as int),
            status matches ShutdownStatus::Failed(worker) ==> final(self)@.has_worker(
                worker as int,
            ) && final(self)@.workers[worker as int] is Panicked,
    {
        let count: usize = self.workers.len();
        let mut joined: usize = self.joined;
        while joined < count && self.workers[joined].state() == WorkerState::Terminated
            invariant
                self.wf(),
                count == self.workers@.len(),
                self.joined <= joined <= count,
                self@.frontier(joined as nat) == self@.frontier(self.joined as nat),
            decreases count - joined,
        {
            joined += 1;
        }
        proof {
            self.state@.lemma_shutdown_inv();
        }
        self.state = Ghost(self.state@.shutdown());
        self.job_sender = false;
        self.joined = joined;
        if joined >= count {
            ShutdownStatus::Complete
        } else {
            match self.workers[joined].state() {
                WorkerState::Panicked => ShutdownStatus::Failed(joined),
                _ => ShutdownStatus::Pending(joined),
            }
        }
    }

    /// Records that `worker` has moved to `state`.
    fn move_worker(&mut self, worker: usize, state: WorkerState)
        requires
            worker < old(self).workers@.len(),
        ensures
            final(self).workers@ == old(self).workers@.update(
                worker as int,
                final(self).workers@[worker as int],
            ),
            final(self).workers@[worker as int].id() == old(self).workers@[worker as int].id(),
            final(self).workers@[worker as int].state() == state,
            final(self).queue == old(self).queue,
            final(self).job_sender == old(self).job_sender,
            final(self).poisoned == old(self).poisoned,
            final(self).joined == old(self).joined,
            final(self).state == old(self).state,
    {
        let moved = self.workers[worker].moved_to(state);
        self.workers.set(worker, moved);
    }
}

} // verus!
