//! The pool as a mathematical state machine: its states, its transitions and
//! the invariant that every transition keeps.

use vstd::prelude::*;
use vstd::multiset::Multiset;
use crate::event::{Delivery, JobOutcome, ShutdownStatus};
use crate::worker::WorkerState;

verus! {

/// One worker as the pool sees it: where its loop stands and, while it
/// executes, the job it took from the queue.
pub enum Slot<J> {
    Running,
    Executing(J),
    Terminated,
    Panicked,
}

impl<J> Slot<J> {
    /// Where the worker's loop stands, without the job.
    pub open spec fn state(self) -> WorkerState {
        match self {
            Slot::Running => WorkerState::Running,
            Slot::Executing(_) => WorkerState::Executing,
            Slot::Terminated => WorkerState::Terminated,
            Slot::Panicked => WorkerState::Panicked,
        }
    }

    /// The job in the worker's hands: a sequence of one job while it
    /// executes, empty otherwise.
    pub open spec fn held(self) -> Seq<J> {
        match self {
            Slot::Executing(job) => seq![job],
            _ => Seq::empty(),
        }
    }

    /// The job in the worker's hands, as a multiset.
    pub open spec fn load(self) -> Multiset<J> {
        match self {
            Slot::Executing(job) => Multiset::singleton(job),
            _ => Multiset::empty(),
        }
    }
}

/// The jobs in the hands of all workers together.
pub open spec fn in_flight<J>(workers: Seq<Slot<J>>) -> Multiset<J>
    decreases workers.len(),
{
    if workers.len() == 0 {
        Multiset::empty()
    } else {
        in_flight(workers.drop_last()).add(workers.last().load())
    }
}

/// The state of a pool, with the history of its jobs.
pub struct PoolState<J> {
    /// The workers in construction order; a worker's number is its index.
    pub workers: Seq<Slot<J>>,
    /// The jobs that wait in the channel, oldest first.
    pub queue: Seq<J>,
    /// The producer handle of the channel exists.
    pub open: bool,
    /// A job has failed and poisoned the lock around the channel.
    pub poisoned: bool,
    /// How many workers, in construction order, the teardown has joined.
    pub joined: nat,
    /// Every job ever submitted, in the order of submission.
    pub submitted: Seq<J>,
    /// Every job ever handed to a worker, in the order of delivery.
    pub delivered: Seq<J>,
    /// Every job that ran to its end, in the order of completion.
    pub completed: Seq<J>,
    /// Every job that failed, in the order of failure.
    pub failed: Seq<J>,
}

impl<J> PoolState<J> {
    /// A fresh pool of `n` workers, all waiting, with an open and empty
    /// channel.
    pub open spec fn init(n: nat) -> Self {
        PoolState {
            workers: Seq::new(n, |i: int| Slot::Running),
            queue: Seq::empty(),
            open: true,
            poisoned: false,
            joined: 0,
            submitted: Seq::empty(),
            delivered: Seq::empty(),
            completed: Seq::empty(),
            failed: Seq::empty(),
        }
    }

    /// `worker` is the number of a worker of this pool.
    pub open spec fn has_worker(self, worker: int) -> bool {
        0 <= worker < self.workers.len()
    }

    /// The thread of at least one worker has not ended: a consumer of the
    /// channel is left.
    pub open spec fn has_live_worker(self) -> bool {
        exists|i: int| self.has_worker(i) && !(#[trigger] self.workers[i]).state().stopped()
    }

    /// The channel takes a job: its producer handle exists, and so does a
    /// worker to receive from it.
    pub open spec fn can_submit(self) -> bool {
        self.open && self.has_live_worker()
    }

    /// `worker` waits for a job, so it may ask for the next one.
    pub open spec fn can_receive(self, worker: int) -> bool {
        self.has_worker(worker) && self.workers[worker] is Running
    }

    /// `worker` executes a job, so that job may end.
    pub open spec fn can_finish(self, worker: int) -> bool {
        self.has_worker(worker) && self.workers[worker] is Executing
    }

    /// The state after `job` was submitted.
    pub open spec fn submit(self, job: J) -> Self {
        PoolState { queue: self.queue.push(job), submitted: self.submitted.push(job), ..self }
    }

    /// What a worker that asks for its next job is handed.
    pub open spec fn delivery(self) -> Delivery<J> {
        if self.poisoned {
            Delivery::Poisoned
        } else if self.queue.len() > 0 {
            Delivery::Job(self.queue[0])
        } else if self.open {
            Delivery::Empty
        } else {
            Delivery::Closed
        }
    }

    /// The state after the waiting worker `worker` asked for its next job.
    pub open spec fn receive(self, worker: int) -> Self {
        match self.delivery() {
            Delivery::Poisoned => PoolState {
                workers: self.workers.update(worker, Slot::Panicked),
                ..self
            },
            Delivery::Job(job) => PoolState {
                workers: self.workers.update(worker, Slot::Executing(job)),
                queue: self.queue.drop_first(),
                delivered: self.delivered.push(job),
                ..self
            },
            Delivery::Empty => self,
            Delivery::Closed => PoolState {
                workers: self.workers.update(worker, Slot::Terminated),
                ..self
            },
        }
    }

    /// The state after the job in the hands of `worker` ended with `outcome`.
    pub open spec fn finish(self, worker: int, outcome: JobOutcome) -> Self {
        let job = self.workers[worker]->Executing_0;
        match outcome {
            JobOutcome::Returned => PoolState {
                workers: self.workers.update(worker, Slot::Running),
                completed: self.completed.push(job),
                ..self
            },
            JobOutcome::Panicked => PoolState {
                workers: self.workers.update(worker, Slot::Panicked),
                failed: self.failed.push(job),
                poisoned: true,
                ..self
            },
        }
    }

    /// The first worker at or after `from`, in construction order, that has
    /// not left its loop at the end of the stream; the number of workers if
    /// there is none.
    pub open spec fn frontier(self, from: nat) -> nat
        decreases self.workers.len() - from,
    {
        if from < self.workers.len() && self.workers[from as int] is Terminated {
            self.frontier(from + 1)
        } else {
            from
        }
    }

    /// The state after a step of the teardown: the producer handle is gone,
    /// and the workers are joined in construction order up to the first
    /// whose thread has not ended normally.
    pub open spec fn shutdown(self) -> Self {
        PoolState { open: false, joined: self.frontier(self.joined), ..self }
    }

    /// How far the teardown has come.
    pub open spec fn status(self) -> ShutdownStatus {
        if self.joined >= self.workers.len() {
            ShutdownStatus::Complete
        } else if self.workers[self.joined as int] is Panicked {
            ShutdownStatus::Failed(self.joined as usize)
        } else {
            ShutdownStatus::Pending(self.joined as usize)
        }
    }

    /// What holds of a pool in every state it can reach.
    pub open spec fn inv(self) -> bool {
        &&& self.workers.len() > 0
        &&& self.joined <= self.workers.len()
        &&& forall|i: int| 0 <= i < self.joined ==> (#[trigger] self.workers[i]) is Terminated
        &&& forall|i: int|
            0 <= i < self.workers.len() && (#[trigger] self.workers[i]) is Terminated ==> !self.open
                && self.queue.len() == 0
        &&& forall|i: int|
            0 <= i < self.workers.len() && (#[trigger] self.workers[i]) is Panicked
                ==> self.poisoned
        &&& self.poisoned ==> exists|i: int|
            0 <= i < self.workers.len() && (#[trigger] self.workers[i]) is Panicked
        &&& self.poisoned <==> self.failed.len() > 0
        &&& self.submitted == self.delivered + self.queue
        &&& self.delivered.to_multiset() == self.completed.to_multiset().add(
            self.failed.to_multiset(),
        ).add(in_flight(self.workers))
        &&& self.workers.len() == 1 ==> self.delivered == self.completed + self.failed
            + self.workers[0].held()
    }
}

impl<J> PoolState<J> {
    /// A fresh pool with at least one worker meets the invariant.
    pub proof fn lemma_init_inv(n: nat)
        requires
            n > 0,
        ensures
            Self::init(n).inv(),
    {
        broadcast use vstd::multiset::group_multiset_axioms;

        let s = Self::init(n);
        lemma_in_flight_idle(s.workers);
        Seq::<J>::empty().to_multiset_ensures();
        assert(s.delivered.to_multiset() =~= s.completed.to_multiset().add(
            s.failed.to_multiset(),
        ).add(in_flight(s.workers)));
    }

    /// Submitting a job to a pool that takes it keeps the invariant.
    pub proof fn lemma_submit_inv(self, job: J)
        requires
            self.inv(),
            self.can_submit(),
        ensures
            self.submit(job).inv(),
    {
    }

    /// A waiting worker's request for its next job keeps the invariant.
    pub proof fn lemma_receive_inv(self, worker: int)
        requires
            self.inv(),
            self.can_receive(worker),
        ensures
            self.receive(worker).inv(),
    {
        broadcast use vstd::multiset::group_multiset_axioms;
        broadcast use vstd::seq_lib::to_multiset_build;

        let next = self.receive(worker);
        lemma_in_flight_update(self.workers, worker, next.workers[worker]);
        if self.delivery() is Job {
            assert(next.submitted =~= next.delivered + next.queue);
        }
        assert(next.delivered.to_multiset() =~= next.completed.to_multiset().add(
            next.failed.to_multiset(),
        ).add(in_flight(next.workers)));
    }

    /// The end of a job, either way, keeps the invariant.
    pub proof fn lemma_finish_inv(self, worker: int, outcome: JobOutcome)
        requires
            self.inv(),
            self.can_finish(worker),
        ensures
            self.finish(worker, outcome).inv(),
    {
        broadcast use vstd::multiset::group_multiset_axioms;
        broadcast use vstd::seq_lib::to_multiset_build;

        let next = self.finish(worker, outcome);
        lemma_in_flight_update(self.workers, worker, next.workers[worker]);
        if self.poisoned {
            // The worker whose job failed earlier is another one, and stays as it is.
            let i = choose|i: int|
                0 <= i < self.workers.len() && (#[trigger] self.workers[i]) is Panicked;
            assert(next.workers[i] is Panicked);
        }
        if self.workers.len() == 1 {
            // The only worker executes, so no job has failed before this one.
            assert(next.delivered =~= next.completed + next.failed + next.workers[0].held());
        }
        assert(next.delivered.to_multiset() =~= next.completed.to_multiset().add(
            next.failed.to_multiset(),
        ).add(in_flight(next.workers)));
    }

    /// The frontier lies between its start and the number of workers; every
    /// worker it passes has left its loop at the end of the stream, and the
    /// worker it stops at has not.
    pub proof fn lemma_frontier(self, from: nat)
        requires
            from <= self.workers.len(),
        ensures
            from <= self.frontier(from) <= self.workers.len(),
            forall|i: int|
                from <= i < self.frontier(from) ==> (#[trigger] self.workers[i]) is Terminated,
            self.frontier(from) < self.workers.len() ==> !(self.workers[self.frontier(
                from,
            ) as int] is Terminated),
        decreases self.workers.len() - from,
    {
        if from < self.workers.len() && self.workers[from as int] is Terminated {
            self.lemma_frontier(from + 1);
        }
    }

    /// A step of the teardown keeps the invariant.
    pub proof fn lemma_shutdown_inv(self)
        requires
            self.inv(),
        ensures
            self.shutdown().inv(),
    {
        self.lemma_frontier(self.joined);
    }
}

/// Replacing one worker's slot changes the jobs in flight by what the old
/// slot held and what the new one holds.
pub proof fn lemma_in_flight_update<J>(workers: Seq<Slot<J>>, i: int, slot: Slot<J>)
    requires
        0 <= i < workers.len(),
    ensures
        in_flight(workers.update(i, slot)).add(workers[i].load()) == in_flight(workers).add(
            slot.load(),
        ),
        forall|job: J|
            #[trigger] in_flight(workers.update(i, slot)).count(job) + workers[i].load().count(job)
                == in_flight(workers).count(job) + slot.load().count(job),
    decreases workers.len(),
{
    broadcast use vstd::multiset::group_multiset_axioms;

    let changed = workers.update(i, slot);
    let rest = workers.drop_last();
    if i == workers.len() - 1 {
        assert(changed.drop_last() =~= rest);
    } else {
        assert(changed.drop_last() =~= rest.update(i, slot));
        lemma_in_flight_update(rest, i, slot);
    }
}

/// Where no worker executes, no job is in flight.
pub proof fn lemma_in_flight_idle<J>(workers: Seq<Slot<J>>)
    requires
        forall|i: int| 0 <= i < workers.len() ==> !((#[trigger] workers[i]) is Executing),
    ensures
        in_flight(workers) == Multiset::<J>::empty(),
    decreases workers.len(),
{
    broadcast use vstd::multiset::group_multiset_axioms;

    if workers.len() > 0 {
        lemma_in_flight_idle(workers.drop_last());
    }
}

} // verus!
