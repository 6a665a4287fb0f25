//! What the pool guarantees, stated over its states and proved from the
//! invariant.

use vstd::multiset::Multiset;
use vstd::prelude::*;
use crate::event::{Delivery, JobOutcome, ShutdownStatus};
use crate::model::{in_flight, lemma_in_flight_idle, PoolState};
use crate::schedule::{submissions, Step};

verus! {

/// Jobs leave the queue in the order in which they were submitted: the jobs
/// delivered so far, followed by the jobs still queued, are the jobs
/// submitted.
pub proof fn law_delivery_is_fifo<J>(s: PoolState<J>)
    requires
        s.inv(),
    ensures
        s.delivered.len() <= s.submitted.len(),
        s.delivered == s.submitted.subrange(0, s.delivered.len() as int),
        s.queue == s.submitted.subrange(s.delivered.len() as int, s.submitted.len() as int),
{
}

/// No job is lost and none is handed out twice: every job submitted is
/// queued, or in the hands of one worker, or has ended, and nothing else is.
/// So no job runs more often than it was submitted: where the submitted jobs
/// are all different, so are the completed ones.
pub proof fn law_jobs_are_conserved<J>(s: PoolState<J>)
    requires
        s.inv(),
    ensures
        s.submitted.to_multiset() == s.completed.to_multiset().add(s.failed.to_multiset()).add(
            in_flight(s.workers),
        ).add(s.queue.to_multiset()),
        forall|job: J|
            #[trigger] s.completed.to_multiset().count(job) <= s.submitted.to_multiset().count(job),
        s.submitted.no_duplicates() ==> s.completed.no_duplicates(),
{
    broadcast use vstd::multiset::group_multiset_axioms;

    vstd::seq_lib::lemma_multiset_commutative(s.delivered, s.queue);
    assert forall|job: J| #[trigger]
        s.completed.to_multiset().count(job) <= s.submitted.to_multiset().count(job) by {
        assert(s.submitted.to_multiset().count(job) == s.completed.to_multiset().add(
            s.failed.to_multiset(),
        ).add(in_flight(s.workers)).add(s.queue.to_multiset()).count(job));
    }
    if s.submitted.no_duplicates() {
        s.submitted.lemma_multiset_has_no_duplicates();
        let completed = s.completed.to_multiset();
        assert forall|job: J| completed.contains(job) implies completed.count(job) == 1 by {
            assert(s.submitted.to_multiset().contains(job));
        }
        s.completed.lemma_multiset_has_no_duplicates_conv();
    }
}

/// Once the teardown is complete, every job that was submitted has run to
/// its end exactly once: the completed jobs are the submitted jobs, each as
/// often as it was submitted, and none is queued, in flight or failed.
pub proof fn law_complete_teardown_ran_every_job_once<J>(s: PoolState<J>)
    requires
        s.inv(),
        s.status() == ShutdownStatus::Complete,
    ensures
        s.completed.to_multiset() == s.submitted.to_multiset(),
        s.completed.len() == s.submitted.len(),
        forall|job: J| s.submitted.contains(job) <==> s.completed.contains(job),
        s.queue.len() == 0,
        s.failed.len() == 0,
        in_flight(s.workers) == Multiset::<J>::empty(),
        forall|i: int| 0 <= i < s.workers.len() ==> (#[trigger] s.workers[i]) is Terminated,
{
    broadcast use vstd::multiset::group_multiset_axioms;

    lemma_in_flight_idle(s.workers);
    s.failed.to_multiset_ensures();
    s.completed.to_multiset_ensures();
    s.submitted.to_multiset_ensures();
    assert forall|job: J| s.submitted.contains(job) <==> s.completed.contains(job) by {
        assert(s.submitted.to_multiset().count(job) == s.completed.to_multiset().count(job));
    }
}

/// With a single worker, jobs end in the order in which they were submitted:
/// the completed jobs are the first of the submitted jobs, in that order. Once
/// the teardown is complete they are all of them.
pub proof fn law_single_worker_keeps_order<J>(s: PoolState<J>)
    requires
        s.inv(),
        s.workers.len() == 1,
    ensures
        s.completed.len() <= s.submitted.len(),
        s.completed == s.submitted.subrange(0, s.completed.len() as int),
        s.status() == ShutdownStatus::Complete ==> s.completed == s.submitted,
{
    if s.status() == ShutdownStatus::Complete {
        law_complete_teardown_ran_every_job_once(s);
    }
}

/// The teardown waits for the work: as long as a job is queued or in the
/// hands of a worker, no step of the teardown completes it.
pub proof fn law_teardown_waits_for_jobs<J>(s: PoolState<J>)
    requires
        s.inv(),
        s.queue.len() > 0 || exists|i: int|
            s.has_worker(i) && (#[trigger] s.workers[i]) is Executing,
    ensures
        s.status() != ShutdownStatus::Complete,
        s.shutdown().status() != ShutdownStatus::Complete,
{
    s.lemma_shutdown_inv();
    if s.shutdown().status() == ShutdownStatus::Complete {
        law_complete_teardown_ran_every_job_once(s.shutdown());
    }
    if s.status() == ShutdownStatus::Complete {
        law_complete_teardown_ran_every_job_once(s);
    }
}

/// A failed job is not passed over in silence. From the failure on, no worker
/// is handed a job: every request fails on the poisoned lock. No step of the
/// teardown completes it. Once every worker's thread has ended, the channel
/// takes no more jobs and the teardown reports the failure.
pub proof fn law_failed_job_fails_teardown<J>(s: PoolState<J>)
    requires
        s.inv(),
        s.failed.len() > 0,
    ensures
        s.delivery() == Delivery::<J>::Poisoned,
        s.shutdown().status() != ShutdownStatus::Complete,
        !s.has_live_worker() ==> !s.can_submit() && s.shutdown().status() is Failed,
{
    s.lemma_shutdown_inv();
    s.lemma_frontier(s.joined);
    if s.shutdown().status() == ShutdownStatus::Complete {
        law_complete_teardown_ran_every_job_once(s.shutdown());
    }
}

/// The workers follow their loop. A step moves no worker but the one it
/// names, and that one only along a move of its loop; a worker whose thread
/// has ended stays as it is. A worker leaves its loop in the normal way only
/// at the end of the stream: when the channel is closed and drained.
pub proof fn law_workers_follow_their_loop<J>(s: PoolState<J>, step: Step<J>)
    requires
        s.enabled(step),
    ensures
        s.apply(step).workers.len() == s.workers.len(),
        forall|i: int|
            s.has_worker(i) ==> (#[trigger] s.apply(step).workers[i]) == s.workers[i]
                || s.workers[i].state().may_become(s.apply(step).workers[i].state()),
        forall|i: int|
            s.has_worker(i) && (#[trigger] s.apply(step).workers[i]) != s.workers[i] ==> (
            step matches Step::Receive(worker) && worker == i) || (step matches Step::Finish(
                worker,
                _,
            ) && worker == i),
        forall|i: int|
            s.has_worker(i) && (#[trigger] s.apply(step).workers[i]) is Terminated
                && !(s.workers[i] is Terminated) ==> !s.open && s.queue.len() == 0
                && !s.poisoned,
{
}

/// Once the producer handle is gone it does not come back: after the first
/// step of the teardown nothing more can be submitted, and the queue only
/// shrinks.
pub proof fn law_closed_pool_stays_closed<J>(s: PoolState<J>, step: Step<J>)
    requires
        !s.open,
        s.enabled(step),
    ensures
        !s.apply(step).open,
        !(step is Submit),
        s.apply(step).queue.len() <= s.queue.len(),
        s.apply(step).submitted == s.submitted,
{
}

/// The teardown never waits in vain for the pool: the worker it waits for
/// can take a step, and since the channel is closed that step is not one
/// that leaves the worker waiting.
pub proof fn law_pending_worker_can_proceed<J>(s: PoolState<J>)
    requires
        s.inv(),
        s.shutdown().status() is Pending,
    ensures
        s.shutdown().can_receive(s.shutdown().joined as int) || s.shutdown().can_finish(
            s.shutdown().joined as int,
        ),
        s.shutdown().delivery() != Delivery::<J>::Empty,
{
    s.lemma_frontier(s.joined);
}

/// Whatever the order of the steps, a pool that was built with at least one
/// worker stays within the invariant, keeps its number of workers, and has
/// as its submitted jobs the jobs that the steps submit.
pub proof fn law_every_run_keeps_the_invariant<J>(n: nat, steps: Seq<Step<J>>)
    requires
        n > 0,
        PoolState::<J>::init(n).admits(steps),
    ensures
        PoolState::<J>::init(n).run(steps).inv(),
        PoolState::<J>::init(n).run(steps).workers.len() == n,
        PoolState::<J>::init(n).run(steps).submitted == submissions(steps),
    decreases steps.len(),
{
    let start = PoolState::<J>::init(n);
    if steps.len() == 0 {
        PoolState::<J>::lemma_init_inv(n);
    } else {
        law_every_run_keeps_the_invariant(n, steps.drop_last());
        let before = start.run(steps.drop_last());
        before.lemma_apply_inv(steps.last());
        before.lemma_apply_history(steps.last());
    }
}

/// Whatever the order of the steps: once the teardown is complete, the jobs
/// that ran to their end are the jobs that the steps submitted, each exactly
/// as often as it was submitted.
pub proof fn law_every_run_runs_every_job_once<J>(n: nat, steps: Seq<Step<J>>)
    requires
        n > 0,
        PoolState::<J>::init(n).admits(steps),
        PoolState::<J>::init(n).run(steps).status() == ShutdownStatus::Complete,
    ensures
        PoolState::<J>::init(n).run(steps).completed.to_multiset() == submissions(
            steps,
        ).to_multiset(),
        PoolState::<J>::init(n).run(steps).completed.len() == submissions(steps).len(),
{
    law_every_run_keeps_the_invariant(n, steps);
    law_complete_teardown_ran_every_job_once(PoolState::<J>::init(n).run(steps));
}

/// Whatever the order of the steps of a pool with a single worker: the jobs
/// that ran to their end are the first of the jobs that the steps submitted,
/// in the order of submission, and all of them once the teardown is complete.
pub proof fn law_single_worker_run_keeps_order<J>(steps: Seq<Step<J>>)
    requires
        PoolState::<J>::init(1).admits(steps),
    ensures
        PoolState::<J>::init(1).run(steps).completed.len() <= submissions(steps).len(),
        PoolState::<J>::init(1).run(steps).completed == submissions(steps).subrange(
            0,
            PoolState::<J>::init(1).run(steps).completed.len() as int,
        ),
        PoolState::<J>::init(1).run(steps).status() == ShutdownStatus::Complete
            ==> PoolState::<J>::init(1).run(steps).completed == submissions(steps),
{
    law_every_run_keeps_the_invariant(1, steps);
    law_single_worker_keeps_order(PoolState::<J>::init(1).run(steps));
}

/// A failure is never forgotten: from a state in which a job has failed, no
/// sequence of steps leads to one in which none has.
pub proof fn law_failure_persists<J>(s: PoolState<J>, steps: Seq<Step<J>>)
    requires
        s.failed.len() > 0,
    ensures
        s.run(steps).failed.len() > 0,
    decreases steps.len(),
{
    if steps.len() > 0 {
        law_failure_persists(s, steps.drop_last());
        s.run(steps.drop_last()).lemma_apply_history(steps.last());
    }
}

/// Whatever the order of the steps: if one of them is the abnormal end of a
/// job, the teardown is not complete after them, however many of them were
/// steps of the teardown.
pub proof fn law_run_with_failure_never_completes<J>(n: nat, steps: Seq<Step<J>>, k: int)
    requires
        n > 0,
        PoolState::<J>::init(n).admits(steps),
        0 <= k < steps.len(),
        steps[k] matches Step::Finish(_, outcome) && outcome == JobOutcome::Panicked,
    ensures
        PoolState::<J>::init(n).run(steps).failed.len() > 0,
        PoolState::<J>::init(n).run(steps).status() != ShutdownStatus::Complete,
    decreases steps.len(),
{
    let start = PoolState::<J>::init(n);
    let before = start.run(steps.drop_last());
    if k < steps.len() - 1 {
        law_run_with_failure_never_completes(n, steps.drop_last(), k);
        before.lemma_apply_history(steps.last());
    }
    law_every_run_keeps_the_invariant(n, steps);
    if start.run(steps).status() == ShutdownStatus::Complete {
        law_complete_teardown_ran_every_job_once(start.run(steps));
    }
}

} // verus!
