//! Runs of a pool: the orders in which submissions, the workers and the
//! teardown can take their steps.

use vstd::prelude::*;
use crate::event::JobOutcome;
use crate::model::PoolState;

verus! {

/// One step of a pool.
pub enum Step<J> {
    /// A job is submitted.
    Submit(J),
    /// The worker with this number asks for its next job.
    Receive(int),
    /// The job in the hands of the worker with this number ends.
    Finish(int, JobOutcome),
    /// The teardown takes a step.
    Shutdown,
}

/// The jobs that a sequence of steps submits, in order.
pub open spec fn submissions<J>(steps: Seq<Step<J>>) -> Seq<J>
    decreases steps.len(),
{
    if steps.len() == 0 {
        Seq::empty()
    } else {
        match steps.last() {
            Step::Submit(job) => submissions(steps.drop_last()).push(job),
            _ => submissions(steps.drop_last()),
        }
    }
}

impl<J> PoolState<J> {
    /// The step can be taken in this state: nothing is submitted to a closed
    /// pool or to one without a live worker, only a waiting worker asks for
    /// a job, and only a job that is being executed ends.
    pub open spec fn enabled(self, step: Step<J>) -> bool {
        match step {
            Step::Submit(_) => self.can_submit(),
            Step::Receive(worker) => self.can_receive(worker),
            Step::Finish(worker, _) => self.can_finish(worker),
            Step::Shutdown => true,
        }
    }

    /// The state after the step.
    pub open spec fn apply(self, step: Step<J>) -> Self {
        match step {
            Step::Submit(job) => self.submit(job),
            Step::Receive(worker) => self.receive(worker),
            Step::Finish(worker, outcome) => self.finish(worker, outcome),
            Step::Shutdown => self.shutdown(),
        }
    }

    /// The state after all the steps, taken in order.
    pub open spec fn run(self, steps: Seq<Step<J>>) -> Self
        decreases steps.len(),
    {
        if steps.len() == 0 {
            self
        } else {
            self.run(steps.drop_last()).apply(steps.last())
        }
    }

    /// Each of the steps can be taken when its turn comes.
    pub open spec fn admits(self, steps: Seq<Step<J>>) -> bool
        decreases steps.len(),
    {
        steps.len() == 0 || (self.admits(steps.drop_last()) && self.run(
            steps.drop_last(),
        ).enabled(steps.last()))
    }

    /// A step that can be taken keeps the invariant.
    pub proof fn lemma_apply_inv(self, step: Step<J>)
        requires
            self.inv(),
            self.enabled(step),
        ensures
            self.apply(step).inv(),
    {
        match step {
            Step::Submit(job) => self.lemma_submit_inv(job),
            Step::Receive(worker) => self.lemma_receive_inv(worker),
            Step::Finish(worker, outcome) => self.lemma_finish_inv(worker, outcome),
            Step::Shutdown => self.lemma_shutdown_inv(),
        }
    }

    /// A step adds its job to the jobs submitted, if it submits one, and
    /// takes none away; the jobs that failed only grow in number; a step that
    /// can be taken leaves the number of workers as it is.
    pub proof fn lemma_apply_history(self, step: Step<J>)
        ensures
            self.apply(step).submitted == (match step {
                Step::Submit(job) => self.submitted.push(job),
                _ => self.submitted,
            }),
            self.apply(step).failed.len() >= self.failed.len(),
            self.enabled(step) ==> self.apply(step).workers.len() == self.workers.len(),
    {
    }
}

} // verus!
