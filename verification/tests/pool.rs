use threadpool::{Delivery, JobOutcome, ShutdownStatus, ThreadPool, WorkerState};

/// Lets the workers take turns until each of them has stopped; returns the
/// jobs in the order in which they ended and the workers that were told to
/// leave their loop.
fn drain(pool: &mut ThreadPool<u32>) -> (Vec<u32>, Vec<usize>) {
    let count: usize = pool.worker_count();
    let mut done: Vec<u32> = Vec::new();
    let mut left: Vec<usize> = Vec::new();
    let mut busy: bool = true;
    while busy {
        busy = false;
        for id in 0..count {
            if pool.worker(id).state() != WorkerState::Running {
                continue;
            }
            match pool.receive(id) {
                Delivery::Job(job) => {
                    pool.finish(id, JobOutcome::Returned);
                    done.push(job);
                    busy = true;
                }
                Delivery::Closed => left.push(id),
                Delivery::Empty | Delivery::Poisoned => {}
            }
        }
    }
    (done, left)
}

#[test]
fn build_rejects_zero_threads() {
    let refused = ThreadPool::<u32>::build(0);
    assert!(refused.is_err());
    let error = refused.err().unwrap();
    assert_eq!(error.invalid_val(), 0);
    assert_eq!(error.caller(), "ThreadPool::build");
}

#[test]
fn build_error_message_names_caller_and_count() {
    let error = ThreadPool::<u32>::build(0).err().unwrap();
    assert_eq!(
        error.to_string(),
        "ThreadPool::build: Invalid thread count: 0. Thread count must be a positive number."
    );
    let copy = error.clone();
    assert_eq!(copy.to_string(), error.to_string());
}

#[test]
fn build_starts_every_worker() {
    let pool = ThreadPool::<u32>::build(4).ok().unwrap();
    assert_eq!(pool.worker_count(), 4);
    for id in 0..4 {
        assert_eq!(pool.worker(id).id(), id);
        assert_eq!(pool.worker(id).state(), WorkerState::Running);
    }
    assert_eq!(pool.queued(), 0);
    assert!(pool.is_open());
    assert!(pool.has_live_worker());
    assert!(!pool.is_poisoned());
}

#[test]
fn build_accepts_one_thread() {
    let pool = ThreadPool::<u32>::build(1).ok().unwrap();
    assert_eq!(pool.worker_count(), 1);
    assert_eq!(pool.worker(0).state(), WorkerState::Running);
}

#[test]
fn execute_queues_jobs_oldest_first() {
    let mut pool = ThreadPool::<u32>::build(2).ok().unwrap();
    pool.execute(30);
    pool.execute(10);
    pool.execute(20);
    assert_eq!(pool.queued(), 3);
    assert_eq!(pool.receive(1), Delivery::Job(30));
    assert_eq!(pool.receive(0), Delivery::Job(10));
    assert_eq!(pool.queued(), 1);
    assert_eq!(pool.worker(0).state(), WorkerState::Executing);
    assert_eq!(pool.worker(1).state(), WorkerState::Executing);
}

#[test]
fn receive_waits_while_queue_is_open_and_empty() {
    let mut pool = ThreadPool::<u32>::build(2).ok().unwrap();
    assert_eq!(pool.receive(0), Delivery::Empty);
    assert_eq!(pool.worker(0).state(), WorkerState::Running);
    pool.execute(5);
    assert_eq!(pool.receive(0), Delivery::Job(5));
}

#[test]
fn finish_returns_worker_to_waiting() {
    let mut pool = ThreadPool::<u32>::build(1).ok().unwrap();
    pool.execute(1);
    assert_eq!(pool.receive(0), Delivery::Job(1));
    pool.finish(0, JobOutcome::Returned);
    assert_eq!(pool.worker(0).state(), WorkerState::Running);
    assert!(!pool.is_poisoned());
}

#[test]
fn four_workers_run_ten_jobs() {
    let mut pool = ThreadPool::<u32>::build(4).ok().unwrap();
    let mut started: Vec<String> = Vec::new();
    for id in 0..pool.worker_count() {
        started.push(pool.worker(id).startup_notice());
    }
    for job in 0..10 {
        pool.execute(job);
    }
    assert_eq!(pool.shutdown(), ShutdownStatus::Pending(0));
    let (done, left) = drain(&mut pool);
    assert_eq!(done.len(), 10);
    assert_eq!(pool.shutdown(), ShutdownStatus::Complete);
    let mut stopped: Vec<String> = Vec::new();
    for id in left {
        stopped.push(pool.worker(id).shutdown_notice());
    }
    started.sort();
    stopped.sort();
    assert_eq!(
        started,
        vec![
            "Thread 0 is starting up",
            "Thread 1 is starting up",
            "Thread 2 is starting up",
            "Thread 3 is starting up"
        ]
    );
    assert_eq!(
        stopped,
        vec![
            "Thread 0 is shutting down",
            "Thread 1 is shutting down",
            "Thread 2 is shutting down",
            "Thread 3 is shutting down"
        ]
    );
}

#[test]
fn every_job_runs_exactly_once() {
    let mut pool = ThreadPool::<u32>::build(3).ok().unwrap();
    let mut done: Vec<u32> = Vec::new();
    for job in 0..4 {
        pool.execute(job);
    }
    // Workers 2 and 0 take a job each; worker 2 is back first.
    assert_eq!(pool.receive(2), Delivery::Job(0));
    assert_eq!(pool.receive(0), Delivery::Job(1));
    pool.finish(2, JobOutcome::Returned);
    done.push(0);
    assert_eq!(pool.receive(2), Delivery::Job(2));
    for job in 4..7 {
        pool.execute(job);
    }
    pool.finish(2, JobOutcome::Returned);
    done.push(2);
    pool.finish(0, JobOutcome::Returned);
    done.push(1);
    assert_eq!(pool.shutdown(), ShutdownStatus::Pending(0));
    let (rest, left) = drain(&mut pool);
    done.extend(rest);
    assert_eq!(left.len(), 3);
    assert_eq!(pool.shutdown(), ShutdownStatus::Complete);
    assert_eq!(done.len(), 7);
    done.sort();
    assert_eq!(done, vec![0, 1, 2, 3, 4, 5, 6]);
}

#[test]
fn equal_jobs_run_as_often_as_submitted() {
    let mut pool = ThreadPool::<u32>::build(2).ok().unwrap();
    pool.execute(8);
    pool.execute(8);
    pool.execute(3);
    assert_eq!(pool.shutdown(), ShutdownStatus::Pending(0));
    let (mut done, _) = drain(&mut pool);
    done.sort();
    assert_eq!(done, vec![3, 8, 8]);
}

#[test]
fn single_worker_keeps_submission_order() {
    let mut pool = ThreadPool::<u32>::build(1).ok().unwrap();
    let jobs: Vec<u32> = vec![5, 3, 9, 1, 7, 3];
    for job in jobs.iter() {
        pool.execute(*job);
    }
    assert_eq!(pool.shutdown(), ShutdownStatus::Pending(0));
    let (done, left) = drain(&mut pool);
    assert_eq!(done, jobs);
    assert_eq!(left, vec![0]);
    assert_eq!(pool.shutdown(), ShutdownStatus::Complete);
}

#[test]
fn shutdown_waits_for_job_in_flight() {
    let mut pool = ThreadPool::<u32>::build(1).ok().unwrap();
    pool.execute(42);
    assert_eq!(pool.receive(0), Delivery::Job(42));
    // The job is slow: the teardown begins while it still runs.
    assert_eq!(pool.shutdown(), ShutdownStatus::Pending(0));
    assert_eq!(pool.shutdown(), ShutdownStatus::Pending(0));
    assert!(!pool.is_open());
    pool.finish(0, JobOutcome::Returned);
    assert_eq!(pool.shutdown(), ShutdownStatus::Pending(0));
    assert_eq!(pool.receive(0), Delivery::Closed);
    assert_eq!(pool.worker(0).state(), WorkerState::Terminated);
    assert_eq!(pool.shutdown(), ShutdownStatus::Complete);
}

#[test]
fn queued_jobs_stay_deliverable_after_close() {
    let mut pool = ThreadPool::<u32>::build(2).ok().unwrap();
    pool.execute(1);
    pool.execute(2);
    assert_eq!(pool.shutdown(), ShutdownStatus::Pending(0));
    assert_eq!(pool.queued(), 2);
    assert_eq!(pool.receive(0), Delivery::Job(1));
    assert_eq!(pool.receive(1), Delivery::Job(2));
    pool.finish(1, JobOutcome::Returned);
    assert_eq!(pool.receive(1), Delivery::Closed);
    pool.finish(0, JobOutcome::Returned);
    assert_eq!(pool.receive(0), Delivery::Closed);
    assert_eq!(pool.shutdown(), ShutdownStatus::Complete);
}

#[test]
fn shutdown_joins_in_construction_order() {
    let mut pool = ThreadPool::<u32>::build(3).ok().unwrap();
    assert_eq!(pool.shutdown(), ShutdownStatus::Pending(0));
    assert_eq!(pool.receive(2), Delivery::Closed);
    assert_eq!(pool.receive(1), Delivery::Closed);
    assert_eq!(pool.shutdown(), ShutdownStatus::Pending(0));
    assert_eq!(pool.receive(0), Delivery::Closed);
    assert_eq!(pool.shutdown(), ShutdownStatus::Complete);
    assert_eq!(pool.shutdown(), ShutdownStatus::Complete);
}

#[test]
fn shutdown_of_idle_pool_completes_once_workers_leave() {
    let mut pool = ThreadPool::<u32>::build(2).ok().unwrap();
    assert_eq!(pool.shutdown(), ShutdownStatus::Pending(0));
    let (done, left) = drain(&mut pool);
    assert!(done.is_empty());
    assert_eq!(left, vec![0, 1]);
    assert_eq!(pool.shutdown(), ShutdownStatus::Complete);
}

#[test]
fn panicked_job_poisons_pool() {
    let mut pool = ThreadPool::<u32>::build(3).ok().unwrap();
    pool.execute(1);
    pool.execute(2);
    pool.execute(3);
    assert_eq!(pool.receive(1), Delivery::Job(1));
    assert_eq!(pool.receive(2), Delivery::Job(2));
    pool.finish(1, JobOutcome::Panicked);
    assert!(pool.is_poisoned());
    assert_eq!(pool.worker(1).state(), WorkerState::Panicked);
    // While a worker is left, later submissions are accepted; they are
    // never processed.
    assert!(pool.has_live_worker());
    pool.execute(4);
    assert_eq!(pool.queued(), 2);
    assert_eq!(pool.receive(0), Delivery::Poisoned);
    assert_eq!(pool.worker(0).state(), WorkerState::Panicked);
    pool.finish(2, JobOutcome::Returned);
    assert_eq!(pool.receive(2), Delivery::Poisoned);
    assert_eq!(pool.worker(2).state(), WorkerState::Panicked);
    assert!(!pool.has_live_worker());
    assert_eq!(pool.queued(), 2);
    assert_eq!(pool.shutdown(), ShutdownStatus::Failed(0));
    assert_eq!(pool.shutdown(), ShutdownStatus::Failed(0));
}

#[test]
fn shutdown_fails_at_first_dead_worker() {
    let mut pool = ThreadPool::<u32>::build(3).ok().unwrap();
    pool.execute(1);
    assert_eq!(pool.receive(1), Delivery::Job(1));
    assert_eq!(pool.shutdown(), ShutdownStatus::Pending(0));
    // Worker 0 leaves normally before the job of worker 1 fails.
    assert_eq!(pool.receive(0), Delivery::Closed);
    pool.finish(1, JobOutcome::Panicked);
    assert_eq!(pool.shutdown(), ShutdownStatus::Failed(1));
    assert_eq!(pool.worker(2).state(), WorkerState::Running);
}

#[test]
fn shutdown_waits_for_live_worker_before_reporting_failure() {
    let mut pool = ThreadPool::<u32>::build(2).ok().unwrap();
    pool.execute(1);
    assert_eq!(pool.receive(1), Delivery::Job(1));
    pool.finish(1, JobOutcome::Panicked);
    // Worker 0 has not yet run into the poisoned lock.
    assert_eq!(pool.shutdown(), ShutdownStatus::Pending(0));
    assert_eq!(pool.receive(0), Delivery::Poisoned);
    assert_eq!(pool.shutdown(), ShutdownStatus::Failed(0));
}

#[test]
fn jobs_need_not_be_numbers() {
    let mut pool = ThreadPool::<String>::build(1).ok().unwrap();
    pool.execute(String::from("first"));
    pool.execute(String::from("second"));
    assert_eq!(pool.receive(0), Delivery::Job(String::from("first")));
    pool.finish(0, JobOutcome::Returned);
    assert_eq!(pool.receive(0), Delivery::Job(String::from("second")));
}

#[test]
fn pool_with_dead_workers_has_no_one_to_take_a_job() {
    let mut pool = ThreadPool::<u32>::build(2).ok().unwrap();
    pool.execute(1);
    assert_eq!(pool.receive(0), Delivery::Job(1));
    pool.finish(0, JobOutcome::Panicked);
    // Worker 1 has not yet run into the poisoned lock: the channel has a
    // consumer and takes a job.
    assert!(pool.is_open());
    assert!(pool.has_live_worker());
    pool.execute(2);
    assert_eq!(pool.receive(1), Delivery::Poisoned);
    // Every thread has died: the pool is open, and no one is left to receive.
    assert!(pool.is_open());
    assert!(!pool.has_live_worker());
    assert_eq!(pool.queued(), 1);
}

#[test]
fn single_worker_that_died_leaves_no_live_worker() {
    let mut pool = ThreadPool::<u32>::build(1).ok().unwrap();
    pool.execute(9);
    assert_eq!(pool.receive(0), Delivery::Job(9));
    assert!(pool.has_live_worker());
    pool.finish(0, JobOutcome::Panicked);
    assert!(!pool.has_live_worker());
    assert_eq!(pool.shutdown(), ShutdownStatus::Failed(0));
}

#[test]
fn executing_worker_counts_as_live() {
    let mut pool = ThreadPool::<u32>::build(1).ok().unwrap();
    pool.execute(4);
    assert_eq!(pool.receive(0), Delivery::Job(4));
    assert!(pool.has_live_worker());
    pool.execute(5);
    assert_eq!(pool.queued(), 1);
}

#[test]
fn no_worker_is_live_once_the_teardown_is_complete() {
    let mut pool = ThreadPool::<u32>::build(2).ok().unwrap();
    assert_eq!(pool.shutdown(), ShutdownStatus::Pending(0));
    assert!(pool.has_live_worker());
    assert_eq!(pool.receive(0), Delivery::Closed);
    assert!(pool.has_live_worker());
    assert_eq!(pool.receive(1), Delivery::Closed);
    assert!(!pool.has_live_worker());
    assert_eq!(pool.shutdown(), ShutdownStatus::Complete);
}
