use riotpool::pool::{PoolError, ThreadPool};
use riotpool::queue::{JobQueue, Recv};
use riotpool::worker::{Worker, WorkerState};

#[test]
fn new_zero_fails() {
    // A pool of zero workers is a construction contract violation.
    let r = ThreadPool::<u64>::new(0);
    assert!(matches!(r, Err(PoolError::ZeroSize)));
}

#[test]
fn new_creates_n_workers() {
    for n in 1..6usize {
        let p = ThreadPool::<u64>::new(n).unwrap();
        assert_eq!(p.workers.len(), n);
        for (k, w) in p.workers.iter().enumerate() {
            assert_eq!(w.id, k + 1);
            assert_eq!(w.state, WorkerState::Running);
        }
        assert!(p.queue.accepting);
        assert!(p.queue.items.is_empty());
    }
}

#[test]
fn jobs_executed_exactly_once() {
    // Ten jobs with observable side effects: each bumps a counter slot once.
    let m = 10u64;
    let mut p = ThreadPool::<u64>::new(3).unwrap();
    for j in 0..m {
        p.execute(j).unwrap();
    }
    let mut counts = vec![0u32; m as usize];

    // A few jobs are taken by the workers while the pool runs...
    for i in 0..3usize {
        match p.worker_receive(i) {
            Recv::Job(j) => counts[j as usize] += 1,
            _ => panic!("a queued job was expected"),
        }
    }
    // ...and the rest drain at shutdown, handed back to be run.
    let report = p.shutdown();
    assert!(report.dropped.is_empty());
    for j in report.ran {
        counts[j as usize] += 1;
    }
    // The counter equals the number of submissions exactly: none executed
    // twice, none dropped.
    assert!(counts.iter().all(|&c| c == 1));
    assert_eq!(counts.iter().sum::<u32>(), m as u32);
}

#[test]
fn no_two_dequeues_share_a_job() {
    // Two workers interleave their dequeues; no job instance appears twice.
    let mut p = ThreadPool::<u64>::new(2).unwrap();
    for j in 0..8u64 {
        p.execute(100 + j).unwrap();
    }
    let mut seen = Vec::new();
    for round in 0..8usize {
        match p.worker_receive(round % 2) {
            Recv::Job(j) => seen.push(j),
            _ => panic!("a queued job was expected"),
        }
    }
    let mut unique = seen.clone();
    unique.sort();
    unique.dedup();
    assert_eq!(unique.len(), seen.len());
    assert_eq!(seen, (0..8u64).map(|j| 100 + j).collect::<Vec<_>>());
}

#[test]
fn shutdown_is_idempotent() {
    let mut p = ThreadPool::<u64>::new(2).unwrap();
    p.execute(5).unwrap();
    let first = p.shutdown();
    assert_eq!(first.ran, vec![5]);
    assert!(first.join_failures.is_empty());
    let workers_after_first = p.workers.clone();

    // A second shutdown finds the terminal state: same state, nothing
    // joined twice, nothing reported.
    let second = p.shutdown();
    assert!(second.ran.is_empty());
    assert!(second.dropped.is_empty());
    assert!(second.join_failures.is_empty());
    assert_eq!(p.workers, workers_after_first);
    assert!(!p.queue.accepting);
    assert!(p.queue.items.is_empty());
}

#[test]
fn submit_after_shutdown_errors() {
    let mut p = ThreadPool::<u64>::new(1).unwrap();
    p.shutdown();
    // The submission is reported as an error, and the job is neither queued
    // nor executed.
    let r = p.execute(9);
    assert!(matches!(r, Err(PoolError::ShutDown)));
    assert!(p.queue.items.is_empty());
    let report = p.shutdown();
    assert!(report.ran.is_empty());
    assert!(report.dropped.is_empty());
}

#[test]
fn slow_job_does_not_block_the_other_worker() {
    // Pool of two: job A is slow, job B completes immediately on the other
    // worker while A is still in flight; both complete exactly once.
    let mut p = ThreadPool::<&str>::new(2).unwrap();
    p.execute("A").unwrap();
    p.execute("B").unwrap();

    let mut results: Vec<&str> = Vec::new();
    // Worker 1 takes A and is busy with it for a while.
    let slow = match p.worker_receive(0) {
        Recv::Job(j) => j,
        _ => panic!("a queued job was expected"),
    };
    // Worker 2 takes B and finishes it before A completes.
    match p.worker_receive(1) {
        Recv::Job(j) => results.push(j),
        _ => panic!("a queued job was expected"),
    }
    // A's sleep ends; its effect is recorded too.
    results.push(slow);

    let report = p.shutdown();
    assert!(report.ran.is_empty());
    assert_eq!(results.iter().filter(|s| **s == "A").count(), 1);
    assert_eq!(results.iter().filter(|s| **s == "B").count(), 1);
    assert_eq!(results.len(), 2);
}

#[test]
fn single_worker_preserves_submission_order() {
    let mut p = ThreadPool::<usize>::new(1).unwrap();
    for j in 0..5usize {
        p.execute(j).unwrap();
    }
    let mut seen: Vec<usize> = Vec::new();
    loop {
        match p.worker_receive(0) {
            Recv::Job(j) => seen.push(j),
            Recv::Pending => break,
            Recv::Closed => panic!("the queue is still open"),
        }
    }
    assert_eq!(seen, vec![0, 1, 2, 3, 4]);

    // The worker then observes the closed signal and is joined cleanly.
    p.begin_shutdown();
    assert!(matches!(p.worker_receive(0), Recv::Closed));
    assert_eq!(p.workers[0].state, WorkerState::Terminating);
    assert!(p.join_worker(0));
    assert_eq!(p.workers[0].state, WorkerState::Joined);
}

#[test]
fn job_failure_terminates_only_that_worker() {
    let mut p = ThreadPool::<u64>::new(2).unwrap();
    p.execute(1).unwrap();
    p.execute(2).unwrap();
    match p.worker_receive(0) {
        Recv::Job(j) => assert_eq!(j, 1),
        _ => panic!("a queued job was expected"),
    }
    // The job tears down worker 1's thread; the queue and worker 2 are
    // untouched, and the pool keeps accepting.
    p.record_job_failure(0);
    assert_eq!(p.workers[0].state, WorkerState::Panicked);
    assert_eq!(p.workers[1].state, WorkerState::Running);
    assert!(p.queue.accepting);
    assert_eq!(p.queue.items, vec![2]);

    // Shutdown drains the rest through the live worker and reports the
    // failed join without abandoning the others.
    let report = p.shutdown();
    assert_eq!(report.ran, vec![2]);
    assert!(report.dropped.is_empty());
    assert_eq!(report.join_failures, vec![1]);
    assert_eq!(p.workers[0].state, WorkerState::JoinFailed);
    assert_eq!(p.workers[1].state, WorkerState::Joined);
}

#[test]
fn pending_jobs_are_reported_when_no_worker_remains() {
    let mut p = ThreadPool::<u64>::new(1).unwrap();
    p.execute(7).unwrap();
    p.execute(8).unwrap();
    match p.worker_receive(0) {
        Recv::Job(j) => assert_eq!(j, 7),
        _ => panic!("a queued job was expected"),
    }
    p.record_job_failure(0);
    let report = p.shutdown();
    assert!(report.ran.is_empty());
    assert_eq!(report.dropped, vec![8]);
    assert_eq!(report.join_failures, vec![1]);
}

#[test]
fn equal_job_values_are_distinct_instances() {
    // Two submissions of the same value are two jobs: both run, once each.
    let mut p = ThreadPool::<u64>::new(1).unwrap();
    p.execute(5).unwrap();
    p.execute(5).unwrap();
    let report = p.shutdown();
    assert_eq!(report.ran, vec![5, 5]);
    assert!(report.dropped.is_empty());
}

#[test]
fn queue_send_receive_close() {
    let mut q: JobQueue<u64> = JobQueue::new();
    assert!(matches!(q.receive(), Recv::Pending));
    q.send(1).unwrap();
    q.send(2).unwrap();
    // Closing stops new sends but the queued jobs still drain, in order.
    q.close();
    assert!(q.send(3).is_err());
    assert!(matches!(q.receive(), Recv::Job(1)));
    assert!(matches!(q.receive(), Recv::Job(2)));
    assert!(matches!(q.receive(), Recv::Closed));
    // Closing again changes nothing.
    q.close();
    assert!(matches!(q.receive(), Recv::Closed));
}

#[test]
fn worker_lifecycle() {
    let mut w = Worker::new(3);
    assert_eq!(w.id, 3);
    assert_eq!(w.state, WorkerState::Running);
    w.observe_closed();
    assert_eq!(w.state, WorkerState::Terminating);
    assert!(w.join());
    assert_eq!(w.state, WorkerState::Joined);

    let mut f = Worker::new(4);
    f.record_job_failure();
    assert_eq!(f.state, WorkerState::Panicked);
    assert!(!f.join());
    assert_eq!(f.state, WorkerState::JoinFailed);
}
