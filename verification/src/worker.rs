//! A single worker: an identity (used for diagnostics and join order only)
//! and the lifecycle of its dedicated execution thread.

use vstd::prelude::*;

verus! {

/// The lifecycle of one worker's thread.
#[derive(Clone, Copy, PartialEq, Eq, Structural, Debug)]
pub enum WorkerState {
    /// Looping: blocked on receive, or executing a job to completion.
    Running,
    /// Observed the closed signal; the thread function is returning and the
    /// thread is joinable.
    Terminating,
    /// A job's execution failed; the failure tore down this worker's thread
    /// and the worker is not replaced.
    Panicked,
    /// The thread was reclaimed cleanly.
    Joined,
    /// The thread was reclaimed, and the join reported a failure.
    JoinFailed,
}

/// One worker of the pool.
#[derive(Clone, Copy, PartialEq, Eq, Structural, Debug)]
pub struct Worker {
    pub id: usize,
    pub state: WorkerState,
}

impl Worker {
    /// True while the worker's thread is alive (running or exiting), i.e.
    /// not yet reclaimed by a join.
    pub open spec fn is_reclaimed(self) -> bool {
        self.state is Joined || self.state is JoinFailed
    }

    /// A freshly spawned worker, already in its receive loop.
    pub fn new(id: usize) -> (w: Worker)
        ensures
            w.id == id,
            w.state is Running,
    {
        Worker { id, state: WorkerState::Running }
    }

    /// The worker saw the closed signal on an empty queue: its loop ends and
    /// its thread becomes joinable.
    pub fn observe_closed(&mut self)
        requires
            old(self).state is Running,
        ensures
            final(self).id == old(self).id,
            final(self).state is Terminating,
    {
        self.state = WorkerState::Terminating;
    }

    /// A job this worker was executing failed. Only this worker's thread
    /// terminates; nothing shared is touched.
    pub fn record_job_failure(&mut self)
        requires
            old(self).state is Running,
        ensures
            final(self).id == old(self).id,
            final(self).state is Panicked,
    {
        self.state = WorkerState::Panicked;
    }

    /// Reclaim the worker's thread. A thread that exited its loop joins
    /// cleanly; one torn down by a job failure is reported as unclean.
    pub fn join(&mut self) -> (clean: bool)
        requires
            old(self).state is Terminating || old(self).state is Panicked,
        ensures
            final(self).id == old(self).id,
            clean <==> old(self).state is Terminating,
            old(self).state is Terminating ==> final(self).state is Joined,
            old(self).state is Panicked ==> final(self).state is JoinFailed,
    {
        match self.state {
            WorkerState::Terminating => {
                self.state = WorkerState::Joined;
                true
            }
            _ => {
                self.state = WorkerState::JoinFailed;
                false
            }
        }
    }
}

} // verus!
