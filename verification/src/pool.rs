//! The worker pool: a fixed set of workers sharing the consuming end of one
//! job queue, with submission and a deterministic, idempotent shutdown.
//!
//! The pool is verified as a transition system. Each public method is one
//! atomic step of the concurrent protocol; an unverified driver owns the
//! actual threads and serializes the steps (the shared consuming end behind a
//! lock), so the exclusive access that each `&mut self` method demands is
//! exactly the mutual exclusion the protocol requires. Two ghost histories,
//! `submitted` and `executed`, record every job that ever entered the pool
//! and every job ever handed to a worker; the well-formedness invariant ties
//! them to the queue, and the laws at the bottom of this module follow.

use vstd::prelude::*;

use crate::queue::{JobQueue, Recv};
use crate::worker::{Worker, WorkerState};

verus! {

/// A caller's usage error, surfaced rather than swallowed.
#[derive(Clone, Copy, PartialEq, Eq, Structural, Debug)]
pub enum PoolError {
    /// Construction contract violation: a pool of zero workers.
    ZeroSize,
    /// A job was submitted after shutdown had begun.
    ShutDown,
}

/// What one `shutdown` call did.
pub struct ShutdownReport<J> {
    /// The jobs still queued when shutdown began, in submission order; the
    /// remaining live workers drain and run them before terminating.
    pub ran: Vec<J>,
    /// The jobs still queued when no live worker remained to run them.
    pub dropped: Vec<J>,
    /// The ids of the workers whose threads could not be joined cleanly,
    /// in worker-id order.
    pub join_failures: Vec<usize>,
}

/// The ids of the workers in `ws` whose threads will not join cleanly,
/// in position order.
pub open spec fn failed_ids(ws: Seq<Worker>) -> Seq<usize>
    decreases ws.len(),
{
    if ws.len() == 0 {
        Seq::empty()
    } else if ws.last().state is Panicked {
        failed_ids(ws.drop_last()).push(ws.last().id)
    } else {
        failed_ids(ws.drop_last())
    }
}

/// The state a worker reaches once shutdown has reclaimed its thread.
pub open spec fn joined_form(w: Worker) -> Worker {
    if w.state is Panicked || w.state is JoinFailed {
        Worker { id: w.id, state: WorkerState::JoinFailed }
    } else {
        Worker { id: w.id, state: WorkerState::Joined }
    }
}

/// A fixed-size worker pool.
pub struct ThreadPool<J> {
    /// The workers, with worker `k` (zero-based) carrying id `k + 1`.
    pub workers: Vec<Worker>,
    /// The shared job queue; its producing end is open until shutdown.
    pub queue: JobQueue<J>,
    /// Ghost history: every job ever accepted by `execute`, in order.
    pub submitted: Ghost<Seq<J>>,
    /// Ghost history: every job ever handed to a worker, in order.
    pub executed: Ghost<Seq<J>>,
    /// Ghost history: jobs discarded at shutdown because no live worker
    /// remained to run them.
    pub discarded: Ghost<Seq<J>>,
}

impl<J> ThreadPool<J> {
    /// Well-formedness: worker `k` carries id `k + 1`; every accepted job is
    /// in exactly one place — already handed out, discarded at shutdown, or
    /// still pending, in that order; and jobs are discarded only by a
    /// shutdown that found no live worker, after which the queue is closed
    /// and stays drained.
    pub open spec fn wf(self) -> bool {
        &&& self.workers@.len() >= 1
        &&& forall|k: int|
            0 <= k < self.workers@.len() ==> (#[trigger] self.workers@[k]).id == k + 1
        &&& self.submitted@ == self.executed@ + self.discarded@ + self.queue.items@
        &&& self.discarded@.len() > 0 ==> !self.queue.accepting && self.queue.items@.len() == 0
    }

    /// The number of workers, fixed at construction.
    pub open spec fn size(self) -> nat {
        self.workers@.len()
    }

    /// The jobs accepted but not yet handed to any worker, oldest first.
    pub open spec fn pending(self) -> Seq<J> {
        self.queue.items@
    }

    /// Whether the producing end is still open for submissions.
    pub open spec fn is_accepting(self) -> bool {
        self.queue.accepting
    }

    /// Whether some worker's thread is still in its receive loop.
    pub open spec fn some_worker_live(self) -> bool {
        exists|k: int|
            0 <= k < self.workers@.len() && (#[trigger] self.workers@[k]).state is Running
    }

    /// The terminal state `shutdown` leaves behind: submissions closed,
    /// nothing pending, every worker's thread reclaimed.
    pub open spec fn is_terminal(self) -> bool {
        &&& !self.is_accepting()
        &&& self.pending().len() == 0
        &&& forall|k: int|
            0 <= k < self.workers@.len() ==> (#[trigger] self.workers@[k]).is_reclaimed()
    }

    /// What `new` returns on success: `size` workers with ids `1..=size`,
    /// all running, and nothing submitted yet.
    pub open spec fn is_fresh(self, size: nat) -> bool {
        &&& self.size() == size
        &&& forall|k: int|
            0 <= k < self.workers@.len() ==> (#[trigger] self.workers@[k]).state is Running
        &&& self.is_accepting()
        &&& self.pending() == Seq::<J>::empty()
        &&& self.submitted@ == Seq::<J>::empty()
        &&& self.executed@ == Seq::<J>::empty()
        &&& self.discarded@ == Seq::<J>::empty()
    }

    /// Create a pool of exactly `size` workers, all running before the call
    /// returns. A size of zero is a construction contract violation and
    /// fails immediately; it is never coerced to a larger size.
    pub fn new(size: usize) -> (r: Result<ThreadPool<J>, PoolError>)
        ensures
            size == 0 <==> r is Err,
            r is Err ==> r->Err_0 == PoolError::ZeroSize,
            r is Ok ==> r->Ok_0.wf() && r->Ok_0.is_fresh(size as nat),
    {
        if size == 0 {
            return Err(PoolError::ZeroSize);
        }
        let mut workers: Vec<Worker> = Vec::new();
        let mut i: usize = 0;
        while i < size
            invariant
                i <= size,
                workers@.len() == i,
                forall|k: int|
                    0 <= k < i ==> (#[trigger] workers@[k]).id == k + 1
                        && workers@[k].state is Running,
            decreases size - i,
        {
            workers.push(Worker::new(i + 1));
            i = i + 1;
        }
        Ok(ThreadPool {
            workers,
            queue: JobQueue::new(),
            submitted: Ghost(Seq::empty()),
            executed: Ghost(Seq::empty()),
            discarded: Ghost(Seq::empty()),
        })
    }

    /// Hand a job to the producing end of the queue: fire and forget, no
    /// result handle. Succeeds if and only if shutdown has not begun; after
    /// shutdown the submission is rejected loudly and the job is neither
    /// queued nor executed.
    pub fn execute(&mut self, job: J) -> (r: Result<(), PoolError>)
        requires
            old(self).wf(),
        ensures
            final(self).wf(),
            final(self).workers@ == old(self).workers@,
            final(self).executed@ == old(self).executed@,
            final(self).discarded@ == old(self).discarded@,
            final(self).is_accepting() == old(self).is_accepting(),
            old(self).is_accepting() ==> r is Ok
                && final(self).submitted@ == old(self).submitted@.push(job)
                && final(self).pending() == old(self).pending().push(job),
            !old(self).is_accepting() ==> r == Err::<(), PoolError>(PoolError::ShutDown)
                && final(self).submitted@ == old(self).submitted@
                && final(self).pending() == old(self).pending(),
    {
        match self.queue.send(job) {
            Ok(()) => {
                self.submitted = Ghost(self.submitted@.push(job));
                Ok(())
            }
            Err(_) => Err(PoolError::ShutDown),
        }
    }

    /// Worker `i`'s turn at the shared consuming end. The exclusive access
    /// demanded here is the per-job mutual exclusion of the take-next-job
    /// step: while one worker takes, no other can. The oldest pending job is
    /// handed out (also while shutting down, so accepted jobs drain); on an
    /// empty queue the worker either keeps waiting (still open) or observes
    /// the closed signal and terminates.
    pub fn worker_receive(&mut self, i: usize) -> (r: Recv<J>)
        requires
            old(self).wf(),
            i < old(self).workers@.len(),
            old(self).workers@[i as int].state is Running,
        ensures
            final(self).wf(),
            final(self).submitted@ == old(self).submitted@,
            final(self).discarded@ == old(self).discarded@,
            final(self).is_accepting() == old(self).is_accepting(),
            old(self).pending().len() > 0 ==> r == Recv::Job(old(self).pending()[0])
                && final(self).pending() == old(self).pending().drop_first()
                && final(self).executed@ == old(self).executed@.push(old(self).pending()[0])
                && final(self).workers@ == old(self).workers@,
            old(self).pending().len() == 0 && !old(self).is_accepting() ==> r is Closed
                && final(self).workers@ == old(self).workers@.update(
                    i as int,
                    (Worker { id: old(self).workers@[i as int].id, state: WorkerState::Terminating }),
                )
                && final(self).executed@ == old(self).executed@
                && final(self).pending() == old(self).pending(),
            old(self).pending().len() == 0 && old(self).is_accepting() ==> r is Pending
                && final(self).workers@ == old(self).workers@
                && final(self).executed@ == old(self).executed@
                && final(self).pending() == old(self).pending(),
    {
        match self.queue.receive() {
            Recv::Job(job) => {
                self.executed = Ghost(self.executed@.push(job));
                proof {
                    // A pending job means nothing was ever discarded.
                    assert(self.discarded@ =~= Seq::<J>::empty());
                    assert(self.submitted@ =~= self.executed@ + self.discarded@
                        + self.queue.items@);
                }
                Recv::Job(job)
            }
            Recv::Closed => {
                let mut w = self.workers[i];
                w.observe_closed();
                self.workers[i] = w;
                Recv::Closed
            }
            Recv::Pending => Recv::Pending,
        }
    }

    /// Worker `i` reports that the job it was executing failed. Only that
    /// worker's thread terminates — the queue, the histories and every other
    /// worker are untouched — and the worker is not replaced.
    pub fn record_job_failure(&mut self, i: usize)
        requires
            old(self).wf(),
            i < old(self).workers@.len(),
            old(self).workers@[i as int].state is Running,
        ensures
            final(self).wf(),
            final(self).workers@ == old(self).workers@.update(
                i as int,
                (Worker { id: old(self).workers@[i as int].id, state: WorkerState::Panicked }),
            ),
            final(self).queue == old(self).queue,
            final(self).submitted@ == old(self).submitted@,
            final(self).executed@ == old(self).executed@,
            final(self).discarded@ == old(self).discarded@,
    {
        let mut w = self.workers[i];
        w.record_job_failure();
        self.workers[i] = w;
    }

    /// Close the producing end, so that workers drain the queue and then
    /// terminate. This is the first half of `shutdown`, the step a driver
    /// takes before it can wait for its worker threads. Idempotent: closing
    /// an already closed pool changes nothing.
    pub fn begin_shutdown(&mut self)
        requires
            old(self).wf(),
        ensures
            final(self).wf(),
            !final(self).is_accepting(),
            final(self).workers@ == old(self).workers@,
            final(self).pending() == old(self).pending(),
            final(self).submitted@ == old(self).submitted@,
            final(self).executed@ == old(self).executed@,
            final(self).discarded@ == old(self).discarded@,
    {
        self.queue.close();
    }

    /// Reclaim worker `i`'s thread, once it has terminated. The second half
    /// of `shutdown`, one worker at a time, for a driver that joins its
    /// threads itself; reports whether the join was clean.
    pub fn join_worker(&mut self, i: usize) -> (clean: bool)
        requires
            old(self).wf(),
            i < old(self).workers@.len(),
            old(self).workers@[i as int].state is Terminating
                || old(self).workers@[i as int].state is Panicked,
        ensures
            final(self).wf(),
            clean <==> old(self).workers@[i as int].state is Terminating,
            final(self).workers@ == old(self).workers@.update(
                i as int,
                joined_form(old(self).workers@[i as int]),
            ),
            final(self).queue == old(self).queue,
            final(self).submitted@ == old(self).submitted@,
            final(self).executed@ == old(self).executed@,
            final(self).discarded@ == old(self).discarded@,
    {
        self.join_worker_local(i)
    }

    /// The whole shutdown protocol in one deterministic step: close the
    /// producing end exactly once, let the live workers drain and run every
    /// job still pending (returned as `ran`, in order, for the driver that
    /// executes them), then reclaim every worker thread in worker-id order,
    /// reporting — not masking — each one that cannot be joined cleanly.
    /// If no live worker remains, the pending jobs are reported as `dropped`.
    ///
    /// Afterwards the pool is terminal and every further submission fails.
    /// Idempotent: a second call finds the terminal state, changes nothing,
    /// joins nothing twice, and reports nothing.
    pub fn shutdown(&mut self) -> (r: ShutdownReport<J>)
        requires
            old(self).wf(),
        ensures
            final(self).wf(),
            final(self).is_terminal(),
            final(self).submitted@ == old(self).submitted@,
            final(self).workers@ == old(self).workers@.map_values(|w: Worker| joined_form(w)),
            r.join_failures@ == failed_ids(old(self).workers@),
            (forall|k: int| 0 <= k < old(self).workers@.len()
                ==> !((#[trigger] old(self).workers@[k]).state is Panicked))
                ==> r.join_failures@.len() == 0,
            old(self).some_worker_live() ==> r.ran@ == old(self).pending()
                && r.dropped@.len() == 0
                && final(self).executed@ == old(self).executed@ + old(self).pending()
                && final(self).discarded@ == old(self).discarded@,
            !old(self).some_worker_live() ==> r.ran@.len() == 0
                && r.dropped@ == old(self).pending()
                && final(self).executed@ == old(self).executed@
                && final(self).discarded@ == old(self).discarded@ + old(self).pending(),
            old(self).some_worker_live() && old(self).discarded@.len() == 0
                ==> final(self).executed@ == old(self).submitted@,
            old(self).is_terminal() ==> final(self).workers@ == old(self).workers@
                && final(self).executed@ == old(self).executed@
                && final(self).discarded@ == old(self).discarded@
                && r.ran@.len() == 0
                && r.dropped@.len() == 0
                && r.join_failures@.len() == 0,
    {
        // Is any worker still in its receive loop to drain the queue?
        let mut has_live = false;
        let mut k: usize = 0;
        while k < self.workers.len()
            invariant
                k <= self.workers@.len(),
                self == old(self),
                has_live <==> exists|j: int|
                    0 <= j < k && (#[trigger] self.workers@[j]).state is Running,
            decreases self.workers@.len() - k,
        {
            if matches!(self.workers[k].state, WorkerState::Running) {
                has_live = true;
            }
            k = k + 1;
        }

        self.queue.close();

        // Drain: the pending jobs go to the live workers (handed back to the
        // driver to run), or are discarded if no live worker remains.
        let mut ran: Vec<J> = Vec::new();
        let mut dropped: Vec<J> = Vec::new();
        while self.queue.items.len() > 0
            invariant
                old(self).wf(),
                self.workers@ == old(self).workers@,
                self.submitted@ == old(self).submitted@,
                !self.queue.accepting,
                has_live <==> old(self).some_worker_live(),
                ran@ + dropped@ + self.queue.items@ == old(self).pending(),
                has_live ==> dropped@.len() == 0
                    && self.executed@ == old(self).executed@ + ran@
                    && self.discarded@ == old(self).discarded@,
                !has_live ==> ran@.len() == 0
                    && self.executed@ == old(self).executed@
                    && self.discarded@ == old(self).discarded@ + dropped@,
                self.submitted@ == self.executed@ + self.discarded@ + self.queue.items@,
            decreases self.queue.items@.len(),
        {
            match self.queue.receive() {
                Recv::Job(job) => {
                    if has_live {
                        self.executed = Ghost(self.executed@.push(job));
                        ran.push(job);
                        proof {
                            // The queue held a job, so nothing was ever discarded.
                            assert(old(self).pending().len() > 0);
                            assert(self.discarded@ =~= Seq::<J>::empty());
                            assert(ran@ + dropped@ + self.queue.items@
                                =~= old(self).pending());
                            assert(self.executed@ =~= old(self).executed@ + ran@);
                            assert(self.submitted@
                                =~= self.executed@ + self.discarded@ + self.queue.items@);
                        }
                    } else {
                        self.discarded = Ghost(self.discarded@.push(job));
                        dropped.push(job);
                        proof {
                            assert(ran@ + dropped@ + self.queue.items@
                                =~= old(self).pending());
                            assert(self.discarded@ =~= old(self).discarded@ + dropped@);
                            assert(self.submitted@
                                =~= self.executed@ + self.discarded@ + self.queue.items@);
                        }
                    }
                }
                Recv::Closed => {
                    assert(false);
                }
                Recv::Pending => {
                    assert(false);
                }
            }
        }
        proof {
            assert(ran@ + dropped@ + self.queue.items@ == old(self).pending());
            if has_live {
                assert(ran@ =~= old(self).pending());
            } else {
                assert(dropped@ =~= old(self).pending());
            }
        }

        // Reclaim every worker thread, in worker-id order. A live worker
        // observes the closed signal on the now empty queue, terminates and
        // joins cleanly; a worker torn down by a job failure is reported.
        let mut join_failures: Vec<usize> = Vec::new();
        let mut i: usize = 0;
        while i < self.workers.len()
            invariant
                i <= self.workers@.len(),
                self.workers@.len() == old(self).workers@.len(),
                forall|k2: int| 0 <= k2 < old(self).workers@.len()
                    ==> (#[trigger] old(self).workers@[k2]).id == k2 + 1,
                self.queue == old(self).queue || !self.queue.accepting,
                self.queue.items@.len() == 0,
                !self.queue.accepting,
                self.submitted@ == old(self).submitted@,
                self.submitted@ == self.executed@ + self.discarded@ + self.queue.items@,
                has_live ==> self.executed@ == old(self).executed@ + old(self).pending()
                    && self.discarded@ == old(self).discarded@,
                !has_live ==> self.executed@ == old(self).executed@
                    && self.discarded@ == old(self).discarded@ + old(self).pending(),
                forall|k2: int| 0 <= k2 < i
                    ==> #[trigger] self.workers@[k2] == joined_form(old(self).workers@[k2]),
                forall|k2: int| i <= k2 < self.workers@.len()
                    ==> #[trigger] self.workers@[k2] == old(self).workers@[k2],
                join_failures@ == failed_ids(old(self).workers@.take(i as int)),
            decreases self.workers@.len() - i,
        {
            let ghost ws0 = old(self).workers@;
            let state = self.workers[i].state;
            match state {
                WorkerState::Running => {
                    let mut w = self.workers[i];
                    w.observe_closed();
                    let clean = w.join();
                    self.workers[i] = w;
                    assert(clean);
                }
                WorkerState::Terminating => {
                    let clean = self.join_worker_local(i);
                    assert(clean);
                }
                WorkerState::Panicked => {
                    let id = self.workers[i].id;
                    let clean = self.join_worker_local(i);
                    assert(!clean);
                    join_failures.push(id);
                }
                WorkerState::Joined => {}
                WorkerState::JoinFailed => {}
            }
            proof {
                assert(ws0.take(i + 1 as int).drop_last() =~= ws0.take(i as int));
                assert(ws0.take(i + 1 as int).last() == ws0[i as int]);
                if !(ws0[i as int].state is Panicked) {
                    assert(failed_ids(ws0.take(i + 1 as int))
                        == failed_ids(ws0.take(i as int)));
                } else {
                    assert(failed_ids(ws0.take(i + 1 as int))
                        == failed_ids(ws0.take(i as int)).push(ws0[i as int].id));
                }
            }
            i = i + 1;
        }
        proof {
            assert(old(self).workers@.take(old(self).workers@.len() as int)
                =~= old(self).workers@);
            assert(self.workers@
                =~= old(self).workers@.map_values(|w: Worker| joined_form(w)));
            if old(self).is_terminal() {
                assert(self.workers@ =~= old(self).workers@);
            }
            if forall|k2: int| 0 <= k2 < old(self).workers@.len()
                ==> !((#[trigger] old(self).workers@[k2]).state is Panicked) {
                lemma_failed_ids_none(old(self).workers@);
            }
            if old(self).some_worker_live() && old(self).discarded@.len() == 0 {
                assert(self.executed@ =~= old(self).submitted@);
            }
        }
        ShutdownReport { ran, dropped, join_failures }
    }

    /// One join step of `shutdown`: reclaim worker `i`'s thread, whatever
    /// else the pool is in the middle of.
    fn join_worker_local(&mut self, i: usize) -> (clean: bool)
        requires
            i < old(self).workers@.len(),
            old(self).workers@[i as int].state is Terminating
                || old(self).workers@[i as int].state is Panicked,
        ensures
            clean <==> old(self).workers@[i as int].state is Terminating,
            final(self).workers@ == old(self).workers@.update(
                i as int,
                joined_form(old(self).workers@[i as int]),
            ),
            final(self).queue == old(self).queue,
            final(self).submitted@ == old(self).submitted@,
            final(self).executed@ == old(self).executed@,
            final(self).discarded@ == old(self).discarded@,
    {
        let mut w = self.workers[i];
        let clean = w.join();
        self.workers[i] = w;
        clean
    }
}

/// Law: while a pool is well formed, what has been handed to workers is a
/// prefix of what was submitted — jobs are delivered in submission order, and
/// no submission is ever delivered ahead of an earlier one.
pub proof fn lemma_executed_is_prefix<J>(p: ThreadPool<J>)
    requires
        p.wf(),
    ensures
        p.executed@.len() <= p.submitted@.len(),
        p.executed@ == p.submitted@.take(p.executed@.len() as int),
{
    assert(p.executed@ =~= p.submitted@.take(p.executed@.len() as int));
}

/// Law: no job instance is ever handed out twice. If the submitted jobs are
/// pairwise distinct, so are the jobs handed to workers — a shared counter
/// incremented once per executed job never overshoots.
pub proof fn lemma_no_double_delivery<J>(p: ThreadPool<J>)
    requires
        p.wf(),
        forall|a: int, b: int|
            0 <= a < b < p.submitted@.len() ==> p.submitted@[a] != p.submitted@[b],
    ensures
        forall|a: int, b: int|
            0 <= a < b < p.executed@.len() ==> p.executed@[a] != p.executed@[b],
{
    lemma_executed_is_prefix(p);
    assert forall|a: int, b: int|
        0 <= a < b < p.executed@.len() implies p.executed@[a] != p.executed@[b] by {
        assert(p.executed@[a] == p.submitted@[a]);
        assert(p.executed@[b] == p.submitted@[b]);
    }
}

/// Law: once the queue has drained and nothing was discarded, every submitted
/// job has been handed to a worker exactly once, in submission order — after
/// a shutdown that still had a live worker, a counter incremented once per
/// job equals the number of submissions exactly.
pub proof fn lemma_drained_executes_all<J>(p: ThreadPool<J>)
    requires
        p.wf(),
        p.pending().len() == 0,
        p.discarded@.len() == 0,
    ensures
        p.executed@ == p.submitted@,
{
    assert(p.executed@ =~= p.submitted@);
}

/// The ids of workers that cannot join cleanly: none, when no worker's
/// thread was torn down by a job failure.
proof fn lemma_failed_ids_none(ws: Seq<Worker>)
    requires
        forall|k: int| 0 <= k < ws.len() ==> !((#[trigger] ws[k]).state is Panicked),
    ensures
        failed_ids(ws) == Seq::<usize>::empty(),
    decreases ws.len(),
{
    if ws.len() > 0 {
        lemma_failed_ids_none(ws.drop_last());
    }
}

} // verus!
