//! The job queue: a FIFO buffer of pending jobs together with the state of
//! its producing end. Closing the producing end is the shutdown signal; jobs
//! already queued may still drain afterwards, so no accepted job is dropped.

use vstd::prelude::*;

verus! {

/// Outcome of one receive attempt by a consumer.
pub enum Recv<J> {
    /// A job was handed out and removed from the queue.
    Job(J),
    /// The queue is closed and fully drained: the consumer must terminate.
    Closed,
    /// The queue is open but currently empty: the consumer blocks and retries.
    Pending,
}

/// Error returned when a job is sent after the producing end was closed.
#[derive(Clone, Copy, PartialEq, Eq, Structural, Debug)]
pub struct SendClosed;

/// A multi-producer hand-off buffer. `items` holds the jobs not yet handed
/// out, oldest first; `accepting` is whether the producing end is still open.
pub struct JobQueue<J> {
    pub items: Vec<J>,
    pub accepting: bool,
}

impl<J> JobQueue<J> {
    /// An empty, open queue.
    pub fn new() -> (q: JobQueue<J>)
        ensures
            q.items@ == Seq::<J>::empty(),
            q.accepting,
    {
        JobQueue { items: Vec::new(), accepting: true }
    }

    /// Enqueue a job for delivery to exactly one consumer. Fails if and only
    /// if the producing end has been closed; the failure is surfaced, never
    /// swallowed, and a rejected job is never queued.
    pub fn send(&mut self, job: J) -> (r: Result<(), SendClosed>)
        ensures
            old(self).accepting ==> r is Ok
                && final(self).items@ == old(self).items@.push(job)
                && final(self).accepting,
            !old(self).accepting ==> r is Err
                && final(self).items == old(self).items
                && !final(self).accepting,
    {
        if self.accepting {
            self.items.push(job);
            Ok(())
        } else {
            Err(SendClosed)
        }
    }

    /// One consumer's attempt to take the next job. Hands out the oldest
    /// queued job if there is one — also while closed, so that accepted jobs
    /// drain. On an empty queue the outcome tells the consumer whether to
    /// keep waiting (still open) or to terminate (closed).
    pub fn receive(&mut self) -> (r: Recv<J>)
        ensures
            final(self).accepting == old(self).accepting,
            old(self).items@.len() > 0 ==> r == Recv::Job(old(self).items@[0])
                && final(self).items@ == old(self).items@.drop_first(),
            old(self).items@.len() == 0 && !old(self).accepting ==> r is Closed
                && final(self).items == old(self).items,
            old(self).items@.len() == 0 && old(self).accepting ==> r is Pending
                && final(self).items == old(self).items,
    {
        if self.items.len() > 0 {
            let job = self.items.remove(0);
            Recv::Job(job)
        } else if !self.accepting {
            Recv::Closed
        } else {
            Recv::Pending
        }
    }

    /// Close the producing end. Queued jobs stay, so they can still drain;
    /// closing an already closed queue changes nothing.
    pub fn close(&mut self)
        ensures
            !final(self).accepting,
            final(self).items == old(self).items,
    {
        self.accepting = false;
    }
}

} // verus!
