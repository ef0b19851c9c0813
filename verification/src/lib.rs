//! A fixed-size worker-thread pool, verified as a transition system.
//!
//! The pool accepts opaque jobs from producers and hands each one to exactly
//! one worker, with a deterministic, ordered shutdown. The concurrency
//! primitives themselves (threads, blocking, joining) live in the unverified
//! driver; this crate holds the protocol that the driver follows, one verified
//! transition per event:
//!
//! - [`queue`]: the FIFO job queue with its open/closed producing end;
//! - [`worker`]: the lifecycle of a single worker;
//! - [`pool`]: the pool itself — construction, submission, delivery and the
//!   shutdown protocol, with the exactly-once and ordering laws;
//! - [`route`]: the request-line routing used by the surrounding server;
//! - [`retry`]: the decision rule of the listener-binding retry loop.

pub mod pool;
pub mod queue;
pub mod retry;
pub mod route;
pub mod worker;
