//! The decision rule of the listener-binding retry loop: a failed bind is
//! retried, after a fixed pause, until the timeout has elapsed; then the
//! last error is handed to the caller.

use vstd::prelude::*;

verus! {

/// How long the driver pauses between two bind attempts, in milliseconds.
pub const RETRY_INTERVAL_MS: u64 = 300;

/// The default time budget for binding the listener, in milliseconds.
pub const BIND_TIMEOUT_MS: u64 = 5000;

/// Decide whether a failed bind attempt is tried again: retry exactly while
/// the time elapsed since the first attempt is still below the timeout.
pub fn should_retry(elapsed_ms: u64, timeout_ms: u64) -> (r: bool)
    ensures
        r <==> elapsed_ms < timeout_ms,
{
    elapsed_ms < timeout_ms
}

} // verus!
