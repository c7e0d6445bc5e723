//! The event loop's timing decisions: when a sampling tick is due, and how
//! long to block on input so that key latency stays bounded independently of
//! the sampling cadence.

use vstd::prelude::*;

verus! {

/// Milliseconds between two sampling ticks.
pub const TICK_INTERVAL_MS: u64 = 1000;

/// Upper bound, in milliseconds, on one blocking wait for a key event.
pub const POLL_SLICE_MS: u64 = 250;

/// Whether a sampling tick is due: at least one rule must exist and a full
/// tick interval must have elapsed since the last tick.
pub fn should_sample(rule_count: usize, elapsed_ms: u64) -> (due: bool)
    ensures
        due == (rule_count > 0 && elapsed_ms >= TICK_INTERVAL_MS),
{
    rule_count > 0 && elapsed_ms >= TICK_INTERVAL_MS
}

/// How long to block on input, given the time since the last tick: the rest
/// of the current poll slice, and never more than one slice.
pub fn poll_timeout_ms(elapsed_ms: u64) -> (timeout: u64)
    ensures
        elapsed_ms >= POLL_SLICE_MS ==> timeout == 0,
        elapsed_ms < POLL_SLICE_MS ==> timeout == POLL_SLICE_MS - elapsed_ms,
        timeout <= POLL_SLICE_MS,
{
    if elapsed_ms >= POLL_SLICE_MS {
        0
    } else {
        POLL_SLICE_MS - elapsed_ms
    }
}

} // verus!
