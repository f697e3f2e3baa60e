//! Pacing against wall time.

use vstd::prelude::*;

verus! {

/// Nanoseconds that starting and ending a precise sleep takes by itself.
pub const SLEEP_OVERHEAD_NANOS: u64 = 100;

/// How long a precise sleep of a duration has to spin: the duration less
/// the overhead of the sleep itself, or all of it where it is shorter than
/// the overhead.
pub open spec fn spin_nanos(duration_nanos: u64) -> u64 {
    if duration_nanos >= SLEEP_OVERHEAD_NANOS {
        (duration_nanos - SLEEP_OVERHEAD_NANOS) as u64
    } else {
        duration_nanos
    }
}

/// Computes how long a precise sleep has to spin.
pub fn sleep_budget_nanos(duration_nanos: u64) -> (budget: u64)
    ensures
        budget == spin_nanos(duration_nanos),
{
    match duration_nanos.checked_sub(SLEEP_OVERHEAD_NANOS) {
        Some(budget) => budget,
        None => duration_nanos,
    }
}

} // verus!
