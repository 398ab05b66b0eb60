//! Waiting on the system counter: how many ticks a span takes and when it
//! is over.

use vstd::prelude::*;

verus! {

/// Ticks of a counter of `freq` hertz in `usec` microseconds: the ticks of
/// one millisecond, rounded down, times the span, divided by 1000.
pub open spec fn spec_ticks(freq: u64, usec: u64) -> int {
    ((freq as int / 1000) * usec) / 1000
}

/// Ticks of a counter of `freq` hertz in `usec` microseconds, or nothing
/// where the product of ticks per millisecond and span exceeds 64 bits.
pub fn ticks_for(freq: u64, usec: u64) -> (ticks: Option<u64>)
    ensures
        ticks == if (freq as int / 1000) * usec > u64::MAX {
            None
        } else {
            Some(spec_ticks(freq, usec) as u64)
        },
{
    let per_msec: u64 = freq / 1000;
    match per_msec.checked_mul(usec) {
        Some(product) => Some(product / 1000),
        None => None,
    }
}

/// The counter value at which a wait of `ticks` that starts at `then` is
/// over; the largest counter value where the sum exceeds it.
pub fn deadline(then: u64, ticks: u64) -> (target: u64)
    ensures
        target == if then + ticks > u64::MAX {
            u64::MAX
        } else {
            (then + ticks) as u64
        },
{
    then.saturating_add(ticks)
}

/// Whether the wait is over at counter value `now`.
pub fn elapsed(now: u64, target: u64) -> (over: bool)
    ensures
        over == (now >= target),
{
    now >= target
}

} // verus!
