//! Elapsed time between two readings of the firmware clock, in the clock's ticks.

use vstd::prelude::*;

verus! {

/// What `embassy_time::Duration::as_millis` gives for a duration of `ticks`
/// ticks (rounded down; depends on the tick rate the firmware is built with).
pub uninterp spec fn millis_of_ticks(ticks: u64) -> u64;

/// Calls `embassy_time::Duration::from_ticks(ticks).as_millis()`. Trusted: the
/// result is the named value `millis_of_ticks(ticks)`; nothing more is stated.
#[verifier::external_body]
fn ticks_as_millis(ticks: u64) -> (ms: u64)
    ensures
        ms == millis_of_ticks(ticks),
{
    embassy_time::Duration::from_ticks(ticks).as_millis()
}

/// Milliseconds from the clock reading `earlier` to the later reading `now`,
/// as the firmware's `now - earlier` measures them.
pub fn elapsed_millis(now: u64, earlier: u64) -> (ms: u64)
    requires
        earlier <= now,
    ensures
        ms == millis_of_ticks((now - earlier) as u64),
{
    ticks_as_millis(now - earlier)
}

} // verus!
