//! The system clock, as plain numbers.
//!
//! Instants are tick counts since power-up and spans are tick counts, at
//! [`TICK_HZ`] ticks per second. The functions of this module hand over to
//! `embassy_time`; what they claim of it is believed, not proved.
use vstd::prelude::*;

verus! {

/// Ticks per second, as the `tick-hz-32_768` feature of `embassy-time` sets it.
pub const TICK_HZ: u64 = 32_768;

/// Milliseconds in ticks, rounded up.
pub open spec fn ticks_in(millis: int) -> int {
    (millis * TICK_HZ + 999) / 1000
}

/// The present instant in ticks: `embassy_time::Instant::now` and `as_ticks`.
/// Nothing is claimed of what a clock shows.
#[verifier::external_body]
pub(crate) fn now_ticks() -> (ticks: u64) {
    embassy_time::Instant::now().as_ticks()
}

/// The present instant in milliseconds: `embassy_time::Instant::now` and
/// `as_millis`. Nothing is claimed of what a clock shows.
#[verifier::external_body]
pub(crate) fn now_millis() -> (millis: u64) {
    embassy_time::Instant::now().as_millis()
}

/// A span in ticks: `embassy_time::Duration::from_millis` and `as_ticks`, which
/// turn milliseconds into ticks and round up. A span that overflows on the way
/// is left out.
#[verifier::external_body]
pub(crate) fn millis_to_ticks(millis: u64) -> (ticks: u64)
    requires
        millis * 4096 + 124 <= u64::MAX,
    ensures
        ticks == ticks_in(millis as int),
{
    embassy_time::Duration::from_millis(millis).as_ticks()
}

/// A span in ticks covers its milliseconds and is the shortest that does.
pub proof fn law_ticks_round_up(millis: int)
    requires
        0 <= millis,
    ensures
        ticks_in(millis) * 1000 >= millis * 32_768,
        (ticks_in(millis) - 1) * 1000 < millis * 32_768,
{
}

} // verus!
