//! Clock ticks of the embedded time driver.

use vstd::prelude::*;

verus! {

/// Ticks of the time driver in one second.
pub const TICKS_PER_SECOND: u64 = 1_000_000;

/// The length of `seconds` seconds in ticks.
///
/// Trusted: calls `embassy_time::Duration::from_secs` and reads the result
/// back with `as_ticks`. `from_secs` multiplies by the driver's tick rate, which
/// the `tick-hz-1_000_000` feature fixes, and overflows past `u64::MAX` ticks.
#[verifier::external_body]
pub(crate) fn ticks_from_secs(seconds: u64) -> (ticks: u64)
    requires
        seconds * TICKS_PER_SECOND <= u64::MAX,
    ensures
        ticks == seconds * TICKS_PER_SECOND,
{
    embassy_time::Duration::from_secs(seconds).as_ticks()
}

} // verus!
