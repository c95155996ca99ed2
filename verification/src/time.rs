//! Spans of time and readings of the clock, counted in clock ticks.

use vstd::prelude::*;

verus! {

/// Clock ticks in a second: the rate of `embassy_time` with its `std` feature,
/// which this crate turns on.
pub const TICK_HZ: u64 = 1_000_000;

/// A span of time.
#[derive(Debug, Clone, Copy, PartialEq, Eq, Structural)]
pub struct Duration {
    /// Length in clock ticks.
    pub ticks: u64,
}

impl Duration {
    /// The span of a number of clock ticks.
    pub fn from_ticks(ticks: u64) -> (span: Self)
        ensures
            span == (Duration { ticks }),
    {
        Duration { ticks }
    }

    /// The span of a number of seconds, which must fit when counted in ticks.
    pub fn from_secs(secs: u64) -> (span: Self)
        requires
            secs * TICK_HZ <= u64::MAX,
        ensures
            span.ticks == secs * TICK_HZ,
    {
        Duration { ticks: ticks_of_secs(secs) }
    }

    /// Length in clock ticks.
    pub fn as_ticks(&self) -> (ticks: u64)
        ensures
            ticks == self.ticks,
    {
        self.ticks
    }

    /// Length in whole seconds, rounded down.
    pub fn as_secs(&self) -> (secs: u64)
        ensures
            secs == self.ticks / TICK_HZ,
    {
        secs_of_ticks(self.ticks)
    }
}

/// `embassy_time::Duration::from_secs`, read in ticks: it multiplies by the tick
/// rate, and panics where the product does not fit, which `requires` leaves out.
#[verifier::external_body]
fn ticks_of_secs(secs: u64) -> (ticks: u64)
    requires
        secs * TICK_HZ <= u64::MAX,
    ensures
        ticks == secs * TICK_HZ,
{
    embassy_time::Duration::from_secs(secs).as_ticks()
}

/// `embassy_time::Duration::as_secs` of a span given in ticks: it divides by the
/// tick rate and rounds down.
#[verifier::external_body]
fn secs_of_ticks(ticks: u64) -> (secs: u64)
    ensures
        secs == ticks / TICK_HZ,
{
    embassy_time::Duration::from_ticks(ticks).as_secs()
}

/// `embassy_time::Instant::now`, in ticks since the start of the clock. Nothing
/// is claimed of the reading.
#[verifier::external_body]
pub(crate) fn clock_ticks() -> (ticks: u64) {
    embassy_time::Instant::now().as_ticks()
}

/// A reading that the clock gave: one that [`clock_ticks`] returned.
pub closed spec fn clock_gave(ticks: u64) -> bool {
    call_ensures(clock_ticks, (), ticks)
}

/// Reads a clock once.
fn read_clock<F: Fn() -> u64>(clock: F) -> (ticks: u64)
    requires
        call_requires(clock, ()),
    ensures
        call_ensures(clock, (), ticks),
{
    clock()
}

/// The present reading of the clock, in ticks.
pub(crate) fn clock_reading() -> (ticks: u64)
    ensures
        clock_gave(ticks),
{
    read_clock(clock_ticks)
}

/// A reading is what the clock returned, and no other value counts as one that the
/// clock gave.
pub(crate) proof fn law_readings_unaltered(ticks: u64)
    ensures
        call_ensures(clock_reading, (), ticks) ==> call_ensures(clock_ticks, (), ticks),
        clock_gave(ticks) <==> call_ensures(clock_ticks, (), ticks),
{
}

} // verus!
