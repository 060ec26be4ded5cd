//! Time sources for the rate limiters.
//!
//! A [`Clock`] yields monotonically non-decreasing readings as [`Nanos`]
//! instants. The algorithms depend only on this contract; the clocks here
//! either keep their own notion of "now" (the fake clock, advanced by the
//! program) or read the platform's clocks through a thin trusted layer.

use crate::nanos::{sat_add, sat_sub, Nanos};
use vstd::prelude::*;

verus! {

/// A measurement of a clock: a point that can be compared to an earlier
/// one to yield the time that separates them.
pub trait Reference: Sized {
    /// The time that separates two measurements.
    spec fn spec_duration_since(&self, earlier: Self) -> Nanos;

    /// Determines the time that separates two measurements of a clock.
    fn duration_since(&self, earlier: Self) -> (r: Nanos)
        ensures
            r == self.spec_duration_since(earlier),
    ;
}

impl Reference for Nanos {
    /// Readings that seem to run backwards yield a zero separation.
    open spec fn spec_duration_since(&self, earlier: Nanos) -> Nanos {
        Nanos(sat_sub(self.0, earlier.0))
    }

    fn duration_since(&self, earlier: Nanos) -> (r: Nanos) {
        self.saturating_sub(earlier)
    }
}

/// A time source used by rate limiters.
pub trait Clock: Sized {
    /// What the clock promises of a reading taken now. A deterministic
    /// clock pins the reading down; a platform clock promises nothing.
    spec fn spec_reading(&self, t: Nanos) -> bool;

    /// Returns a measurement of the clock.
    fn now(&self) -> (r: Nanos)
        ensures
            self.spec_reading(r),
    ;
}

/// A mock clock. All it does is keep track of what "now" is, relative to
/// some point meaningful to the program, and return that; it advances only
/// when the program says so.
#[derive(Clone, Copy, Debug, PartialEq, Eq, Structural)]
pub struct FakeRelativeClock {
    /// The current reading.
    pub now: Nanos,
}

impl FakeRelativeClock {
    /// Advances the fake clock by the given amount.
    pub fn advance(&mut self, by: Nanos)
        ensures
            final(self).now.0 == sat_add(old(self).now.0, by.0),
    {
        self.now = self.now.saturating_add(by);
    }
}

impl Default for FakeRelativeClock {
    /// A fake clock starts at zero.
    fn default() -> (r: FakeRelativeClock)
        ensures
            r.now.0 == 0,
    {
        FakeRelativeClock { now: Nanos(0) }
    }
}

impl Clock for FakeRelativeClock {
    /// The fake clock's reading is exactly the time it was advanced to.
    open spec fn spec_reading(&self, t: Nanos) -> bool {
        t == self.now
    }

    fn now(&self) -> (r: Nanos) {
        self.now
    }
}

#[verifier::external_type_specification]
#[verifier::external_body]
pub struct ExInstant(std::time::Instant);

#[verifier::external_type_specification]
#[verifier::external_body]
pub struct ExSystemTime(std::time::SystemTime);

/// Relies on `std::time::Instant::now`: an opaque reading of the
/// platform's monotonic clock.
#[verifier::external_body]
fn instant_now() -> std::time::Instant {
    std::time::Instant::now()
}

/// Relies on `std::time::Instant::elapsed`: the time from the measurement
/// to now, as an opaque duration.
#[verifier::external_body]
fn instant_elapsed(since: &std::time::Instant) -> std::time::Duration {
    since.elapsed()
}

/// Relies on `std::time::Duration::as_nanos`: the duration as a count of
/// whole nanoseconds.
#[verifier::external_body]
fn duration_as_nanos(d: &std::time::Duration) -> u128 {
    d.as_nanos()
}

/// Relies on `std::time::SystemTime::now`: an opaque reading of the
/// platform's wall clock.
#[verifier::external_body]
fn system_time_now() -> std::time::SystemTime {
    std::time::SystemTime::now()
}

/// Relies on `std::time::SystemTime::duration_since`: the span from the
/// epoch to the reading, or `None` when the reading lies before the epoch
/// (the wall clock may be adjusted backwards).
#[verifier::external_body]
fn system_time_since_epoch(t: &std::time::SystemTime) -> Option<std::time::Duration> {
    match t.duration_since(std::time::UNIX_EPOCH) {
        Ok(d) => Some(d),
        Err(_) => None,
    }
}

/// Clamps a nanosecond count to the representable horizon.
fn clamp_nanos(n: u128) -> (r: Nanos)
    ensures
        r.0 == if n > u64::MAX {
            u64::MAX
        } else {
            n as u64
        },
{
    if n > u64::MAX as u128 {
        Nanos(u64::MAX)
    } else {
        Nanos(n as u64)
    }
}

/// Relies on `std::time::Instant::clone`: `Instant` is a plain copyable
/// timestamp.
pub assume_specification[ <std::time::Instant as Clone>::clone ](v: &std::time::Instant) -> (r:
    std::time::Instant)
    ensures
        r == *v,
;

/// The monotonic clock of the platform. Readings are measured from the
/// moment the clock value was created.
pub struct MonotonicClock {
    epoch: std::time::Instant,
}

impl Clone for MonotonicClock {
    /// The clone measures from the same reference point.
    fn clone(&self) -> (r: MonotonicClock)
        ensures
            r == *self,
    {
        MonotonicClock { epoch: self.epoch.clone() }
    }
}

impl Default for MonotonicClock {
    /// A monotonic clock measuring from the moment of its construction.
    fn default() -> MonotonicClock {
        MonotonicClock { epoch: instant_now() }
    }
}

impl Clock for MonotonicClock {
    /// Nothing is promised of a platform reading beyond its existence.
    open spec fn spec_reading(&self, t: Nanos) -> bool {
        true
    }

    fn now(&self) -> (r: Nanos) {
        let d = instant_elapsed(&self.epoch);
        clamp_nanos(duration_as_nanos(&d))
    }
}

/// The non-monotonic wall clock of the platform. Readings are measured
/// from the system epoch and saturate at zero when the wall clock lies
/// before it.
pub struct SystemClock {
}

impl Clone for SystemClock {
    fn clone(&self) -> (r: SystemClock) {
        SystemClock {  }
    }
}

impl Default for SystemClock {
    fn default() -> SystemClock {
        SystemClock {  }
    }
}

impl Clock for SystemClock {
    /// Nothing is promised of a platform reading beyond its existence.
    open spec fn spec_reading(&self, t: Nanos) -> bool {
        true
    }

    fn now(&self) -> (r: Nanos) {
        let t = system_time_now();
        match system_time_since_epoch(&t) {
            Some(d) => clamp_nanos(duration_as_nanos(&d)),
            None => Nanos(0),
        }
    }
}

} // verus!
