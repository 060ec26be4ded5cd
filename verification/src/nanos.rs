//! The time representation used by the rate limiters.
//!
//! All instants and durations are carried as a number of nanoseconds in a
//! [`Nanos`] value. An instant is measured from an arbitrary reference point
//! fixed by the clock in use; a duration is a non-negative span. Arithmetic
//! saturates at the representable horizon (about 584 years of nanoseconds),
//! so no operation on time values can overflow or panic.

use vstd::prelude::*;

verus! {

/// A span of time, or a point in time relative to a clock's reference point,
/// in nanoseconds.
#[derive(Clone, Copy, Debug, PartialEq, Eq, Structural)]
pub struct Nanos(pub u64);

/// `a + b`, saturating at `u64::MAX`.
pub open spec fn sat_add(a: u64, b: u64) -> u64 {
    if a + b > u64::MAX {
        u64::MAX
    } else {
        (a + b) as u64
    }
}

/// `a - b`, saturating at zero.
pub open spec fn sat_sub(a: u64, b: u64) -> u64 {
    if a - b < 0 {
        0u64
    } else {
        (a - b) as u64
    }
}

/// `a * b`, saturating at `u64::MAX`.
pub open spec fn sat_mul(a: u64, b: u64) -> u64 {
    if a * b > u64::MAX {
        u64::MAX
    } else {
        (a * b) as u64
    }
}

/// `max(a, b)` on nanosecond counts.
pub open spec fn max64(a: u64, b: u64) -> u64 {
    if a > b {
        a
    } else {
        b
    }
}

/// `min(a, b)` on nanosecond counts.
pub open spec fn min64(a: u64, b: u64) -> u64 {
    if a < b {
        a
    } else {
        b
    }
}

impl Nanos {
    /// The zero duration.
    pub fn zero() -> (r: Nanos)
        ensures
            r.0 == 0,
    {
        Nanos(0)
    }

    /// A duration of `n` nanoseconds.
    pub fn from_nanos(n: u64) -> (r: Nanos)
        ensures
            r.0 == n,
    {
        Nanos(n)
    }

    /// A duration of `n` microseconds, saturating.
    pub fn from_micros(n: u64) -> (r: Nanos)
        ensures
            r.0 == sat_mul(n, 1000),
    {
        Nanos(mul_sat(n, 1000))
    }

    /// A duration of `n` milliseconds, saturating.
    pub fn from_millis(n: u64) -> (r: Nanos)
        ensures
            r.0 == sat_mul(n, 1000000),
    {
        Nanos(mul_sat(n, 1000000))
    }

    /// A duration of `n` seconds, saturating.
    pub fn from_secs(n: u64) -> (r: Nanos)
        ensures
            r.0 == sat_mul(n, 1000000000),
    {
        Nanos(mul_sat(n, 1000000000))
    }

    /// The number of whole nanoseconds carried by this value.
    pub fn as_nanos(&self) -> (r: u64)
        ensures
            r == self.0,
    {
        self.0
    }

    /// Adds two spans, saturating at the representable horizon.
    pub fn saturating_add(self, other: Nanos) -> (r: Nanos)
        ensures
            r.0 == sat_add(self.0, other.0),
    {
        Nanos(self.0.saturating_add(other.0))
    }

    /// Subtracts a span, saturating at zero.
    pub fn saturating_sub(self, other: Nanos) -> (r: Nanos)
        ensures
            r.0 == sat_sub(self.0, other.0),
    {
        Nanos(self.0.saturating_sub(other.0))
    }

    /// Scales a span by a count, saturating at the representable horizon.
    pub fn saturating_mul(self, k: u32) -> (r: Nanos)
        ensures
            r.0 == sat_mul(self.0, k as u64),
    {
        Nanos(mul_sat(self.0, k as u64))
    }

    /// Divides a span by a count. Used to spread a time unit over a number
    /// of cells; the remainder below one nanosecond is dropped.
    pub fn div_u32(self, k: u32) -> (r: Nanos)
        requires
            k >= 1,
        ensures
            r.0 == self.0 / (k as u64),
    {
        Nanos(self.0 / (k as u64))
    }

    /// The time elapsed from `earlier` to `self`, zero when `earlier` is
    /// not actually earlier (a non-monotonic reading).
    pub fn duration_since(&self, earlier: Nanos) -> (r: Nanos)
        ensures
            r.0 == sat_sub(self.0, earlier.0),
    {
        Nanos(self.0.saturating_sub(earlier.0))
    }

    /// The later of two time values.
    pub fn max(self, other: Nanos) -> (r: Nanos)
        ensures
            r.0 == max64(self.0, other.0),
    {
        if self.0 > other.0 {
            self
        } else {
            other
        }
    }

    /// The earlier of two time values.
    pub fn min(self, other: Nanos) -> (r: Nanos)
        ensures
            r.0 == if self.0 < other.0 {
                self.0
            } else {
                other.0
            },
    {
        if self.0 < other.0 {
            self
        } else {
            other
        }
    }

    /// Whether this time value lies strictly before `other`.
    pub fn lt(&self, other: &Nanos) -> (r: bool)
        ensures
            r == (self.0 < other.0),
    {
        self.0 < other.0
    }

    /// Whether this time value lies at or before `other`.
    pub fn le(&self, other: &Nanos) -> (r: bool)
        ensures
            r == (self.0 <= other.0),
    {
        self.0 <= other.0
    }
}

/// `a * b` on raw counts, saturating at `u64::MAX`.
fn mul_sat(a: u64, b: u64) -> (r: u64)
    ensures
        r == sat_mul(a, b),
{
    match a.checked_mul(b) {
        Some(v) => v,
        None => u64::MAX,
    }
}

} // verus!
