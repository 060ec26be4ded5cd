//! Random additional wait time.
//!
//! With jitter, rate limiters return a time estimate that is artificially
//! inflated by a sampled duration within a bounded interval. This helps
//! avoid thundering herds when many concurrent clients schedule their
//! retries from the same rejection.

use crate::algorithms::NonConformance;
use crate::errors::NegativeMultiDecision;
use crate::nanos::{sat_add, Nanos};
use vstd::prelude::*;

verus! {

/// Relies on `rand::random`: a sampled `u64`. Nothing is promised of the
/// value.
#[verifier::external_body]
fn random_u64() -> u64 {
    rand::random::<u64>()
}

/// A time interval specification that gets added to the wait time
/// returned with a rate limiter's non-conformance results: at least `min`
/// and at most `min + interval` of extra wait.
#[derive(Clone, Copy, Debug, PartialEq, Eq, Structural)]
pub struct Jitter {
    /// The least amount of extra wait.
    pub min: Nanos,
    /// The width of the sampling interval above `min`.
    pub interval: Nanos,
}

impl Jitter {
    /// A jitter interval adding at most a duration of `max`.
    pub fn up_to(max: Nanos) -> (r: Jitter)
        ensures
            r.min.0 == 0,
            r.interval == max,
    {
        Jitter { min: Nanos(0), interval: max }
    }

    /// A jitter interval adding at least `min` and at most
    /// `min + interval`.
    pub fn new(min: Nanos, interval: Nanos) -> (r: Jitter)
        ensures
            r.min == min,
            r.interval == interval,
    {
        Jitter { min, interval }
    }

    /// Returns a sampled amount of jitter within the configured interval.
    pub(crate) fn get(&self) -> (r: Nanos)
        ensures
            self.min.0 <= r.0 <= sat_add(self.min.0, self.interval.0),
    {
        let raw = random_u64();
        let offset: u64 = if self.interval.0 == u64::MAX {
            raw
        } else {
            raw % (self.interval.0 + 1)
        };
        self.min.saturating_add(Nanos(offset))
    }
}

/// A non-conforming result that has had jitter applied: the reported wait
/// is the underlying one, inflated by an offset sampled once when the
/// result was wrapped.
#[derive(Debug, PartialEq, Eq)]
pub struct NonConformanceWithJitter<NC: NonConformance> {
    /// The underlying non-conformance.
    pub inner: NC,
    /// The interval the offset was sampled from.
    pub jitter: Jitter,
    /// The sampled offset.
    pub additional: Nanos,
}

impl<NC: NonConformance> NonConformanceWithJitter<NC> {
    pub(crate) fn new(inner: NC, jitter: Jitter) -> (r: NonConformanceWithJitter<NC>)
        ensures
            r.inner == inner,
            r.jitter == jitter,
            jitter.min.0 <= r.additional.0 <= sat_add(jitter.min.0, jitter.interval.0),
    {
        let additional = jitter.get();
        NonConformanceWithJitter { inner, jitter, additional }
    }
}

impl<NC: NonConformance> NonConformance for NonConformanceWithJitter<NC> {
    /// The earliest conforming instant moves out by the sampled offset.
    open spec fn spec_earliest(&self) -> Nanos {
        Nanos(sat_add(self.inner.spec_earliest().0, self.additional.0))
    }

    /// The underlying wait, inflated by exactly the sampled offset.
    open spec fn spec_wait_from(&self, from: Nanos) -> Nanos {
        Nanos(sat_add(self.inner.spec_wait_from(from).0, self.additional.0))
    }

    fn earliest_possible(&self) -> (r: Nanos) {
        self.inner.earliest_possible().saturating_add(self.additional)
    }

    fn wait_time_from(&self, from: Nanos) -> (r: Nanos) {
        self.inner.wait_time_from(from).saturating_add(self.additional)
    }
}

/// Applies jitter to a negative single-cell decision.
///
/// See [`Jitter`].
pub trait JitterResultExt<NC: NonConformance>: Sized {
    /// Adjusts a potential negative decision so that it includes jitter.
    fn jitter(self, jitter: &Jitter) -> Result<(), NonConformanceWithJitter<NC>>;
}

impl<NC: NonConformance> JitterResultExt<NC> for Result<(), NC> {
    /// A conforming decision passes through; a rejection is wrapped with
    /// a freshly sampled offset.
    fn jitter(self, jitter: &Jitter) -> (r: Result<(), NonConformanceWithJitter<NC>>)
        ensures
            r is Ok <==> self is Ok,
            r matches Err(e) ==> (self matches Err(nc) && e.inner == nc && e.jitter == *jitter
                && jitter.min.0 <= e.additional.0 <= sat_add(jitter.min.0, jitter.interval.0)),
    {
        match self {
            Ok(()) => Ok(()),
            Err(nc) => Err(NonConformanceWithJitter::new(nc, *jitter)),
        }
    }
}

/// Applies jitter to a negative batch decision.
///
/// See [`Jitter`].
pub trait JitterMultiResultExt<NC: NonConformance>: Sized {
    /// Adjusts a potential negative decision so that it includes jitter.
    fn jitter(self, jitter: &Jitter) -> Result<
        (),
        NegativeMultiDecision<NonConformanceWithJitter<NC>>,
    >;
}

impl<NC: NonConformance> JitterMultiResultExt<NC> for Result<(), NegativeMultiDecision<NC>> {
    /// A conforming decision and an `InsufficientCapacity` rejection pass
    /// through; a batch non-conformance is wrapped with a freshly sampled
    /// offset.
    fn jitter(self, jitter: &Jitter) -> (r: Result<
        (),
        NegativeMultiDecision<NonConformanceWithJitter<NC>>,
    >)
        ensures
            r is Ok <==> self is Ok,
            r matches Err(NegativeMultiDecision::BatchNonConforming(n, e)) ==> (self matches Err(
                NegativeMultiDecision::BatchNonConforming(m, nc),
            ) && n == m && e.inner == nc && e.jitter == *jitter && jitter.min.0 <= e.additional.0
                <= sat_add(jitter.min.0, jitter.interval.0)),
            r matches Err(NegativeMultiDecision::InsufficientCapacity(n)) ==> self == Err::<
                (),
                NegativeMultiDecision<NC>,
            >(NegativeMultiDecision::InsufficientCapacity(n)),
            self matches Err(NegativeMultiDecision::InsufficientCapacity(n)) ==> r == Err::<
                (),
                NegativeMultiDecision<NonConformanceWithJitter<NC>>,
            >(NegativeMultiDecision::InsufficientCapacity(n)),
    {
        match self {
            Ok(()) => Ok(()),
            Err(NegativeMultiDecision::BatchNonConforming(n, nc)) => Err(
                NegativeMultiDecision::BatchNonConforming(
                    n,
                    NonConformanceWithJitter::new(nc, *jitter),
                ),
            ),
            Err(NegativeMultiDecision::InsufficientCapacity(n)) => Err(
                NegativeMultiDecision::InsufficientCapacity(n),
            ),
        }
    }
}

} // verus!
