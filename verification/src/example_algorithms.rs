//! Example implementations of the algorithm and clock interfaces.

use crate::algorithms::{Algorithm, NonConformance, RateLimitState};
use crate::clock::Clock;
use crate::errors::{InconsistentCapacity, NegativeMultiDecision};
use crate::nanos::Nanos;
use crate::state::direct::DirectRateLimiter;
use vstd::prelude::*;

verus! {

/// The most naive implementation of a rate limiter ever: it allows every
/// cell through, unconditionally, and keeps no state.
#[derive(Clone, Copy, Debug, PartialEq, Eq, Structural)]
pub struct Allower {}

impl Allower {
    /// Returns a rate limiter that lies: it allows all requests through.
    pub fn ratelimiter() -> (r: DirectRateLimiter<Allower, Always>) {
        // these numbers are fake, made up for convenience
        DirectRateLimiter::per_second(1)
    }
}

/// The (absent) state of an [`Allower`] bucket.
#[derive(Clone, Copy, Debug, PartialEq, Eq, Structural)]
pub struct AllowerState {}

impl RateLimitState<Allower> for AllowerState {
    /// The stateless bucket is always as fresh as a new one.
    open spec fn spec_last_touched(&self, params: Allower) -> Option<Nanos> {
        None
    }

    fn last_touched(&self, params: &Allower) -> (r: Option<Nanos>) {
        None
    }
}

/// A non-error: the [`Allower`] always returns a positive decision, so no
/// value of this type is ever made, and nothing outside this module could
/// make one.
#[derive(Clone, Copy, Debug, PartialEq, Eq, Structural)]
pub struct Impossible {
    never: bool,
}

impl NonConformance for Impossible {
    /// Vacuous: no caller ever holds a value to ask this of.
    open spec fn spec_earliest(&self) -> Nanos {
        Nanos(0)
    }

    /// Vacuous, like the earliest instant.
    open spec fn spec_wait_from(&self, from: Nanos) -> Nanos {
        Nanos(0)
    }

    fn earliest_possible(&self) -> (r: Nanos) {
        Nanos(0)
    }

    fn wait_time_from(&self, from: Nanos) -> (r: Nanos) {
        Nanos(0)
    }
}

impl Algorithm for Allower {
    type BucketState = AllowerState;

    type NegativeDecision = Impossible;

    open spec fn wf(&self) -> bool {
        true
    }

    open spec fn state_wf(&self, s: AllowerState) -> bool {
        true
    }

    open spec fn spec_default_state(&self) -> AllowerState {
        AllowerState {  }
    }

    open spec fn spec_result(&self, s: AllowerState, n: u32, at: Nanos) -> Result<
        (),
        NegativeMultiDecision<Impossible>,
    > {
        Ok(())
    }

    open spec fn spec_next(&self, s: AllowerState, n: u32, at: Nanos) -> AllowerState {
        AllowerState {  }
    }

    open spec fn spec_insufficient(&self, n: u32) -> bool {
        false
    }

    open spec fn spec_within_horizon(&self, s: AllowerState, n: u32, at: Nanos) -> bool {
        true
    }

    open spec fn spec_params(capacity: u32, cell_weight: u32, per_time_unit: Nanos) -> Allower {
        Allower {  }
    }

    /// The parameters play no role, but an inconsistent configuration is
    /// still reported, to keep construction uniform across algorithms.
    fn construct(capacity: u32, cell_weight: u32, per_time_unit: Nanos) -> (r: Result<
        Allower,
        InconsistentCapacity,
    >) {
        if capacity == 0 || cell_weight == 0 || capacity < cell_weight {
            return Err(InconsistentCapacity::new(capacity, cell_weight));
        }
        Ok(Allower {  })
    }

    fn default_state(&self) -> (s: AllowerState) {
        AllowerState {  }
    }

    /// Allows all cells through, unconditionally.
    fn test_n_and_update(&self, state: &mut AllowerState, n: u32, at: Nanos) -> (r: Result<
        (),
        NegativeMultiDecision<Impossible>,
    >) {
        Ok(())
    }

    proof fn lemma_all_or_nothing(&self, s: AllowerState, n: u32, at: Nanos) {
    }

    proof fn lemma_capacity_floor(&self, s: AllowerState, n: u32, at: Nanos, at2: Nanos) {
    }

    proof fn lemma_single_cell(&self) {
        assert(!self.spec_insufficient(1));
    }

    proof fn lemma_wait_time(&self, s: AllowerState, n: u32, at: Nanos) {
    }
}

/// A pseudo-clock that never moves: it always reads zero. It drives the
/// [`Allower`], which never denies a request anyway.
#[derive(Clone, Copy, Debug, PartialEq, Eq, Structural)]
pub struct Always {}

impl Default for Always {
    fn default() -> (r: Always)
        ensures
            r == (Always {  }),
    {
        Always {  }
    }
}

impl Clock for Always {
    /// The reading is always zero.
    open spec fn spec_reading(&self, t: Nanos) -> bool {
        t.0 == 0
    }

    fn now(&self) -> (r: Nanos) {
        Nanos(0)
    }
}

} // verus!
