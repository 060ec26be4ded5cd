//! A classic leaky bucket, used as a meter.
//!
//! The bucket keeps a fill level, pretends to drip steadily (which lowers
//! the level), and raises the level by one token interval for every cell
//! found conforming. Cells that would make the bucket overflow are
//! non-conforming. The drip is computed lazily at every decision; there is
//! no background task.

use crate::algorithms::{Algorithm, NonConformance, RateLimitState};
use crate::errors::{InconsistentCapacity, NegativeMultiDecision};
use crate::nanos::{max64, min64, sat_add, sat_mul, sat_sub, Nanos};
use vstd::prelude::*;

verus! {

/// The bucket state for a single rate-limiting history: the fill level and
/// the instant at which it was last brought up to date. `None` means the
/// bucket has never been used, and then the level is zero.
#[derive(Clone, Copy, Debug, PartialEq, Eq, Structural)]
pub struct State {
    /// The current fill level, expressed as the time it takes to drain.
    pub level: Nanos,
    /// The instant of the last update, `None` for a fresh bucket.
    pub last_update: Option<Nanos>,
}

/// Returned in case of a negative decision: the instant the decision was
/// measured at, and the time that must pass from it before the same batch
/// would fit the bucket.
#[derive(Clone, Copy, Debug, PartialEq, Eq, Structural)]
pub struct TooEarly(pub Nanos, pub Nanos);

impl NonConformance for TooEarly {
    open spec fn spec_earliest(&self) -> Nanos {
        Nanos(sat_add(self.0.0, self.1.0))
    }

    /// The time left until the instant the required wait runs out.
    open spec fn spec_wait_from(&self, from: Nanos) -> Nanos {
        Nanos(sat_sub(sat_add(self.0.0, self.1.0), from.0))
    }

    fn earliest_possible(&self) -> (r: Nanos) {
        self.0.saturating_add(self.1)
    }

    fn wait_time_from(&self, from: Nanos) -> (r: Nanos) {
        self.0.saturating_add(self.1).saturating_sub(from)
    }
}

/// The leaky bucket's parameters: the bucket drains completely in `full`,
/// and each conforming cell fills it by `token_interval`.
#[derive(Clone, Copy, Debug, PartialEq, Eq, Structural)]
pub struct LeakyBucket {
    /// The total drain time of the bucket: its capacity in units of time.
    pub full: Nanos,
    /// By how much one cell fills the bucket.
    pub token_interval: Nanos,
}

impl LeakyBucket {
    /// By how much a batch of `n` cells would fill the bucket.
    pub open spec fn spec_weight(&self, n: u32) -> u64 {
        sat_mul(self.token_interval.0, n as u64)
    }

    /// The instant of the last update, or the arrival instant itself for a
    /// fresh bucket.
    pub open spec fn spec_last(&self, s: State, at: Nanos) -> u64 {
        match s.last_update {
            Some(l) => l.0,
            None => at.0,
        }
    }

    /// The instant a decision is measured at: arrivals that seem to lie
    /// before the last update are answered from the last update onwards,
    /// so that time travel cannot drain the bucket below its true fill.
    pub open spec fn spec_measured_at(&self, s: State, at: Nanos) -> u64 {
        max64(at.0, self.spec_last(s, at))
    }

    /// The fill level once the bucket has dripped for the time elapsed
    /// since the last update.
    pub open spec fn spec_level_after_drip(&self, s: State, at: Nanos) -> u64 {
        let t0 = self.spec_measured_at(s, at);
        let drained = min64(sat_sub(t0, self.spec_last(s, at)), s.level.0);
        (s.level.0 - drained) as u64
    }

    /// Law: the fill level stays within the bucket: the transition keeps
    /// every well-formed state well-formed.
    pub proof fn lemma_level_bounded(&self, s: State, n: u32, at: Nanos)
        requires
            self.state_wf(s),
        ensures
            self.spec_next(s, n, at).level.0 <= self.full.0,
    {
    }

    /// Law: a check measured at or before the last update cannot lower the
    /// fill level, and leaves the update instant in place — a check with an
    /// earlier timestamp cannot reduce the bucket's utilization.
    pub proof fn lemma_no_time_travel(&self, s: State, n: u32, at: Nanos)
        requires
            s.last_update matches Some(l) && at.0 <= l.0,
        ensures
            self.spec_next(s, n, at).level.0 >= s.level.0,
            self.spec_next(s, n, at).last_update == s.last_update,
    {
    }
}

impl RateLimitState<LeakyBucket> for State {
    /// The bucket is fully drained, and so indistinguishable from a fresh
    /// one, one fill level past its last update.
    open spec fn spec_last_touched(&self, params: LeakyBucket) -> Option<Nanos> {
        match self.last_update {
            Some(l) => Some(Nanos(sat_add(l.0, self.level.0))),
            None => None,
        }
    }

    fn last_touched(&self, params: &LeakyBucket) -> (r: Option<Nanos>) {
        match self.last_update {
            Some(l) => Some(l.saturating_add(self.level)),
            None => None,
        }
    }
}

impl Algorithm for LeakyBucket {
    type BucketState = State;

    type NegativeDecision = TooEarly;

    open spec fn wf(&self) -> bool {
        self.token_interval.0 <= self.full.0
    }

    open spec fn state_wf(&self, s: State) -> bool {
        &&& s.level.0 <= self.full.0
        &&& s.last_update is None ==> s.level.0 == 0
    }

    open spec fn spec_default_state(&self) -> State {
        State { level: Nanos(0), last_update: None }
    }

    open spec fn spec_result(&self, s: State, n: u32, at: Nanos) -> Result<
        (),
        NegativeMultiDecision<TooEarly>,
    > {
        if self.spec_insufficient(n) {
            Err(NegativeMultiDecision::InsufficientCapacity(n))
        } else {
            let filled = sat_add(self.spec_weight(n), self.spec_level_after_drip(s, at));
            if filled <= self.full.0 {
                Ok(())
            } else {
                Err(
                    NegativeMultiDecision::BatchNonConforming(
                        n,
                        TooEarly(
                            Nanos(self.spec_measured_at(s, at)),
                            Nanos((filled - self.full.0) as u64),
                        ),
                    ),
                )
            }
        }
    }

    open spec fn spec_next(&self, s: State, n: u32, at: Nanos) -> State {
        if self.spec_result(s, n, at) is Ok {
            State {
                level: Nanos(sat_add(self.spec_weight(n), self.spec_level_after_drip(s, at))),
                last_update: Some(Nanos(self.spec_measured_at(s, at))),
            }
        } else {
            s
        }
    }

    open spec fn spec_insufficient(&self, n: u32) -> bool {
        self.spec_weight(n) > self.full.0
    }

    /// The decision's quantities stay below the horizon: the filled level
    /// does not saturate, and the earliest conforming instant of a
    /// rejection is representable.
    open spec fn spec_within_horizon(&self, s: State, n: u32, at: Nanos) -> bool {
        let w = self.spec_weight(n);
        let lvl = self.spec_level_after_drip(s, at);
        &&& w + lvl <= u64::MAX
        &&& self.spec_measured_at(s, at) + w + lvl <= u64::MAX + self.full.0
    }

    /// The token interval is the time unit scaled by the cell weight and
    /// split over the capacity; the drain time is the time unit itself.
    open spec fn spec_params(capacity: u32, cell_weight: u32, per_time_unit: Nanos) -> LeakyBucket {
        LeakyBucket {
            full: per_time_unit,
            token_interval: Nanos(sat_mul(per_time_unit.0, cell_weight as u64) / (capacity as u64)),
        }
    }

    fn construct(capacity: u32, cell_weight: u32, per_time_unit: Nanos) -> (r: Result<
        LeakyBucket,
        InconsistentCapacity,
    >) {
        if capacity == 0 || cell_weight == 0 || capacity < cell_weight {
            return Err(InconsistentCapacity::new(capacity, cell_weight));
        }
        let token_interval = per_time_unit.saturating_mul(cell_weight).div_u32(capacity);
        proof {
            lemma_token_within_unit(per_time_unit.0, capacity as u64, cell_weight as u64);
        }
        Ok(LeakyBucket { full: per_time_unit, token_interval })
    }

    fn default_state(&self) -> (s: State) {
        State { level: Nanos(0), last_update: None }
    }

    fn test_n_and_update(&self, state: &mut State, n: u32, at: Nanos) -> (r: Result<
        (),
        NegativeMultiDecision<TooEarly>,
    >) {
        let weight = self.token_interval.saturating_mul(n);
        if weight.0 > self.full.0 {
            // the bucket can never accommodate this many cells
            return Err(NegativeMultiDecision::InsufficientCapacity(n));
        }
        let last: Nanos = match state.last_update {
            Some(l) => l,
            None => at,
        };
        let t0 = at.max(last);
        let drained = t0.duration_since(last).min(state.level);
        let dripped = Nanos(state.level.0 - drained.0);
        let filled = weight.saturating_add(dripped);
        if filled.0 <= self.full.0 {
            state.level = filled;
            state.last_update = Some(t0);
            Ok(())
        } else {
            Err(
                NegativeMultiDecision::BatchNonConforming(
                    n,
                    TooEarly(t0, Nanos(filled.0 - self.full.0)),
                ),
            )
        }
    }

    proof fn lemma_all_or_nothing(&self, s: State, n: u32, at: Nanos) {
    }

    proof fn lemma_capacity_floor(&self, s: State, n: u32, at: Nanos, at2: Nanos) {
        let fresh = self.spec_default_state();
        assert(self.spec_level_after_drip(fresh, at2) == 0);
        assert(sat_add(self.spec_weight(n), 0) == self.spec_weight(n));
    }

    proof fn lemma_single_cell(&self) {
        assert(sat_mul(self.token_interval.0, 1u64) == self.token_interval.0);
    }

    proof fn lemma_wait_time(&self, s: State, n: u32, at: Nanos) {
    }
}

/// Scaling the time unit by a weight no larger than the capacity and then
/// splitting it over the capacity stays within the time unit: the token
/// interval never exceeds the drain time.
proof fn lemma_token_within_unit(per: u64, capacity: u64, weight: u64)
    requires
        1 <= weight <= capacity,
    ensures
        sat_mul(per, weight) / capacity <= per,
{
    assert(per * weight <= per * capacity) by (nonlinear_arith)
        requires
            1 <= weight <= capacity,
            per >= 0,
    ;
    assert((capacity * per) as int / capacity as int == per) by {
        vstd::arithmetic::div_mod::lemma_div_multiples_vanish(per as int, capacity as int);
    }
    assert(capacity * per == per * capacity) by (nonlinear_arith);
    if per * weight > u64::MAX {
        assert(u64::MAX as int / capacity as int <= (per * capacity) as int / capacity as int) by {
            vstd::arithmetic::div_mod::lemma_div_is_ordered(
                u64::MAX as int,
                (per * capacity) as int,
                capacity as int,
            );
        }
    } else {
        assert((per * weight) as int / capacity as int <= (per * capacity) as int / capacity
            as int) by {
            vstd::arithmetic::div_mod::lemma_div_is_ordered(
                (per * weight) as int,
                (per * capacity) as int,
                capacity as int,
            );
        }
    }
}

} // verus!
