//! The Generic Cell Rate Algorithm.
//!
//! The GCRA is a virtual-scheduling algorithm: it keeps one value of state,
//! the theoretical arrival time (TAT) of the next cell, and classifies a
//! cell as conforming exactly when it does not arrive more than one burst
//! window ahead of that schedule. The parameters are the per-cell emission
//! interval `t` and the burst window `tau`.

use crate::algorithms::{Algorithm, NonConformance, RateLimitState};
use crate::errors::{InconsistentCapacity, NegativeMultiDecision};
use crate::nanos::{max64, sat_add, sat_mul, sat_sub, Nanos};
use vstd::prelude::*;

verus! {

/// The GCRA's state for a single rate-limiting history: the theoretical
/// arrival time of the next cell. `None` means the bucket has never been
/// used.
#[derive(Clone, Copy, Debug, PartialEq, Eq, Structural)]
pub struct State {
    /// The theoretical arrival time of the next cell.
    pub tat: Option<Nanos>,
}

/// Returned in case of a negative decision: the cell is rejected until the
/// carried instant, the theoretical arrival time it was measured against.
#[derive(Clone, Copy, Debug, PartialEq, Eq, Structural)]
pub struct NotUntil(pub Nanos);

impl NonConformance for NotUntil {
    open spec fn spec_earliest(&self) -> Nanos {
        self.0
    }

    /// The time left until the carried theoretical arrival time.
    open spec fn spec_wait_from(&self, from: Nanos) -> Nanos {
        Nanos(sat_sub(self.0.0, from.0))
    }

    fn earliest_possible(&self) -> (r: Nanos) {
        self.0
    }

    fn wait_time_from(&self, from: Nanos) -> (r: Nanos) {
        self.0.saturating_sub(from)
    }
}

/// The Generic Cell Rate Algorithm's parameters: cells are scheduled `t`
/// apart, and may run ahead of schedule by at most the burst window `tau`.
///
/// Batches are an extension of the classic algorithm: a batch of `n` cells
/// is treated as one arrival that advances the schedule by `n`
/// emission intervals, and it conforms only if the whole batch does.
#[derive(Clone, Copy, Debug, PartialEq, Eq, Structural)]
pub struct GCRA {
    /// The emission interval: the weight of a single cell in units of time.
    pub t: Nanos,
    /// The burst window: the full time unit the capacity is spread over.
    pub tau: Nanos,
}

impl GCRA {
    /// The schedule the decision is measured against: the stored TAT, or
    /// the arrival instant itself for a fresh bucket.
    pub open spec fn spec_tat0(&self, s: State, at: Nanos) -> u64 {
        match s.tat {
            Some(x) => x.0,
            None => at.0,
        }
    }

    /// The TAT a batch of `n` cells is measured against: the single-cell
    /// schedule pushed out by the `n - 1` extra cells. A batch of zero
    /// cells is measured against the arrival instant itself.
    pub open spec fn spec_tat_eff(&self, s: State, n: u32, at: Nanos) -> u64 {
        if n == 0 {
            at.0
        } else if n == 1 {
            self.spec_tat0(s, at)
        } else {
            sat_add(self.spec_tat0(s, at), sat_mul(self.t.0, (n - 1) as u64))
        }
    }

    /// How far a conforming batch of `n` cells advances the schedule.
    pub open spec fn spec_weight(&self, n: u32) -> u64 {
        if n == 0 {
            0u64
        } else if n == 1 {
            self.t.0
        } else {
            sat_mul(self.t.0, n as u64)
        }
    }

    /// Whether a batch of `n` cells rejects with the carried TAT.
    pub open spec fn spec_rejects(&self, s: State, n: u32, at: Nanos) -> bool {
        at.0 < sat_sub(self.spec_tat_eff(s, n, at), self.tau.0)
    }

    /// The schedule left behind by a conforming batch of `n` cells.
    pub open spec fn spec_new_tat(&self, s: State, n: u32, at: Nanos) -> u64 {
        sat_add(max64(self.spec_tat_eff(s, n, at), at.0), self.spec_weight(n))
    }

    /// Law: admitting a single cell advances the schedule to exactly one
    /// emission interval past the later of the previous schedule and the
    /// arrival instant — admissions at non-decreasing times keep the TAT
    /// within one interval of the last arrival.
    pub proof fn lemma_monotone_admission(&self, s: State, at: Nanos)
        ensures
            self.spec_result(s, 1, at) is Ok ==> self.spec_next(s, 1, at).tat == Some(
                Nanos(sat_add(max64(self.spec_tat0(s, at), at.0), self.t.0)),
            ),
    {
    }

    /// Law: for any non-empty batch, the transition never moves the
    /// schedule backwards, whatever instant is presented — a check with an
    /// earlier timestamp cannot reduce the bucket's utilization.
    pub proof fn lemma_no_time_travel(&self, s: State, n: u32, at: Nanos)
        requires
            n >= 1,
        ensures
            match (s.tat, self.spec_next(s, n, at).tat) {
                (Some(prev), Some(next)) => next.0 >= prev.0,
                (Some(prev), None) => false,
                _ => true,
            },
    {
    }
}

impl RateLimitState<GCRA> for State {
    /// The stored schedule is the last instant at which this state can be
    /// told apart from a fresh one. (A conforming cell only ever runs ahead
    /// of the schedule, never behind it.)
    open spec fn spec_last_touched(&self, params: GCRA) -> Option<Nanos> {
        self.tat
    }

    fn last_touched(&self, params: &GCRA) -> (r: Option<Nanos>) {
        self.tat
    }
}

impl Algorithm for GCRA {
    type BucketState = State;

    type NegativeDecision = NotUntil;

    open spec fn wf(&self) -> bool {
        self.t.0 <= self.tau.0
    }

    open spec fn state_wf(&self, s: State) -> bool {
        true
    }

    open spec fn spec_default_state(&self) -> State {
        State { tat: None }
    }

    open spec fn spec_result(&self, s: State, n: u32, at: Nanos) -> Result<
        (),
        NegativeMultiDecision<NotUntil>,
    > {
        if self.spec_insufficient(n) {
            Err(NegativeMultiDecision::InsufficientCapacity(n))
        } else if self.spec_rejects(s, n, at) {
            Err(
                NegativeMultiDecision::BatchNonConforming(
                    n,
                    NotUntil(Nanos(self.spec_tat_eff(s, n, at))),
                ),
            )
        } else {
            Ok(())
        }
    }

    open spec fn spec_next(&self, s: State, n: u32, at: Nanos) -> State {
        if self.spec_result(s, n, at) is Ok {
            State { tat: Some(Nanos(self.spec_new_tat(s, n, at))) }
        } else {
            s
        }
    }

    open spec fn spec_insufficient(&self, n: u32) -> bool {
        n >= 2 && sat_add(sat_mul(self.t.0, (n - 1) as u64), self.t.0) > self.tau.0
    }

    /// The GCRA's reported wait is sound up to the horizon itself: even a
    /// saturated schedule can be waited out.
    open spec fn spec_within_horizon(&self, s: State, n: u32, at: Nanos) -> bool {
        true
    }

    /// The emission interval is the time unit split over the capacity,
    /// scaled by the cell weight; the burst window is the time unit itself.
    open spec fn spec_params(capacity: u32, cell_weight: u32, per_time_unit: Nanos) -> GCRA {
        GCRA {
            t: Nanos(sat_mul(per_time_unit.0 / (capacity as u64), cell_weight as u64)),
            tau: per_time_unit,
        }
    }

    fn construct(capacity: u32, cell_weight: u32, per_time_unit: Nanos) -> (r: Result<
        GCRA,
        InconsistentCapacity,
    >) {
        if capacity == 0 || cell_weight == 0 || capacity < cell_weight {
            return Err(InconsistentCapacity::new(capacity, cell_weight));
        }
        let interval = per_time_unit.div_u32(capacity).saturating_mul(cell_weight);
        proof {
            lemma_interval_within_unit(per_time_unit.0, capacity as u64, cell_weight as u64);
        }
        Ok(GCRA { t: interval, tau: per_time_unit })
    }

    fn default_state(&self) -> (s: State) {
        State { tat: None }
    }

    fn test_n_and_update(&self, state: &mut State, n: u32, at: Nanos) -> (r: Result<
        (),
        NegativeMultiDecision<NotUntil>,
    >) {
        let tat0: Nanos = match state.tat {
            Some(x) => x,
            None => at,
        };
        if n >= 2 {
            let batch_weight = self.t.saturating_mul(n - 1);
            if batch_weight.saturating_add(self.t).0 > self.tau.0 {
                // the bucket can never accommodate this many cells
                return Err(NegativeMultiDecision::InsufficientCapacity(n));
            }
        }
        let tat_eff: Nanos = if n == 0 {
            at
        } else if n == 1 {
            tat0
        } else {
            tat0.saturating_add(self.t.saturating_mul(n - 1))
        };
        if at.0 < tat_eff.saturating_sub(self.tau).0 {
            Err(NegativeMultiDecision::BatchNonConforming(n, NotUntil(tat_eff)))
        } else {
            let additional: Nanos = if n == 0 {
                Nanos(0)
            } else if n == 1 {
                self.t
            } else {
                self.t.saturating_mul(n)
            };
            state.tat = Some(tat_eff.max(at).saturating_add(additional));
            Ok(())
        }
    }

    proof fn lemma_all_or_nothing(&self, s: State, n: u32, at: Nanos) {
    }

    proof fn lemma_capacity_floor(&self, s: State, n: u32, at: Nanos, at2: Nanos) {
        let fresh = self.spec_default_state();
        if !self.spec_insufficient(n) {
            if n >= 2 {
                let batch = sat_mul(self.t.0, (n - 1) as u64);
                assert(batch <= sat_add(batch, self.t.0));
                assert(self.spec_tat_eff(fresh, n, at2) == sat_add(at2.0, batch));
                assert(!self.spec_rejects(fresh, n, at2));
            } else {
                assert(!self.spec_rejects(fresh, n, at2));
            }
        }
    }

    proof fn lemma_single_cell(&self) {
    }

    proof fn lemma_wait_time(&self, s: State, n: u32, at: Nanos) {
    }
}

/// Dividing the time unit by the capacity and scaling by a smaller weight
/// stays within the time unit: the emission interval never exceeds the
/// burst window.
proof fn lemma_interval_within_unit(per: u64, capacity: u64, weight: u64)
    requires
        1 <= weight <= capacity,
    ensures
        sat_mul(per / capacity, weight) <= per,
{
    let q = per / capacity;
    assert(q * capacity + per % capacity == per) by {
        vstd::arithmetic::div_mod::lemma_fundamental_div_mod(per as int, capacity as int);
    }
    assert(q * weight <= q * capacity) by (nonlinear_arith)
        requires
            1 <= weight <= capacity,
            q >= 0,
    ;
}

} // verus!
