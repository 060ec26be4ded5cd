//! Rate-limiting algorithms.
//!
//! An [`Algorithm`] owns the immutable parameters of one rate envelope and
//! drives a small bucket state through the `test_n_and_update` transition.
//! The transition is specified exactly by the algorithm's `spec_result` and
//! `spec_next` functions, and every implementation must additionally prove
//! the laws stated as `proof fn` obligations on the trait: updates are
//! all-or-nothing, `InsufficientCapacity` is returned exactly for batches
//! that not even a fresh bucket could admit, a single cell always fits a
//! fresh bucket, and waiting out a rejection makes the same batch conform.

pub mod gcra;
pub mod leaky_bucket;

use crate::errors::{InconsistentCapacity, NegativeMultiDecision};
use crate::nanos::{sat_add, sat_sub, Nanos};
use vstd::prelude::*;

verus! {

/// The default rate-limiting algorithm in this crate: the leaky bucket.
pub type DefaultAlgorithm = crate::algorithms::leaky_bucket::LeakyBucket;

/// Information carried by a negative decision: when the rejected cell could
/// conform again.
pub trait NonConformance: Sized {
    /// The earliest instant at which a decision could be conforming.
    spec fn spec_earliest(&self) -> Nanos;

    /// The wait this result reports when asked from instant `from`.
    spec fn spec_wait_from(&self, from: Nanos) -> Nanos;

    /// Returns the earliest instant at which a decision could be conforming
    /// (not accounting for conforming decisions made in the meantime).
    fn earliest_possible(&self) -> (r: Nanos)
        ensures
            r == self.spec_earliest(),
    ;

    /// Returns the time that must pass, measured from `from`, before a
    /// decision can be conforming; zero when `from` already lies at or past
    /// that point. Implementations may report a longer wait (for example
    /// when adding jitter), never one shorter than the time left to the
    /// earliest conforming instant.
    fn wait_time_from(&self, from: Nanos) -> (r: Nanos)
        ensures
            r == self.spec_wait_from(from),
            r.0 >= sat_sub(self.spec_earliest().0, from.0),
    ;
}

/// Housekeeping that keyed rate limiters need from a bucket state.
pub trait RateLimitState<P>: Sized {
    /// The last instant at which this state is relevant: from that instant
    /// on, the bucket behaves as if it were fresh. `None` means the state
    /// cannot be distinguished from one that is in active use.
    spec fn spec_last_touched(&self, params: P) -> Option<Nanos>;

    /// Returns the last instant at which the state had any relevance, or
    /// `None` when it must be treated as fresh right now.
    fn last_touched(&self, params: &P) -> (r: Option<Nanos>)
        ensures
            r == self.spec_last_touched(*params),
    ;
}

/// The contract a metered rate-limiting algorithm has to implement.
///
/// A value of the implementing type holds the parameters of one rate
/// envelope; the mutable accounting for one history of decisions lives in
/// the associated [`Algorithm::BucketState`].
pub trait Algorithm: Sized {
    /// The state of a single rate-limiting bucket.
    type BucketState: RateLimitState<Self> + Copy;

    /// The value returned when a decision for a single cell is negative.
    type NegativeDecision: NonConformance;

    /// Well-formedness of the parameters, established by `construct`.
    spec fn wf(&self) -> bool;

    /// Well-formedness of a bucket state under these parameters; holds for
    /// the fresh state and is preserved by every transition.
    spec fn state_wf(&self, s: Self::BucketState) -> bool;

    /// The state of a bucket that has never been used.
    spec fn spec_default_state(&self) -> Self::BucketState;

    /// The decision `test_n_and_update` returns for a batch of `n` cells
    /// presented at instant `at` to a bucket in state `s`.
    spec fn spec_result(&self, s: Self::BucketState, n: u32, at: Nanos) -> Result<
        (),
        NegativeMultiDecision<Self::NegativeDecision>,
    >;

    /// The state `test_n_and_update` leaves behind; equal to `s` unless the
    /// decision is positive.
    spec fn spec_next(&self, s: Self::BucketState, n: u32, at: Nanos) -> Self::BucketState;

    /// Whether a batch of `n` cells exceeds what the bucket could ever
    /// admit, regardless of its state and of the instant.
    spec fn spec_insufficient(&self, n: u32) -> bool;

    /// Whether the quantities of the decision for `n` cells at `at` on
    /// state `s` stay below the representable time horizon, so that no
    /// saturation cuts a reported wait short.
    spec fn spec_within_horizon(&self, s: Self::BucketState, n: u32, at: Nanos) -> bool;

    /// The parameter value that `construct` derives from a capacity, a
    /// cell weight and a time unit.
    spec fn spec_params(capacity: u32, cell_weight: u32, per_time_unit: Nanos) -> Self;

    /// Constructs an algorithm admitting `capacity` cells, each weighing
    /// `cell_weight`, per `per_time_unit`. Fails exactly when the capacity
    /// is zero, the weight is zero, or one cell outweighs the capacity.
    fn construct(capacity: u32, cell_weight: u32, per_time_unit: Nanos) -> (r: Result<
        Self,
        InconsistentCapacity,
    >)
        ensures
            (r is Ok) <==> 1 <= cell_weight <= capacity,
            r matches Ok(a) ==> a == Self::spec_params(capacity, cell_weight, per_time_unit)
                && a.wf(),
            r matches Err(e) ==> e == (InconsistentCapacity { capacity, cell_weight }),
    ;

    /// Returns the state of a fresh, never-used bucket.
    fn default_state(&self) -> (s: Self::BucketState)
        ensures
            s == self.spec_default_state(),
            self.state_wf(s),
    ;

    /// Tests whether `n` cells can be accommodated at instant `at` and, if
    /// and only if they can, updates the state to account for all of them.
    fn test_n_and_update(&self, state: &mut Self::BucketState, n: u32, at: Nanos) -> (r: Result<
        (),
        NegativeMultiDecision<Self::NegativeDecision>,
    >)
        requires
            self.wf(),
            self.state_wf(*old(state)),
        ensures
            r == self.spec_result(*old(state), n, at),
            *final(state) == self.spec_next(*old(state), n, at),
            self.state_wf(*final(state)),
            !(r is Ok) ==> *final(state) == *old(state),
            r matches Err(NegativeMultiDecision::BatchNonConforming(m, _)) ==> m == n,
            r matches Err(NegativeMultiDecision::InsufficientCapacity(m)) ==> m == n,
            (r matches Err(NegativeMultiDecision::InsufficientCapacity(m)) && m == n)
                <==> self.spec_insufficient(n),
    ;

    /// Tests whether a single cell can be accommodated at instant `at` and,
    /// if it can, updates the state to account for it.
    fn test_and_update(&self, state: &mut Self::BucketState, at: Nanos) -> (r: Result<
        (),
        Self::NegativeDecision,
    >)
        requires
            self.wf(),
            self.state_wf(*old(state)),
        ensures
            match self.spec_result(*old(state), 1, at) {
                Ok(_) => r is Ok,
                Err(NegativeMultiDecision::BatchNonConforming(_, nc)) => r == Err::<
                    (),
                    Self::NegativeDecision,
                >(nc),
                Err(NegativeMultiDecision::InsufficientCapacity(_)) => false,
            },
            *final(state) == self.spec_next(*old(state), 1, at),
            self.state_wf(*final(state)),
            !(r is Ok) ==> *final(state) == *old(state),
    {
        proof {
            self.lemma_single_cell();
            self.lemma_capacity_floor(*old(state), 1, at, at);
        }
        match self.test_n_and_update(state, 1, at) {
            Ok(()) => Ok(()),
            Err(NegativeMultiDecision::BatchNonConforming(_, nc)) => Err(nc),
            Err(NegativeMultiDecision::InsufficientCapacity(_)) => {
                // excluded by lemma_single_cell; a batch of one always fits
                vstd::pervasive::unreached()
            },
        }
    }

    /// Law: a rejected batch leaves the bucket state untouched.
    proof fn lemma_all_or_nothing(&self, s: Self::BucketState, n: u32, at: Nanos)
        requires
            self.wf(),
            self.state_wf(s),
        ensures
            !(self.spec_result(s, n, at) is Ok) ==> self.spec_next(s, n, at) == s,
    ;

    /// Law: `InsufficientCapacity` is returned exactly for the batch sizes
    /// that not even a fresh bucket, at any instant, could admit.
    proof fn lemma_capacity_floor(&self, s: Self::BucketState, n: u32, at: Nanos, at2: Nanos)
        requires
            self.wf(),
            self.state_wf(s),
        ensures
            (self.spec_result(s, n, at) matches Err(NegativeMultiDecision::InsufficientCapacity(m))
                && m == n) <==> self.spec_insufficient(n),
            self.spec_insufficient(n) <==> !(self.spec_result(
                self.spec_default_state(),
                n,
                at2,
            ) is Ok),
    ;

    /// Law: a well-formed bucket can always accommodate a single cell.
    proof fn lemma_single_cell(&self)
        requires
            self.wf(),
        ensures
            !self.spec_insufficient(1),
    ;

    /// Law: after a non-conforming decision at `at`, presenting the same
    /// batch again once the reported wait has passed, with no other decision
    /// in between, yields a conforming decision.
    proof fn lemma_wait_time(&self, s: Self::BucketState, n: u32, at: Nanos)
        requires
            self.wf(),
            self.state_wf(s),
            self.spec_within_horizon(s, n, at),
        ensures
            match self.spec_result(s, n, at) {
                Err(NegativeMultiDecision::BatchNonConforming(_, nc)) => self.spec_result(
                    s,
                    n,
                    Nanos(sat_add(at.0, sat_sub(nc.spec_earliest().0, at.0))),
                ) is Ok,
                _ => true,
            },
    ;
}

/// Whether `r` is the single-cell decision that `a`'s batch decision for
/// one cell on state `s` at instant `at` dictates: conforming exactly when
/// the batch of one conforms, and otherwise carrying the batch rejection's
/// non-conformance. (`InsufficientCapacity` cannot occur for one cell, by
/// [`Algorithm::lemma_single_cell`].)
pub open spec fn single_decision_for<A: Algorithm>(
    a: A,
    s: A::BucketState,
    at: Nanos,
    r: Result<(), A::NegativeDecision>,
) -> bool {
    match a.spec_result(s, 1, at) {
        Ok(_) => r is Ok,
        Err(NegativeMultiDecision::BatchNonConforming(_, nc)) => r == Err::<
            (),
            A::NegativeDecision,
        >(nc),
        Err(NegativeMultiDecision::InsufficientCapacity(_)) => false,
    }
}

} // verus!
