//! An in-memory rate limiter that makes decisions for a single situation.

use crate::algorithms::Algorithm;
use crate::clock::{Clock, MonotonicClock};
use crate::errors::{InconsistentCapacity, NegativeMultiDecision};
use crate::nanos::Nanos;
use crate::thread_safety::ThreadsafeWrapper;
use core::marker::PhantomData;
use vstd::prelude::*;

verus! {

/// An in-memory rate limiter that makes direct (un-keyed) rate-limiting
/// decisions: one algorithm, one bucket state, one clock.
///
/// Cloning a limiter shares the underlying state cell: all clones draw
/// from the same rate envelope. Every decision reflects the algorithm's
/// exact transition, applied to some well-formed state the cell held while
/// the call ran — under contention, another clone may commit in between
/// two calls.
pub struct DirectRateLimiter<A: Algorithm = crate::algorithms::leaky_bucket::LeakyBucket, C: Clock =
    MonotonicClock> {
    state: ThreadsafeWrapper<A>,
    algorithm: A,
    clock: C,
}

impl<A: Algorithm, C: Clock> DirectRateLimiter<A, C> {
    /// The cell, the parameters and the clock belong together.
    #[verifier::type_invariant]
    spec fn type_inv(&self) -> bool {
        self.algorithm == self.state.alg() && self.algorithm.wf()
    }

    /// The algorithm parameters this limiter enforces.
    pub closed spec fn spec_algorithm(&self) -> A {
        self.algorithm
    }

    /// The clock this limiter reads when no instant is supplied.
    pub closed spec fn spec_clock(&self) -> C {
        self.clock
    }

    /// Constructs a rate limiter that allows `capacity` cells of weight
    /// one per `per_time_unit`.
    pub fn new(capacity: u32, per_time_unit: Nanos) -> (r: DirectRateLimiter<A, C>) where
        C: Default
        requires
            capacity >= 1,
        ensures
            r.spec_algorithm() == A::spec_params(capacity, 1, per_time_unit),
    {
        let algorithm = match A::construct(capacity, 1, per_time_unit) {
            Ok(a) => a,
            Err(_) => vstd::pervasive::unreached(),
        };
        let fresh = algorithm.default_state();
        DirectRateLimiter {
            state: ThreadsafeWrapper::new(&algorithm, fresh),
            algorithm,
            clock: C::default(),
        }
    }

    /// Constructs a rate limiter that allows `capacity` cells per second.
    pub fn per_second(capacity: u32) -> (r: DirectRateLimiter<A, C>) where C: Default
        requires
            capacity >= 1,
        ensures
            r.spec_algorithm() == A::spec_params(capacity, 1, Nanos(1000000000)),
    {
        Self::new(capacity, Nanos::from_secs(1))
    }

    /// Returns a builder for a rate limiter with the given capacity.
    pub fn build_with_capacity(capacity: u32) -> (r: Builder<A, C>) where C: Default
        ensures
            r.capacity == capacity,
            r.cell_weight == 1,
            r.time_unit.0 == 1000000000,
    {
        Builder {
            capacity,
            cell_weight: 1,
            time_unit: Nanos::from_secs(1),
            clock: C::default(),
            end_result: PhantomData,
        }
    }

    /// Tests whether a single cell can be accommodated at the given
    /// instant; on a positive decision the state accounts for it.
    pub fn check_at(&mut self, at: Nanos) -> (r: Result<(), A::NegativeDecision>)
        ensures
            *final(self) == *old(self),
            exists|s: A::BucketState|
                old(self).spec_algorithm().state_wf(s) && crate::algorithms::single_decision_for(
                    old(self).spec_algorithm(),
                    s,
                    at,
                    r,
                ),
    {
        proof {
            use_type_invariant(&*self);
        }
        let r = self.state.check_at(&self.algorithm, at);
        proof {
            let a = self.state.alg();
            let s0 = choose|s: A::BucketState|
                a.state_wf(s) && crate::algorithms::single_decision_for(a, s, at, r);
            assert(old(self).spec_algorithm().state_wf(s0)
                && crate::algorithms::single_decision_for(
                old(self).spec_algorithm(),
                s0,
                at,
                r,
            ));
        }
        r
    }

    /// Tests whether `n` cells can be accommodated at the given instant;
    /// on a positive decision the state accounts for all of them.
    pub fn check_n_at(&mut self, n: u32, at: Nanos) -> (r: Result<
        (),
        NegativeMultiDecision<A::NegativeDecision>,
    >)
        ensures
            *final(self) == *old(self),
            exists|s: A::BucketState|
                old(self).spec_algorithm().state_wf(s) && r == old(
                    self,
                ).spec_algorithm().spec_result(s, n, at),
            r matches Err(NegativeMultiDecision::BatchNonConforming(m, _)) ==> m == n,
            r matches Err(NegativeMultiDecision::InsufficientCapacity(m)) ==> m == n,
            (r matches Err(NegativeMultiDecision::InsufficientCapacity(m)) && m == n) <==> old(
                self,
            ).spec_algorithm().spec_insufficient(n),
    {
        proof {
            use_type_invariant(&*self);
        }
        let r = self.state.check_n_at(&self.algorithm, n, at);
        proof {
            let a = self.state.alg();
            let s0 = choose|s: A::BucketState| a.state_wf(s) && r == a.spec_result(s, n, at);
            assert(old(self).spec_algorithm().state_wf(s0) && r == old(
                self,
            ).spec_algorithm().spec_result(s0, n, at));
        }
        r
    }

    /// Tests whether a single cell can be accommodated at the clock's
    /// current reading. See [`Self::check_at`].
    pub fn check(&mut self) -> (r: Result<(), A::NegativeDecision>)
        ensures
            *final(self) == *old(self),
            exists|t: Nanos, s: A::BucketState|
                old(self).spec_clock().spec_reading(t) && old(self).spec_algorithm().state_wf(s)
                    && crate::algorithms::single_decision_for(old(self).spec_algorithm(), s, t, r),
    {
        let at = self.clock.now();
        let r = self.check_at(at);
        proof {
            let a = old(self).spec_algorithm();
            let s0 = choose|s: A::BucketState|
                a.state_wf(s) && crate::algorithms::single_decision_for(a, s, at, r);
            assert(old(self).spec_clock().spec_reading(at) && a.state_wf(s0)
                && crate::algorithms::single_decision_for(a, s0, at, r));
        }
        r
    }

    /// Tests whether `n` cells can be accommodated at the clock's current
    /// reading. See [`Self::check_n_at`].
    pub fn check_n(&mut self, n: u32) -> (r: Result<
        (),
        NegativeMultiDecision<A::NegativeDecision>,
    >)
        ensures
            *final(self) == *old(self),
            exists|t: Nanos, s: A::BucketState|
                old(self).spec_clock().spec_reading(t) && old(self).spec_algorithm().state_wf(s)
                    && r == old(self).spec_algorithm().spec_result(s, n, t),
            r matches Err(NegativeMultiDecision::BatchNonConforming(m, _)) ==> m == n,
            r matches Err(NegativeMultiDecision::InsufficientCapacity(m)) ==> m == n,
            (r matches Err(NegativeMultiDecision::InsufficientCapacity(m)) && m == n) <==> old(
                self,
            ).spec_algorithm().spec_insufficient(n),
    {
        let at = self.clock.now();
        let r = self.check_n_at(n, at);
        proof {
            let a = old(self).spec_algorithm();
            let s0 = choose|s: A::BucketState| a.state_wf(s) && r == a.spec_result(s, n, at);
            assert(old(self).spec_clock().spec_reading(at) && a.state_wf(s0) && r == a.spec_result(
                s0,
                n,
                at,
            ));
        }
        r
    }
}

impl<A: Algorithm + Copy, C: Clock + Clone> Clone for DirectRateLimiter<A, C> {
    /// Cloning shares the state cell: the clone enforces the same envelope
    /// on the same bucket.
    fn clone(&self) -> (r: Self)
        ensures
            r.spec_algorithm() == self.spec_algorithm(),
    {
        proof {
            use_type_invariant(self);
        }
        DirectRateLimiter {
            state: self.state.clone(),
            algorithm: self.algorithm,
            clock: self.clock.clone(),
        }
    }
}

/// An incremental constructor for [`DirectRateLimiter`]s.
pub struct Builder<A: Algorithm, C: Clock> {
    /// The number of cells allowed per time unit.
    pub capacity: u32,
    /// The weight of each cell checked against the bucket.
    pub cell_weight: u32,
    /// The unit of time within which the bucket drains.
    pub time_unit: Nanos,
    /// The clock the limiter will read.
    pub clock: C,
    /// Pins the algorithm type the limiter will be built with.
    pub end_result: PhantomData<A>,
}

impl<A: Algorithm, C: Clock> Builder<A, C> {
    /// Sets the weight of each cell being checked against the bucket.
    pub fn cell_weight(self, weight: u32) -> (r: Result<Builder<A, C>, InconsistentCapacity>)
        ensures
            (r is Ok) <==> 1 <= weight <= self.capacity,
            r matches Ok(b) ==> b == (Builder { cell_weight: weight, ..self }),
            r matches Err(e) ==> e == (InconsistentCapacity {
                capacity: self.capacity,
                cell_weight: weight,
            }),
    {
        if weight == 0 || weight > self.capacity {
            return Err(InconsistentCapacity::new(self.capacity, weight));
        }
        Ok(Builder { cell_weight: weight, ..self })
    }

    /// Sets the unit of time within which the bucket drains completely.
    pub fn per(self, time_unit: Nanos) -> (r: Builder<A, C>)
        ensures
            r == (Builder { time_unit, ..self }),
    {
        Builder { time_unit, ..self }
    }

    /// Sets the clock used by the limiter.
    pub fn using_clock(self, clock: C) -> (r: Builder<A, C>)
        ensures
            r == (Builder { clock, ..self }),
    {
        Builder { clock, ..self }
    }

    /// Builds a rate limiter from the accumulated parameters.
    pub fn build(self) -> (r: Result<DirectRateLimiter<A, C>, InconsistentCapacity>)
        ensures
            (r is Ok) <==> 1 <= self.cell_weight <= self.capacity,
            r matches Ok(l) ==> l.spec_algorithm() == A::spec_params(
                self.capacity,
                self.cell_weight,
                self.time_unit,
            ) && l.spec_clock() == self.clock,
            r matches Err(e) ==> e == (InconsistentCapacity {
                capacity: self.capacity,
                cell_weight: self.cell_weight,
            }),
    {
        let algorithm = match A::construct(self.capacity, self.cell_weight, self.time_unit) {
            Ok(a) => a,
            Err(e) => {
                return Err(e);
            },
        };
        let fresh = algorithm.default_state();
        Ok(
            DirectRateLimiter {
                state: ThreadsafeWrapper::new(&algorithm, fresh),
                algorithm,
                clock: self.clock,
            },
        )
    }
}

} // verus!
