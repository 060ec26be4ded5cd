//! Helpers shared by this crate's test suite.

use crate::algorithms::Algorithm;
use crate::clock::Clock;
use crate::errors::NegativeMultiDecision;
use crate::nanos::Nanos;
use vstd::prelude::*;

verus! {

/// A bare in-memory algorithm, without any bucket attached: the test
/// suite drives its transitions on states it holds itself.
pub struct AlgorithmForTest<A: Algorithm, C: Clock> {
    algorithm: A,
    clock: C,
}

impl<A: Algorithm, C: Clock> AlgorithmForTest<A, C> {
    /// The parameters hold together.
    #[verifier::type_invariant]
    spec fn type_inv(&self) -> bool {
        self.algorithm.wf()
    }

    /// The algorithm parameters under test.
    pub closed spec fn spec_algorithm(&self) -> A {
        self.algorithm
    }

    /// Builds the algorithm under test from a capacity, an optional cell
    /// weight (one cell by default) and an optional time unit (one second
    /// by default).
    pub fn new(cap: u32, weight: Option<u32>, duration: Option<Nanos>) -> (r: AlgorithmForTest<
        A,
        C,
    >) where C: Default
        requires
            1 <= (match weight {
                Some(w) => w,
                None => 1u32,
            }) <= cap,
        ensures
            r.spec_algorithm() == A::spec_params(
                cap,
                match weight {
                    Some(w) => w,
                    None => 1u32,
                },
                match duration {
                    Some(d) => d,
                    None => Nanos(1000000000),
                },
            ),
    {
        let w = match weight {
            Some(w) => w,
            None => 1,
        };
        let d = match duration {
            Some(d) => d,
            None => Nanos(1000000000),
        };
        let algorithm = match A::construct(cap, w, d) {
            Ok(a) => a,
            Err(_) => vstd::pervasive::unreached(),
        };
        AlgorithmForTest { algorithm, clock: C::default() }
    }

    /// The algorithm under test.
    pub fn algorithm(&self) -> (r: &A)
        ensures
            *r == self.spec_algorithm(),
    {
        &self.algorithm
    }

    /// A fresh bucket state for the algorithm under test.
    pub fn state(&self) -> (s: A::BucketState)
        ensures
            s == self.spec_algorithm().spec_default_state(),
            self.spec_algorithm().state_wf(s),
    {
        proof {
            use_type_invariant(self);
        }
        self.algorithm.default_state()
    }

    /// Runs the single-cell decision on the given state.
    pub fn check(&self, state: &mut A::BucketState, t0: Nanos) -> (r: Result<
        (),
        A::NegativeDecision,
    >)
        requires
            self.spec_algorithm().state_wf(*old(state)),
        ensures
            crate::algorithms::single_decision_for(self.spec_algorithm(), *old(state), t0, r),
            *final(state) == self.spec_algorithm().spec_next(*old(state), 1, t0),
            self.spec_algorithm().state_wf(*final(state)),
    {
        proof {
            use_type_invariant(self);
        }
        self.algorithm.test_and_update(state, t0)
    }

    /// Runs the batch decision on the given state.
    pub fn check_n(&self, state: &mut A::BucketState, n: u32, t0: Nanos) -> (r: Result<
        (),
        NegativeMultiDecision<A::NegativeDecision>,
    >)
        requires
            self.spec_algorithm().state_wf(*old(state)),
        ensures
            r == self.spec_algorithm().spec_result(*old(state), n, t0),
            *final(state) == self.spec_algorithm().spec_next(*old(state), n, t0),
            self.spec_algorithm().state_wf(*final(state)),
    {
        proof {
            use_type_invariant(self);
        }
        self.algorithm.test_n_and_update(state, n, t0)
    }
}

impl<A: Algorithm, C: Clock + Default> Default for AlgorithmForTest<A, C> {
    /// One cell of weight one per second.
    fn default() -> (r: AlgorithmForTest<A, C>)
        ensures
            r.spec_algorithm() == A::spec_params(1, 1, Nanos(1000000000)),
    {
        Self::new(1, None, None)
    }
}

/// Returns a "current" moment that is suitable for tests: a fixed instant
/// comfortably away from the clock's reference point, so that tests can
/// step backwards as well as forwards from it.
pub fn current_moment() -> (r: Nanos)
    ensures
        r.0 == 90000000000,
{
    Nanos(90000000000)
}

/// The rate-limiting algorithms that the test suite exercises.
#[derive(Clone, Copy, Debug, PartialEq, Eq, Structural)]
pub enum Variant {
    /// The Generic Cell Rate Algorithm.
    GCRA,
    /// The leaky bucket meter.
    LeakyBucket,
}

} // verus!
