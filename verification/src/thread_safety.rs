//! A threadsafe holder for one bucket state.
//!
//! The [`ThreadsafeWrapper`] keeps a bucket state behind a shared,
//! reader-writer-locked cell, so that concurrent callers can perform atomic
//! read-decide-maybe-write transitions on it. The lock's invariant ties the
//! state to the algorithm whose decisions drive it: every committed state
//! is well-formed under that algorithm, and that is what every observer
//! gets back — whichever interleaving of callers produced the state.

use crate::algorithms::Algorithm;
use crate::errors::NegativeMultiDecision;
use crate::nanos::Nanos;
use std::sync::Arc;
use vstd::prelude::*;
use vstd::rwlock::{RwLock, RwLockPredicate};

verus! {

/// Relies on `std::sync::Arc::clone`: the returned handle refers to the
/// same allocation as the argument, so both carry the same value.
#[verifier::external_body]
pub(crate) fn arc_clone<T>(v: &Arc<T>) -> (r: Arc<T>)
    ensures
        r == *v,
{
    Arc::clone(v)
}

/// The lock invariant of a state cell: the cell belongs to one algorithm,
/// and every state committed to it is well-formed under that algorithm.
pub struct StatePred<A: Algorithm> {
    /// The algorithm whose decisions drive this cell.
    pub alg: A,
}

impl<A: Algorithm> RwLockPredicate<A::BucketState> for StatePred<A> {
    open spec fn inv(self, s: A::BucketState) -> bool {
        self.alg.wf() && self.alg.state_wf(s)
    }
}

/// Wraps one bucket state in an interior-mutable, mutually exclusive cell.
///
/// Cloning the wrapper shares the cell: all clones reach the same state.
/// Commits are atomic with respect to all other operations on the same
/// cell; no caller can observe a partially updated state.
pub struct ThreadsafeWrapper<A: Algorithm> {
    inner: Arc<RwLock<A::BucketState, StatePred<A>>>,
}

impl<A: Algorithm> ThreadsafeWrapper<A> {
    /// The algorithm this cell was created for.
    pub closed spec fn alg(&self) -> A {
        (*self.inner).pred().alg
    }

    /// Wraps `state` in a fresh cell driven by `alg`.
    pub fn new(alg: &A, state: A::BucketState) -> (r: ThreadsafeWrapper<A>)
        requires
            alg.wf(),
            alg.state_wf(state),
        ensures
            r.alg() == *alg,
    {
        let ghost pred = StatePred { alg: *alg };
        ThreadsafeWrapper { inner: Arc::new(RwLock::new(state, Ghost(pred))) }
    }

    /// Returns a copy of the current state: some well-formed state the
    /// cell held while the call ran. The copy goes stale as soon as
    /// another caller commits.
    pub fn snapshot(&self) -> (s: A::BucketState)
        ensures
            self.alg().wf(),
            self.alg().state_wf(s),
    {
        let handle = self.inner.acquire_read();
        let s = *handle.borrow();
        handle.release_read();
        s
    }

    /// Acquires exclusive access to the state, invokes `f` on it, and
    /// commits the state `f` returns beside its decision — if and only if
    /// it returns one. Returns `f`'s decision.
    ///
    /// `f` must take every well-formed state, and every state it asks to
    /// commit must be well-formed again.
    pub fn measure_and_replace<E, F: Fn(&A::BucketState) -> (Result<(), E>, Option<
        A::BucketState,
    >)>(&self, f: F) -> (r: Result<(), E>)
        requires
            forall|s: A::BucketState| self.alg().state_wf(s) ==> f.requires((&s,)),
            forall|s: A::BucketState, out: (Result<(), E>, Option<A::BucketState>)|
                (self.alg().state_wf(s) && f.ensures((&s,), out)) ==> (out.1 matches Some(ns)
                    ==> self.alg().state_wf(ns)),
        ensures
            exists|s: A::BucketState, out: (Result<(), E>, Option<A::BucketState>)|
                self.alg().state_wf(s) && f.ensures((&s,), out) && r == out.0,
    {
        let (s, handle) = self.inner.acquire_write();
        let (decision, replacement) = f(&s);
        match replacement {
            Some(ns) => handle.release_write(ns),
            None => handle.release_write(s),
        }
        decision
    }

    /// Runs the algorithm's batch decision on the current state, committing
    /// the updated state exactly when the batch conforms. The decision is
    /// the algorithm's, taken on some well-formed state the cell held while
    /// the call ran.
    pub fn check_n_at(&self, alg: &A, n: u32, at: Nanos) -> (r: Result<
        (),
        NegativeMultiDecision<A::NegativeDecision>,
    >)
        requires
            *alg == self.alg(),
        ensures
            exists|s: A::BucketState|
                self.alg().state_wf(s) && r == self.alg().spec_result(s, n, at),
            r matches Err(NegativeMultiDecision::BatchNonConforming(m, _)) ==> m == n,
            r matches Err(NegativeMultiDecision::InsufficientCapacity(m)) ==> m == n,
            (r matches Err(NegativeMultiDecision::InsufficientCapacity(m)) && m == n)
                <==> self.alg().spec_insufficient(n),
    {
        let (mut s, handle) = self.inner.acquire_write();
        let ghost s0 = s;
        let r = alg.test_n_and_update(&mut s, n, at);
        handle.release_write(s);
        proof {
            assert(self.alg().state_wf(s0) && r == self.alg().spec_result(s0, n, at));
        }
        r
    }

    /// Runs the algorithm's single-cell decision on the current state,
    /// committing the updated state exactly when the cell conforms.
    pub fn check_at(&self, alg: &A, at: Nanos) -> (r: Result<(), A::NegativeDecision>)
        requires
            *alg == self.alg(),
        ensures
            exists|s: A::BucketState|
                self.alg().state_wf(s) && crate::algorithms::single_decision_for(
                    self.alg(),
                    s,
                    at,
                    r,
                ),
    {
        let (mut s, handle) = self.inner.acquire_write();
        let ghost s0 = s;
        let r = alg.test_and_update(&mut s, at);
        handle.release_write(s);
        proof {
            assert(self.alg().state_wf(s0) && crate::algorithms::single_decision_for(
                self.alg(),
                s0,
                at,
                r,
            ));
        }
        r
    }
}

impl<A: Algorithm> Clone for ThreadsafeWrapper<A> {
    /// Cloning shares the cell: the clone reaches the same state as the
    /// original.
    fn clone(&self) -> (r: Self)
        ensures
            r == *self,
    {
        ThreadsafeWrapper { inner: arc_clone(&self.inner) }
    }
}

} // verus!
