//! Error types shared by all rate-limiting algorithms.

use vstd::prelude::*;

verus! {

/// Returned when a rate limiter is configured so that it could never let a
/// single cell through: the bucket's capacity is zero, or the weight of one
/// cell exceeds the capacity.
#[derive(Clone, Copy, Debug, PartialEq, Eq, Structural)]
pub struct InconsistentCapacity {
    /// The number of cells the bucket was asked to hold.
    pub capacity: u32,
    /// The weight of a single cell.
    pub cell_weight: u32,
}

impl InconsistentCapacity {
    /// Builds the error from the offending parameters.
    pub fn new(capacity: u32, cell_weight: u32) -> (r: InconsistentCapacity)
        ensures
            r.capacity == capacity,
            r.cell_weight == cell_weight,
    {
        InconsistentCapacity { capacity, cell_weight }
    }
}

/// The negative outcome of a batch decision.
///
/// A batch query can ask for more cells than the bucket could ever hold, so
/// two negative outcomes are possible: the batch cannot be let through *now*
/// but will conform later, or it can *never* conform.
#[derive(Debug, PartialEq, Eq)]
pub enum NegativeMultiDecision<E> {
    /// A batch of the given number of cells is non-conforming at the moment
    /// of the query; the second field tells when it might conform.
    BatchNonConforming(u32, E),
    /// The given number of cells exceeds the bucket's capacity, so the
    /// decision can never have a conforming result.
    InsufficientCapacity(u32),
}

} // verus!
