//! A metered rate-limiting library.
//!
//! Given a stream of cells (atomic units of work — requests, packets,
//! messages), the limiters decide for each cell whether admitting it keeps
//! the aggregate arrival rate within a configured envelope, and update
//! their state accordingly. Two algorithms are provided, the Generic Cell
//! Rate Algorithm ([`GCRA`]) and a leaky bucket meter ([`LeakyBucket`]);
//! a [`DirectRateLimiter`] tracks a single rate-limiting history, and a
//! [`KeyedRateLimiter`] keeps one independent history per key.
//!
//! Every decision is specified exactly: the algorithms' transitions are
//! given as specification functions, the limiters' results are tied to
//! them, and the stated laws — updates are all-or-nothing, capacity
//! rejections come exactly for batches no fresh bucket could admit,
//! waiting out a rejection makes the same batch conform, checks on
//! distinct keys never touch each other's bucket — are proved, not
//! promised. Time is carried as saturating nanosecond counts ([`Nanos`]);
//! the rejected decisions report how long to wait, and leave the waiting
//! to the caller.

pub mod algorithms;
pub mod clock;
mod errors;
pub mod example_algorithms;
pub mod jitter;
pub mod nanos;
pub mod prelude;
pub mod state;
pub mod test_utilities;
pub mod thread_safety;

pub use crate::algorithms::gcra::GCRA;
pub use crate::algorithms::leaky_bucket::LeakyBucket;
pub use crate::algorithms::NonConformance;
pub use crate::errors::InconsistentCapacity;
pub use crate::errors::NegativeMultiDecision;
pub use crate::nanos::Nanos;
pub use crate::state::direct::DirectRateLimiter;
pub use crate::state::keyed::KeyedRateLimiter;
