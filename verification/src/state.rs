//! Rate limiter state containers: one history per limiter, or one per key.

pub mod direct;
pub mod keyed;

pub use self::direct::DirectRateLimiter;
pub use self::keyed::KeyedRateLimiter;
