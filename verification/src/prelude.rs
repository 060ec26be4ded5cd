//! A module exporting useful traits defined in this crate.

pub use crate::algorithms::NonConformance;
pub use crate::jitter::JitterMultiResultExt;
pub use crate::jitter::JitterResultExt;
