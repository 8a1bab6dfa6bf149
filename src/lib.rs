//! A leaky-bucket rate limiter whose state update is verified against an
//! abstract model of the bucket.

mod clock;

pub mod bucket;
pub mod laws;
pub mod model;

pub use bucket::LeakyBucket;
pub use model::{BucketState, Call, NANOS_PER_SEC};
