//! Verified core of a two-level distributed mean pipeline.
//!
//! A dataset of `n` values is split across `size` worker processes; each
//! worker splits its shard into chunks, reduces them in parallel to a local
//! average, and a single coordinator rank folds one local average per rank
//! into the global result. The numeric payload is floating point and lives
//! with the unverified runtime; this crate owns and verifies everything that
//! decides *which* values are touched and *when* a result is owed: shard
//! sizes, chunk boundaries, the gather protocol's bookkeeping, and the
//! algebraic laws (exact-arithmetic coverage and order independence) that the
//! reduction relies on.

pub mod chunks;
pub mod collective;
pub mod errors;
pub mod partition;
pub mod plan;
pub mod reduce;
pub mod world;
