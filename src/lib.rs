//! A speculative aggregator and snapshot engine: bounded counters that accept
//! commutative additions and subtractions, defer the resolution of their value,
//! and hand out snapshots that can be read later.

pub mod aggregator;
pub mod bounded;
pub mod delta;
pub mod error;
pub mod snapshot;
pub mod table;
pub mod operation;
pub mod payload;
pub mod laws;
pub mod profiler;
