//! Search-index flusher engine: the decision core of a background worker that
//! incrementally builds and maintains multi-segment search indexes from a
//! document database. This crate holds the verified control logic — index
//! classification, build planning, byte-budget accounting for backfill pages,
//! and result assembly. The surrounding I/O (database reads, segment uploads,
//! the build thread) is supplied by the embedding process.

pub mod assemble;
pub mod budget;
pub mod error;
pub mod flusher;
pub mod knobs;
pub mod planner;
pub mod scanner;
pub mod state;
pub mod stats;
