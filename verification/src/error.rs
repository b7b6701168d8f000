//! Error type for the flusher engine. Every failure is fatal for the current
//! run: no partial job list or partial build result is ever produced.

use vstd::prelude::*;

verus! {

/// Why a flusher run was aborted.
#[derive(Clone, Copy, Debug, PartialEq, Eq)]
pub enum FlusherError {
    /// The externally maintained fast-forward timestamp of an index lies
    /// beyond the scan's own repeatable timestamp, which the database
    /// guarantees never happens for a well-formed checkpoint.
    FastForwardBeyondStep,
    /// A stored snapshot or backfill timestamp lies beyond the timestamp of
    /// the transaction driving this build, so no repeatable read at that
    /// timestamp is possible.
    SnapshotAheadOfBuild,
    /// Adding up the statistics of the output segments overflowed a counter.
    StatisticsOverflow,
}

} // verus!
