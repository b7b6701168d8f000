//! Tuning knobs of the flusher and the read-rate quota they induce.
//!
//! Each build's document stream is rate-limited by a token bucket whose
//! per-second quota is the document page size times the page rate of the
//! build's reason: urgent reasons read faster than routine catch-up.

use vstd::prelude::*;

use crate::state::BuildReason;

verus! {

/// Documents per database page: the base unit of the read rate.
pub const DEFAULT_DOCUMENTS_PAGE_SIZE: u32 = 1024;

/// Age, in timestamp ticks, at which a non-empty serving index counts as too
/// old and is caught up.
pub const DATABASE_WORKERS_MAX_CHECKPOINT_AGE: u64 = 3600;

/// Page size of the by-id table scan that feeds a backfill.
pub const VECTOR_INDEX_WORKER_PAGE_SIZE: u32 = 128;

/// Page rate of urgent builds: an index over its size limit, a backfill, or a
/// format rebuild.
pub const URGENT_BUILD_PAGES_PER_SECOND: u32 = 16;

/// Page rate of routine catch-up for an index that is merely stale.
pub const ROUTINE_BUILD_PAGES_PER_SECOND: u32 = 8;

impl BuildReason {
    /// The page rate a reason allows: urgency controls throughput, and no
    /// reason is throttled to zero.
    pub open spec fn spec_read_max_pages_per_second(self) -> u32 {
        match self {
            BuildReason::Backfilling => URGENT_BUILD_PAGES_PER_SECOND,
            BuildReason::VersionMismatch => URGENT_BUILD_PAGES_PER_SECOND,
            BuildReason::TooLarge => URGENT_BUILD_PAGES_PER_SECOND,
            BuildReason::TooOld => ROUTINE_BUILD_PAGES_PER_SECOND,
        }
    }

    /// How many document pages per second a build with this reason may read.
    pub fn read_max_pages_per_second(&self) -> (r: u32)
        ensures
            r == self.spec_read_max_pages_per_second(),
            1 <= r <= URGENT_BUILD_PAGES_PER_SECOND,
    {
        match self {
            BuildReason::Backfilling => URGENT_BUILD_PAGES_PER_SECOND,
            BuildReason::VersionMismatch => URGENT_BUILD_PAGES_PER_SECOND,
            BuildReason::TooLarge => URGENT_BUILD_PAGES_PER_SECOND,
            BuildReason::TooOld => ROUTINE_BUILD_PAGES_PER_SECOND,
        }
    }
}

/// Documents per second a build with this reason may read: the page size
/// times the reason's page rate.
pub fn row_rate_per_second(reason: BuildReason) -> (r: u32)
    ensures
        r == DEFAULT_DOCUMENTS_PAGE_SIZE * reason.spec_read_max_pages_per_second(),
        r >= 1,
{
    DEFAULT_DOCUMENTS_PAGE_SIZE * reason.read_max_pages_per_second()
}

/// An index over its size limit is never allowed a lower read rate than any
/// other reason: the most urgent verdict reads fastest.
pub proof fn lemma_too_large_reads_fastest(reason: BuildReason)
    ensures
        BuildReason::TooLarge.spec_read_max_pages_per_second()
            >= reason.spec_read_max_pages_per_second(),
{
}

/// The token-bucket quota of governor, declared so that verified code can
/// hand quotas through. Its contents are opaque here.
#[verifier::external_type_specification]
#[verifier::external_body]
pub struct ExQuota(governor::Quota);

/// Relies on governor::Quota::per_second: builds a per-second quota whose
/// burst size is the given cell count. The count is nonzero by the caller's
/// obligation, so the fallback arm is never taken.
#[verifier::external_body]
fn quota_per_second(cells_per_second: u32) -> (q: governor::Quota)
    requires
        cells_per_second >= 1,
{
    match core::num::NonZeroU32::new(cells_per_second) {
        Some(cells) => governor::Quota::per_second(cells),
        None => governor::Quota::per_second(core::num::NonZeroU32::MIN),
    }
}

/// The rate-limiter quota of one build's document reads: a token bucket
/// replenishing `row_rate_per_second(reason)` documents per second.
pub fn row_rate_quota(reason: BuildReason) -> governor::Quota {
    quota_per_second(row_rate_per_second(reason))
}

} // verus!
