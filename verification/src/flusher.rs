//! The flusher façade: configuration plus the two public entry points, the
//! scan that finds indexes needing work and the assembly of one build's
//! committed result.

use vstd::prelude::*;

use crate::assemble::{output_parts, spec_assembled};
use crate::error::FlusherError;
use crate::knobs::DATABASE_WORKERS_MAX_CHECKPOINT_AGE;
use crate::scanner::{scan_for_builds, spec_scan, IndexRecord};
use crate::state::{IndexBuild, IndexBuildResult, MultiSegmentBuildResult, SnapshotData};
use crate::stats::{stats_total, total_statistics};

verus! {

/// The engine's configuration, immutable for the flusher's lifetime.
pub struct SearchFlusher {
    /// Serving indexes larger than this are rebuilt.
    pub index_size_soft_limit: u64,
    /// Strategy switch handed through to the segment builder: below it the
    /// builder may scan prior segments fully instead of doing pointed
    /// lookups.
    pub full_scan_threshold_kb: u64,
    /// Byte budget of one backfill continuation run.
    pub incremental_multipart_threshold_bytes: u64,
}

impl SearchFlusher {
    /// A flusher with the given knobs.
    pub fn new(
        index_size_soft_limit: u64,
        full_scan_threshold_kb: u64,
        incremental_multipart_threshold_bytes: u64,
    ) -> (r: SearchFlusher)
        ensures
            r.index_size_soft_limit == index_size_soft_limit,
            r.full_scan_threshold_kb == full_scan_threshold_kb,
            r.incremental_multipart_threshold_bytes == incremental_multipart_threshold_bytes,
    {
        SearchFlusher {
            index_size_soft_limit,
            full_scan_threshold_kb,
            incremental_multipart_threshold_bytes,
        }
    }

    /// Computes the set of indexes that need a build, from the records read
    /// at the scan's repeatable timestamp `step_ts`. Every record that
    /// classifies to a reason becomes one job, in record order; any
    /// classification error aborts the whole scan with no jobs.
    pub fn needs_backfill(&self, records: Vec<IndexRecord>, step_ts: u64) -> (r: Result<
        Vec<IndexBuild>,
        FlusherError,
    >)
        ensures
            match r {
                Ok(jobs) => spec_scan(
                    records@,
                    step_ts,
                    self.index_size_soft_limit,
                    DATABASE_WORKERS_MAX_CHECKPOINT_AGE,
                ) == Ok::<Seq<IndexBuild>, FlusherError>(jobs@),
                Err(e) => spec_scan(
                    records@,
                    step_ts,
                    self.index_size_soft_limit,
                    DATABASE_WORKERS_MAX_CHECKPOINT_AGE,
                ) == Err::<Seq<IndexBuild>, FlusherError>(e),
            },
    {
        scan_for_builds(
            records,
            step_ts,
            self.index_size_soft_limit,
            DATABASE_WORKERS_MAX_CHECKPOINT_AGE,
        )
    }

    /// Assembles the committed result of one build, declared consistent at
    /// `snapshot_ts`: the updated prior segments in their input order with
    /// the new segment, if any, appended last, their statistics added up, and
    /// the backfill progress passed through. Fails exactly when the
    /// statistics total overflows, and then produces no result at all.
    pub fn build_multipart_segment(&self, snapshot_ts: u64, build: MultiSegmentBuildResult) -> (r:
        Result<IndexBuildResult, FlusherError>)
        ensures
            match r {
                Ok(res) => spec_assembled(snapshot_ts, build, res)
                    && stats_total(output_parts(build)).0 <= u64::MAX
                    && stats_total(output_parts(build)).1 <= u64::MAX,
                Err(e) => e == FlusherError::StatisticsOverflow && (stats_total(
                    output_parts(build),
                ).0 > u64::MAX || stats_total(output_parts(build)).1 > u64::MAX),
            },
    {
        let MultiSegmentBuildResult { new_segment, updated_previous_segments, backfill_result } =
            build;
        let mut new_and_updated_parts = updated_previous_segments;
        let (new_segment_stats, new_segment_id) = match new_segment {
            Some(segment) => {
                new_and_updated_parts.push(segment);
                (Some(segment.statistics), Some(segment.segment_id))
            },
            None => (None, None),
        };
        proof {
            assert(new_and_updated_parts@ == output_parts(build));
        }
        let total_stats = total_statistics(&new_and_updated_parts)?;
        Ok(IndexBuildResult {
            snapshot_ts,
            data: SnapshotData::MultiSegment(new_and_updated_parts),
            total_stats,
            new_segment_stats,
            new_segment_id,
            backfill_result,
        })
    }
}

} // verus!
