//! Result assembly: stitching a build's outputs into the snapshot descriptor
//! that the caller commits.
//!
//! The updated prior segments keep their input order and the new segment, if
//! any, is appended last; this order is observable and stable. The total
//! statistics are the fold of statistics addition over the output segments,
//! starting from the empty statistics.

use vstd::prelude::*;

use crate::state::{
    IndexBuildResult, MultiSegmentBackfillResult, MultiSegmentBuildResult, MultipartBuildType,
    SnapshotData,
};
use crate::stats::{stats_total, Segment};

verus! {

/// The segment set a build run leaves behind: the updated prior segments in
/// their input order, with the new segment, if any, appended last.
pub open spec fn output_parts(build: MultiSegmentBuildResult) -> Seq<Segment> {
    match build.new_segment {
        Some(s) => build.updated_previous_segments@.push(s),
        None => build.updated_previous_segments@,
    }
}

/// What the committed result of a build says, given the build's declared
/// snapshot timestamp and what the run produced: the new snapshot holds
/// exactly the output segments, the total statistics are their fold, the new
/// segment's statistics and id are reported when one was built, and the
/// backfill progress is passed through untouched.
pub open spec fn spec_assembled(
    snapshot_ts: u64,
    build: MultiSegmentBuildResult,
    r: IndexBuildResult,
) -> bool {
    &&& r.snapshot_ts == snapshot_ts
    &&& r.data matches SnapshotData::MultiSegment(parts) && parts@ == output_parts(build)
    &&& r.total_stats.num_documents == stats_total(output_parts(build)).0
    &&& r.total_stats.size_bytes == stats_total(output_parts(build)).1
    &&& r.new_segment_stats == match build.new_segment {
        Some(s) => Some(s.statistics),
        None => None,
    }
    &&& r.new_segment_id == match build.new_segment {
        Some(s) => Some(s.segment_id),
        None => None,
    }
    &&& r.backfill_result == build.backfill_result
}

/// Packages what one build run produced. A backfill continuation carries its
/// progress report; a catch-up build never adds one.
pub fn finish_segment_build(
    build_type: MultipartBuildType,
    backfill: MultiSegmentBackfillResult,
    new_segment: Option<Segment>,
    updated_previous_segments: Vec<Segment>,
) -> (r: MultiSegmentBuildResult)
    ensures
        r.new_segment == new_segment,
        r.updated_previous_segments@ == updated_previous_segments@,
        build_type.is_incremental_complete() ==> r.backfill_result == Some(backfill),
        !build_type.is_incremental_complete() ==> r.backfill_result is None,
{
    let backfill_result = match build_type {
        MultipartBuildType::IncrementalComplete { .. } => Some(backfill),
        MultipartBuildType::Partial(_) => None,
    };
    MultiSegmentBuildResult { new_segment, updated_previous_segments, backfill_result }
}

/// Idempotence of catch-up builds: for an index serving a multi-segment
/// snapshot, two back-to-back catch-up builds at the same transaction
/// timestamp get the same plan — the same declared snapshot timestamp, prior
/// segments and fetch range — and, when the index kind reproduces the same
/// run outputs from that plan (as a deterministic kind does), the assembled
/// results agree on everything committed: the segment set, the total
/// statistics, the new-segment report and the backfill report.
pub proof fn lemma_partial_build_idempotent(
    state: crate::state::SearchOnDiskState,
    new_ts: u64,
    fast_forward_ts: u64,
    build1: MultiSegmentBuildResult,
    build2: MultiSegmentBuildResult,
    r1: IndexBuildResult,
    r2: IndexBuildResult,
)
    requires
        state matches crate::state::SearchOnDiskState::SnapshottedAt(snap)
            && snap.data matches crate::state::SnapshotData::MultiSegment(_),
        fast_forward_ts <= new_ts,
        build1.new_segment == build2.new_segment,
        build1.updated_previous_segments@ == build2.updated_previous_segments@,
        build1.backfill_result == build2.backfill_result,
        spec_assembled(new_ts, build1, r1),
        spec_assembled(new_ts, build2, r2),
    ensures
        crate::planner::spec_plan(state, new_ts, fast_forward_ts) matches Ok(plan)
            && plan.snapshot_ts == new_ts
            && plan.build_type == MultipartBuildType::Partial(fast_forward_ts),
        r1.snapshot_ts == r2.snapshot_ts,
        r1.data matches SnapshotData::MultiSegment(p1) && r2.data matches SnapshotData::MultiSegment(
            p2,
        ) && p1@ == p2@,
        r1.total_stats == r2.total_stats,
        r1.new_segment_stats == r2.new_segment_stats,
        r1.new_segment_id == r2.new_segment_id,
        r1.backfill_result == r2.backfill_result,
{
    assert(output_parts(build1) == output_parts(build2));
}

} // verus!
