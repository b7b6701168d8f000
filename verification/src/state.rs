//! The on-disk state model of a search index and the engine's work items.
//!
//! Timestamps are repeatable commit timestamps, modeled as plain ticks.
//! Document and index identifiers are the database's internal ids, modeled as
//! plain integers whose order is the by-id iteration order.

use vstd::prelude::*;

use crate::stats::{Segment, SegmentStatistics};

verus! {

/// State of an index that is still doing its initial multi-segment
/// construction.
#[derive(Clone, Debug, PartialEq, Eq)]
pub struct BackfillState {
    /// Repeatable timestamp anchoring the backfill scan. Once set it stays
    /// stable across all continuation runs; `None` only before the first run.
    pub backfill_snapshot_ts: Option<u64>,
    /// Last consumed document id within the by-id index; `None` means the
    /// scan starts at the beginning of the table.
    pub cursor: Option<u64>,
    /// Segments persisted by earlier backfill iterations, in insertion order.
    pub segments: Vec<Segment>,
}

/// The segment set of a completed snapshot, or a marker for a legacy format
/// that must be rebuilt from scratch.
#[derive(Clone, Debug, PartialEq, Eq)]
pub enum SnapshotData {
    /// Incompatible legacy format; triggers a full rebuild.
    Unknown,
    /// The current multi-segment format, segments in insertion order.
    MultiSegment(Vec<Segment>),
}

/// A consistent snapshot of a fully built index.
#[derive(Clone, Debug, PartialEq, Eq)]
pub struct SearchSnapshot {
    /// Repeatable commit timestamp at which this snapshot is consistent.
    pub ts: u64,
    pub data: SnapshotData,
}

/// Where an index stands in its lifecycle.
#[derive(Clone, Debug, PartialEq, Eq)]
pub enum SearchOnDiskState {
    /// Initial multi-segment construction is still in progress.
    Backfilling(BackfillState),
    /// Fully built but not yet promoted to serving queries.
    Backfilled(SearchSnapshot),
    /// Fully built and serving; needs periodic catch-up.
    SnapshottedAt(SearchSnapshot),
}

/// The developer-provided index configuration, as far as the engine reads it.
#[derive(Clone, Debug, PartialEq, Eq)]
pub struct SearchIndexConfig {
    pub on_disk_state: SearchOnDiskState,
}

/// The classifier's verdict on why an index needs work; also encodes the
/// urgency that controls the document read rate.
#[derive(Clone, Copy, Debug, PartialEq, Eq, Structural)]
pub enum BuildReason {
    /// Initial backfill has not completed yet.
    Backfilling,
    /// The stored format version does not match this implementation.
    VersionMismatch,
    /// The index has not absorbed writes for too long and is non-empty.
    TooOld,
    /// The index has outgrown the configured soft size limit.
    TooLarge,
}

/// How documents are fetched to construct a segment.
#[derive(Clone, Copy, Debug, PartialEq, Eq)]
pub enum MultipartBuildType {
    /// Incremental catch-up: consume all modifications committed strictly
    /// after the carried timestamp, up to the build's snapshot timestamp.
    Partial(u64),
    /// Backfill continuation: consume by-id ordered documents starting
    /// strictly after `cursor`, at the fixed `backfill_snapshot_ts`, bounded
    /// by the per-run byte budget.
    IncrementalComplete { cursor: Option<u64>, backfill_snapshot_ts: u64 },
}

impl MultipartBuildType {
    /// Whether this build continues a backfill and therefore reports a
    /// backfill result.
    pub open spec fn is_incremental_complete(self) -> bool {
        self matches MultipartBuildType::IncrementalComplete { .. }
    }
}

/// A unit of work: one index that needs a build, with everything the builder
/// needs to fetch its documents and commit the outcome.
#[derive(Clone, Debug, PartialEq, Eq)]
pub struct IndexBuild {
    /// Tablet-qualified identifier of the index, for logging and commit.
    pub index_name: String,
    /// Internal id of the index metadata record.
    pub index_id: u64,
    /// Internal id of the companion by-id index driving ordered iteration.
    pub by_id: u64,
    /// Resolved document id of the index metadata record, for the commit.
    pub metadata_id: u64,
    pub index_config: SearchIndexConfig,
    pub build_reason: BuildReason,
}

/// Progress report of one backfill continuation run.
#[derive(Clone, Copy, Debug, PartialEq, Eq)]
pub struct MultiSegmentBackfillResult {
    /// Id of the last document folded into the new segment, if any.
    pub new_cursor: Option<u64>,
    /// True exactly when the scan drained the table without tripping the
    /// byte budget, so the backfill is done.
    pub is_backfill_complete: bool,
}

/// What one build run produced, before assembly into the committed result:
/// the uploaded new segment, the prior segments rewritten to absorb the
/// deletes seen in the stream, and backfill progress when applicable.
#[derive(Clone, Debug, PartialEq, Eq)]
pub struct MultiSegmentBuildResult {
    /// `None` exactly when the document stream produced no insertions, so no
    /// new segment was warranted.
    pub new_segment: Option<Segment>,
    /// The prior segments after the build, in their input order.
    pub updated_previous_segments: Vec<Segment>,
    /// Set only when the build continued a backfilling index.
    pub backfill_result: Option<MultiSegmentBackfillResult>,
}

/// The committed outcome of one build: the new snapshot descriptor for the
/// index's metadata record.
#[derive(Clone, Debug, PartialEq, Eq)]
pub struct IndexBuildResult {
    /// The timestamp at which the produced segment set is consistent.
    pub snapshot_ts: u64,
    pub data: SnapshotData,
    /// Statistics added up over every segment in `data`.
    pub total_stats: SegmentStatistics,
    /// Statistics of the new segment, if one was built.
    pub new_segment_stats: Option<SegmentStatistics>,
    /// Identifier of the new segment, if one was built.
    pub new_segment_id: Option<u64>,
    /// Present exactly when this run continued a backfill.
    pub backfill_result: Option<MultiSegmentBackfillResult>,
}

} // verus!
