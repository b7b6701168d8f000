use search_flusher::budget::{select_incremental_page, BackfillPager, DocumentSummary};
use search_flusher::error::FlusherError;
use search_flusher::flusher::SearchFlusher;
use search_flusher::knobs::{
    row_rate_per_second, row_rate_quota, DATABASE_WORKERS_MAX_CHECKPOINT_AGE,
    DEFAULT_DOCUMENTS_PAGE_SIZE, ROUTINE_BUILD_PAGES_PER_SECOND, URGENT_BUILD_PAGES_PER_SECOND,
};
use search_flusher::planner::plan_multipart_build;
use search_flusher::scanner::{classify_index, IndexRecord};
use search_flusher::state::{
    BackfillState, BuildReason, MultiSegmentBuildResult, MultipartBuildType, SearchIndexConfig,
    SearchOnDiskState, SearchSnapshot, SnapshotData,
};
use search_flusher::assemble::finish_segment_build;
use search_flusher::stats::{total_statistics, Segment, SegmentStatistics};

fn seg(id: u64, docs: u64, bytes: u64) -> Segment {
    Segment {
        segment_id: id,
        statistics: SegmentStatistics {
            num_documents: docs,
            size_bytes: bytes,
        },
    }
}

fn doc(id: u64, size: u64) -> DocumentSummary {
    DocumentSummary { id, size }
}

fn flusher() -> SearchFlusher {
    SearchFlusher::new(100_000, 1024, 10_000)
}

fn record(state: SearchOnDiskState, version_current: bool, ff: u64, size: u64) -> IndexRecord {
    IndexRecord {
        index_name: String::from("tbl.by_text"),
        index_id: 7,
        by_id: 8,
        metadata_id: 9,
        index_config: SearchIndexConfig {
            on_disk_state: state,
        },
        version_current,
        fast_forward_ts: ff,
        index_size: size,
    }
}

#[test]
fn fresh_backfill_single_page() {
    // A fresh backfill whose whole table fits in one byte-budget run.
    let state = SearchOnDiskState::Backfilling(BackfillState {
        backfill_snapshot_ts: None,
        cursor: None,
        segments: vec![],
    });
    let plan = plan_multipart_build(&state, 100, 0).unwrap();
    assert_eq!(plan.snapshot_ts, 100);
    assert_eq!(plan.previous_segments, vec![]);
    assert_eq!(
        plan.build_type,
        MultipartBuildType::IncrementalComplete {
            cursor: None,
            backfill_snapshot_ts: 100
        }
    );

    let docs = vec![doc(21, 3_000), doc(22, 3_000)];
    let (page, yielded) = select_incremental_page(&docs, 10_000);
    assert_eq!(yielded, 2);
    assert_eq!(page.new_cursor, Some(22));
    assert!(page.is_backfill_complete);

    let new_segment = seg(1, 2, 6_000);
    let build = finish_segment_build(plan.build_type, page, Some(new_segment), vec![]);
    let result = flusher()
        .build_multipart_segment(plan.snapshot_ts, build)
        .unwrap();
    assert_eq!(result.snapshot_ts, 100);
    assert_eq!(result.data, SnapshotData::MultiSegment(vec![new_segment]));
    assert_eq!(result.new_segment_id, Some(1));
    assert_eq!(result.new_segment_stats, Some(new_segment.statistics));
    let backfill = result.backfill_result.unwrap();
    assert_eq!(backfill.new_cursor, Some(22));
    assert!(backfill.is_backfill_complete);
}

#[test]
fn backfill_hits_byte_budget_then_resumes() {
    // Three documents of 4_000 bytes against a 10_000-byte budget: the first
    // run consumes two and stops, the second run consumes the third.
    let docs = vec![doc(31, 4_000), doc(32, 4_000), doc(33, 4_000)];
    let (page1, yielded1) = select_incremental_page(&docs, 10_000);
    assert_eq!(yielded1, 2);
    assert_eq!(page1.new_cursor, Some(32));
    assert!(!page1.is_backfill_complete);

    // The next run streams the documents strictly after the committed cursor.
    let rest = vec![doc(33, 4_000)];
    let (page2, yielded2) = select_incremental_page(&rest, 10_000);
    assert_eq!(yielded2, 1);
    assert_eq!(page2.new_cursor, Some(33));
    assert!(page2.is_backfill_complete);
}

#[test]
fn byte_budget_exact_fit_drains() {
    // A total that lands exactly on the budget still drains the stream.
    let docs = vec![doc(1, 5_000), doc(2, 5_000)];
    let (page, yielded) = select_incremental_page(&docs, 10_000);
    assert_eq!(yielded, 2);
    assert!(page.is_backfill_complete);
}

#[test]
fn empty_stream_completes_with_no_cursor() {
    let docs = vec![];
    let (page, yielded) = select_incremental_page(&docs, 10_000);
    assert_eq!(yielded, 0);
    assert_eq!(page.new_cursor, None);
    assert!(page.is_backfill_complete);
}

#[test]
fn pager_matches_batch_selection() {
    // Feeding the pager document by document gives the same verdicts as the
    // batch run.
    let docs = vec![doc(1, 6_000), doc(2, 3_000), doc(3, 2_000)];
    let mut pager = BackfillPager::new();
    assert!(pager.observe(1, 6_000, 10_000));
    assert!(pager.observe(2, 3_000, 10_000));
    assert!(!pager.observe(3, 2_000, 10_000));
    // A closed run consumes nothing more.
    assert!(!pager.observe(4, 1, 10_000));
    let report = pager.result();
    let (page, yielded) = select_incremental_page(&docs, 10_000);
    assert_eq!(yielded, 2);
    assert_eq!(report.new_cursor, page.new_cursor);
    assert_eq!(report.is_backfill_complete, page.is_backfill_complete);
}

#[test]
fn version_mismatch_triggers_rebuild() {
    // A snapshotted index on a stale format classifies as a version mismatch
    // and is planned as a rebuild from nothing.
    let state = SearchOnDiskState::SnapshottedAt(SearchSnapshot {
        ts: 40,
        data: SnapshotData::Unknown,
    });
    let verdict = classify_index(&state, false, 40, 100, 5, 100_000, 3600).unwrap();
    assert_eq!(verdict, Some(BuildReason::VersionMismatch));

    let plan = plan_multipart_build(&state, 200, 40).unwrap();
    assert_eq!(plan.previous_segments, vec![]);
    assert_eq!(plan.snapshot_ts, 200);
    assert_eq!(
        plan.build_type,
        MultipartBuildType::IncrementalComplete {
            cursor: None,
            backfill_snapshot_ts: 200
        }
    );
}

#[test]
fn pure_delete_catchup_keeps_priors_only() {
    // A catch-up window holding only deletions: no new segment, the updated
    // priors carry the result, and the total is their sum.
    let s1 = seg(1, 10, 1_000);
    let s2 = seg(2, 20, 2_000);
    let state = SearchOnDiskState::SnapshottedAt(SearchSnapshot {
        ts: 50,
        data: SnapshotData::MultiSegment(vec![s1, s2]),
    });
    let plan = plan_multipart_build(&state, 90, 60).unwrap();
    assert_eq!(plan.build_type, MultipartBuildType::Partial(60));
    assert_eq!(plan.previous_segments, vec![s1, s2]);
    assert_eq!(plan.snapshot_ts, 90);

    // The builder absorbed the tombstones into the priors.
    let s1_updated = seg(1, 8, 900);
    let s2_updated = seg(2, 19, 1_950);
    let page = BackfillPager::new().result();
    let build = finish_segment_build(plan.build_type, page, None, vec![s1_updated, s2_updated]);
    assert_eq!(build.backfill_result, None);

    let result = flusher().build_multipart_segment(90, build).unwrap();
    assert_eq!(result.snapshot_ts, 90);
    assert_eq!(
        result.data,
        SnapshotData::MultiSegment(vec![s1_updated, s2_updated])
    );
    assert_eq!(result.new_segment_id, None);
    assert_eq!(result.new_segment_stats, None);
    assert_eq!(result.backfill_result, None);
    assert_eq!(
        result.total_stats,
        SegmentStatistics {
            num_documents: 27,
            size_bytes: 2_850
        }
    );
}

#[test]
fn too_large_beats_too_old() {
    // Over the size limit and past the age threshold at once: the size limit
    // wins.
    let state = SearchOnDiskState::SnapshottedAt(SearchSnapshot {
        ts: 10,
        data: SnapshotData::MultiSegment(vec![seg(1, 1, 1)]),
    });
    let soft_limit = 100_000;
    let verdict = classify_index(&state, true, 10, 100_000, soft_limit + 1, soft_limit, 3600)
        .unwrap();
    assert_eq!(verdict, Some(BuildReason::TooLarge));
}

#[test]
fn stale_nonempty_index_is_too_old() {
    let state = SearchOnDiskState::SnapshottedAt(SearchSnapshot {
        ts: 10,
        data: SnapshotData::MultiSegment(vec![seg(1, 1, 1)]),
    });
    let verdict = classify_index(&state, true, 10, 4_000, 50, 100_000, 3600).unwrap();
    assert_eq!(verdict, Some(BuildReason::TooOld));
}

#[test]
fn empty_old_index_is_not_rebuilt() {
    // An index with nothing in it is never too old, however stale.
    let state = SearchOnDiskState::SnapshottedAt(SearchSnapshot {
        ts: 10,
        data: SnapshotData::MultiSegment(vec![]),
    });
    let verdict = classify_index(&state, true, 10, 1_000_000, 0, 100_000, 3600).unwrap();
    assert_eq!(verdict, None);
}

#[test]
fn backfilling_index_always_classified() {
    let state = SearchOnDiskState::Backfilling(BackfillState {
        backfill_snapshot_ts: Some(5),
        cursor: Some(3),
        segments: vec![],
    });
    let verdict = classify_index(&state, false, 999, 10, 0, 0, 0).unwrap();
    assert_eq!(verdict, Some(BuildReason::Backfilling));
}

#[test]
fn fast_forward_violation_aborts_scan() {
    // A fast-forward timestamp beyond the scan timestamp is a hard error and
    // no partial job list comes back.
    let healthy = record(
        SearchOnDiskState::Backfilling(BackfillState {
            backfill_snapshot_ts: None,
            cursor: None,
            segments: vec![],
        }),
        true,
        0,
        0,
    );
    let violating = record(
        SearchOnDiskState::SnapshottedAt(SearchSnapshot {
            ts: 10,
            data: SnapshotData::MultiSegment(vec![]),
        }),
        true,
        600,
        0,
    );
    let result = flusher().needs_backfill(vec![healthy, violating], 500);
    assert_eq!(result, Err(FlusherError::FastForwardBeyondStep));
}

#[test]
fn scan_emits_jobs_in_record_order() {
    let backfilling = record(
        SearchOnDiskState::Backfilling(BackfillState {
            backfill_snapshot_ts: None,
            cursor: None,
            segments: vec![],
        }),
        true,
        0,
        0,
    );
    let healthy = record(
        SearchOnDiskState::SnapshottedAt(SearchSnapshot {
            ts: 400,
            data: SnapshotData::MultiSegment(vec![seg(1, 1, 1)]),
        }),
        true,
        450,
        10,
    );
    let stale = record(
        SearchOnDiskState::SnapshottedAt(SearchSnapshot {
            ts: 10,
            data: SnapshotData::MultiSegment(vec![seg(2, 1, 1)]),
        }),
        true,
        10,
        50,
    );
    let step_ts = 10 + DATABASE_WORKERS_MAX_CHECKPOINT_AGE;
    let jobs = flusher()
        .needs_backfill(vec![backfilling.clone(), healthy, stale.clone()], step_ts)
        .unwrap();
    assert_eq!(jobs.len(), 2);
    assert_eq!(jobs[0].build_reason, BuildReason::Backfilling);
    assert_eq!(jobs[0].index_name, backfilling.index_name);
    assert_eq!(jobs[0].index_id, backfilling.index_id);
    assert_eq!(jobs[0].by_id, backfilling.by_id);
    assert_eq!(jobs[0].metadata_id, backfilling.metadata_id);
    assert_eq!(jobs[1].build_reason, BuildReason::TooOld);
    assert_eq!(jobs[1].index_config, stale.index_config);
}

#[test]
fn backfill_anchor_is_stable() {
    // A backfill keeps its anchored snapshot timestamp across continuations.
    let s1 = seg(4, 2, 200);
    let state = SearchOnDiskState::Backfilling(BackfillState {
        backfill_snapshot_ts: Some(70),
        cursor: Some(15),
        segments: vec![s1],
    });
    let plan = plan_multipart_build(&state, 120, 0).unwrap();
    assert_eq!(plan.snapshot_ts, 70);
    assert_eq!(plan.previous_segments, vec![s1]);
    assert_eq!(
        plan.build_type,
        MultipartBuildType::IncrementalComplete {
            cursor: Some(15),
            backfill_snapshot_ts: 70
        }
    );
}

#[test]
fn anchor_beyond_build_timestamp_is_rejected() {
    let state = SearchOnDiskState::Backfilling(BackfillState {
        backfill_snapshot_ts: Some(200),
        cursor: None,
        segments: vec![],
    });
    assert_eq!(
        plan_multipart_build(&state, 100, 0),
        Err(FlusherError::SnapshotAheadOfBuild)
    );
}

#[test]
fn fast_forward_beyond_build_timestamp_is_rejected() {
    let state = SearchOnDiskState::Backfilled(SearchSnapshot {
        ts: 50,
        data: SnapshotData::MultiSegment(vec![]),
    });
    assert_eq!(
        plan_multipart_build(&state, 100, 150),
        Err(FlusherError::SnapshotAheadOfBuild)
    );
}

#[test]
fn partial_build_is_idempotent() {
    // The same snapshot timestamp and the same run outputs assemble to the
    // same committed result, bit for bit.
    let updated = vec![seg(1, 5, 500), seg(2, 6, 600)];
    let new_segment = seg(3, 7, 700);
    let page = BackfillPager::new().result();
    let make = || {
        let build = finish_segment_build(
            MultipartBuildType::Partial(60),
            page,
            Some(new_segment),
            updated.clone(),
        );
        flusher().build_multipart_segment(90, build).unwrap()
    };
    let first = make();
    let second = make();
    assert_eq!(first, second);
}

#[test]
fn total_stats_fold_over_output_segments() {
    // The committed total is the fold of statistics addition over the output
    // segments, empty statistics as identity.
    let parts = vec![seg(1, 1, 10), seg(2, 2, 20), seg(3, 3, 30)];
    let total = total_statistics(&parts).unwrap();
    assert_eq!(
        total,
        SegmentStatistics {
            num_documents: 6,
            size_bytes: 60
        }
    );
    let empty: Vec<Segment> = vec![];
    assert_eq!(
        total_statistics(&empty).unwrap(),
        SegmentStatistics {
            num_documents: 0,
            size_bytes: 0
        }
    );
}

#[test]
fn stats_overflow_fails_the_build() {
    let build = MultiSegmentBuildResult {
        new_segment: Some(seg(2, 1, 1)),
        updated_previous_segments: vec![seg(1, u64::MAX, 1)],
        backfill_result: None,
    };
    assert_eq!(
        flusher().build_multipart_segment(10, build),
        Err(FlusherError::StatisticsOverflow)
    );
}

#[test]
fn segment_order_is_priors_then_new() {
    let priors = vec![seg(5, 1, 1), seg(6, 1, 1)];
    let new_segment = seg(7, 1, 1);
    let build = MultiSegmentBuildResult {
        new_segment: Some(new_segment),
        updated_previous_segments: priors.clone(),
        backfill_result: None,
    };
    let result = flusher().build_multipart_segment(10, build).unwrap();
    assert_eq!(
        result.data,
        SnapshotData::MultiSegment(vec![priors[0], priors[1], new_segment])
    );
}

#[test]
fn read_rate_follows_urgency() {
    assert_eq!(
        row_rate_per_second(BuildReason::TooLarge),
        DEFAULT_DOCUMENTS_PAGE_SIZE * URGENT_BUILD_PAGES_PER_SECOND
    );
    assert_eq!(
        row_rate_per_second(BuildReason::TooOld),
        DEFAULT_DOCUMENTS_PAGE_SIZE * ROUTINE_BUILD_PAGES_PER_SECOND
    );
    assert!(
        row_rate_per_second(BuildReason::TooLarge) >= row_rate_per_second(BuildReason::TooOld)
    );
}

#[test]
fn quota_matches_governor_per_second() {
    // The trusted construction agrees with governor called directly.
    let urgent = core::num::NonZeroU32::new(
        DEFAULT_DOCUMENTS_PAGE_SIZE * URGENT_BUILD_PAGES_PER_SECOND,
    )
    .unwrap();
    assert_eq!(
        row_rate_quota(BuildReason::TooLarge),
        governor::Quota::per_second(urgent)
    );
    assert_ne!(
        row_rate_quota(BuildReason::TooOld),
        row_rate_quota(BuildReason::TooLarge)
    );
}
