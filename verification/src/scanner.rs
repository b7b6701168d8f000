//! The backfill scanner: classifies every index record seen at one repeatable
//! scan timestamp and turns the ones that need work into build jobs.
//!
//! The embedding process reads the metadata records, the fast-forward
//! checkpoints and the live index sizes from the database at the scan
//! timestamp and hands them over as plain records; the classification itself
//! is decided here.

use vstd::prelude::*;

use crate::error::FlusherError;
use crate::state::{BuildReason, IndexBuild, SearchIndexConfig, SearchOnDiskState};

verus! {

/// Everything the scanner reads about one index record, fixed at the scan's
/// repeatable timestamp.
#[derive(Clone, Debug, PartialEq, Eq)]
pub struct IndexRecord {
    /// Tablet-qualified identifier of the index.
    pub index_name: String,
    /// Internal id of the index metadata record.
    pub index_id: u64,
    /// Internal id of the companion by-id index of the same table.
    pub by_id: u64,
    /// Resolved document id of the metadata record.
    pub metadata_id: u64,
    /// The parsed kind-specific configuration.
    pub index_config: SearchIndexConfig,
    /// Whether the stored format version matches this implementation.
    pub version_current: bool,
    /// Externally maintained upper bound on the commit timestamps already
    /// absorbed by the index, at least the snapshot's own timestamp.
    pub fast_forward_ts: u64,
    /// Authoritative size of the serving index at the scan timestamp; zero
    /// when the index is not serving yet.
    pub index_size: u64,
}

/// The classifier's verdict for one index: `Ok(None)` when no work is needed,
/// `Ok(Some(reason))` when a build is due, and an error when the fast-forward
/// checkpoint lies beyond the scan timestamp.
pub open spec fn spec_classify(
    state: SearchOnDiskState,
    version_current: bool,
    fast_forward_ts: u64,
    step_ts: u64,
    index_size: u64,
    soft_limit: u64,
    max_age: u64,
) -> Result<Option<BuildReason>, FlusherError> {
    match state {
        SearchOnDiskState::Backfilling(_) => Ok(Some(BuildReason::Backfilling)),
        SearchOnDiskState::Backfilled(_) | SearchOnDiskState::SnapshottedAt(_) => {
            if !version_current {
                Ok(Some(BuildReason::VersionMismatch))
            } else if fast_forward_ts > step_ts {
                Err(FlusherError::FastForwardBeyondStep)
            } else {
                let too_large = index_size > soft_limit;
                let too_old = step_ts - fast_forward_ts >= max_age && index_size > 0;
                if too_large {
                    Ok(Some(BuildReason::TooLarge))
                } else if too_old {
                    Ok(Some(BuildReason::TooOld))
                } else {
                    Ok(None)
                }
            }
        },
    }
}

/// Decides whether one index needs a build, and why.
///
/// A backfilling index always needs work. A built index with a stale format
/// version needs a rebuild. Otherwise the index's age (scan timestamp minus
/// fast-forward timestamp) and its size decide: over the soft size limit
/// means too large; at or beyond the age threshold and non-empty means too
/// old; too large wins when both hold. A fast-forward timestamp beyond the
/// scan timestamp is a hard error.
pub fn classify_index(
    state: &SearchOnDiskState,
    version_current: bool,
    fast_forward_ts: u64,
    step_ts: u64,
    index_size: u64,
    soft_limit: u64,
    max_age: u64,
) -> (r: Result<Option<BuildReason>, FlusherError>)
    ensures
        r == spec_classify(
            *state,
            version_current,
            fast_forward_ts,
            step_ts,
            index_size,
            soft_limit,
            max_age,
        ),
{
    match state {
        SearchOnDiskState::Backfilling(_) => Ok(Some(BuildReason::Backfilling)),
        SearchOnDiskState::Backfilled(_) | SearchOnDiskState::SnapshottedAt(_) => {
            if !version_current {
                return Ok(Some(BuildReason::VersionMismatch));
            }
            if fast_forward_ts > step_ts {
                return Err(FlusherError::FastForwardBeyondStep);
            }
            let index_age = step_ts - fast_forward_ts;
            // Order matters: too large is more urgent than too old.
            if index_size > soft_limit {
                Ok(Some(BuildReason::TooLarge))
            } else if index_age >= max_age && index_size > 0 {
                Ok(Some(BuildReason::TooOld))
            } else {
                Ok(None)
            }
        },
    }
}

/// When an index is over the soft size limit and also old enough to be stale,
/// the size limit wins: the classifier reports it as too large, never as too
/// old.
pub proof fn lemma_too_large_beats_too_old(
    state: SearchOnDiskState,
    fast_forward_ts: u64,
    step_ts: u64,
    index_size: u64,
    soft_limit: u64,
    max_age: u64,
)
    requires
        state matches SearchOnDiskState::Backfilled(_)
            || state matches SearchOnDiskState::SnapshottedAt(_),
        fast_forward_ts <= step_ts,
        index_size > soft_limit,
        step_ts - fast_forward_ts >= max_age,
        index_size > 0,
    ensures
        spec_classify(state, true, fast_forward_ts, step_ts, index_size, soft_limit, max_age)
            == Ok::<Option<BuildReason>, FlusherError>(Some(BuildReason::TooLarge)),
{
}

/// An empty index is never classified as too old, however stale its
/// fast-forward timestamp is: with nothing absorbed and nothing to serve
/// there is nothing to catch up.
pub proof fn lemma_empty_index_never_too_old(
    state: SearchOnDiskState,
    fast_forward_ts: u64,
    step_ts: u64,
    soft_limit: u64,
    max_age: u64,
)
    requires
        state matches SearchOnDiskState::Backfilled(_)
            || state matches SearchOnDiskState::SnapshottedAt(_),
        fast_forward_ts <= step_ts,
        step_ts - fast_forward_ts >= max_age,
    ensures
        spec_classify(state, true, fast_forward_ts, step_ts, 0, soft_limit, max_age)
            == Ok::<Option<BuildReason>, FlusherError>(None::<BuildReason>),
{
}

/// The build job that one classified record becomes.
pub open spec fn spec_job_of(record: IndexRecord, reason: BuildReason) -> IndexBuild {
    IndexBuild {
        index_name: record.index_name,
        index_id: record.index_id,
        by_id: record.by_id,
        metadata_id: record.metadata_id,
        index_config: record.index_config,
        build_reason: reason,
    }
}

/// The job list of a whole scan: each record that classifies to a reason
/// becomes a job, in record order; the first classification error aborts the
/// scan with no jobs at all.
pub open spec fn spec_scan(
    records: Seq<IndexRecord>,
    step_ts: u64,
    soft_limit: u64,
    max_age: u64,
) -> Result<Seq<IndexBuild>, FlusherError>
    decreases records.len(),
{
    if records.len() == 0 {
        Ok(Seq::empty())
    } else {
        match spec_scan(records.drop_last(), step_ts, soft_limit, max_age) {
            Err(e) => Err(e),
            Ok(jobs) => {
                let rec = records.last();
                match spec_classify(
                    rec.index_config.on_disk_state,
                    rec.version_current,
                    rec.fast_forward_ts,
                    step_ts,
                    rec.index_size,
                    soft_limit,
                    max_age,
                ) {
                    Err(e) => Err(e),
                    Ok(None) => Ok(jobs),
                    Ok(Some(reason)) => Ok(jobs.push(spec_job_of(rec, reason))),
                }
            },
        }
    }
}

/// Once a scan prefix has failed, every longer scan fails with the same
/// error: the first classification error decides the whole scan.
proof fn lemma_scan_err_persists(
    records: Seq<IndexRecord>,
    k: int,
    step_ts: u64,
    soft_limit: u64,
    max_age: u64,
    e: FlusherError,
)
    requires
        0 <= k <= records.len(),
        spec_scan(records.subrange(0, k), step_ts, soft_limit, max_age)
            == Err::<Seq<IndexBuild>, FlusherError>(e),
    ensures
        spec_scan(records, step_ts, soft_limit, max_age)
            == Err::<Seq<IndexBuild>, FlusherError>(e),
    decreases records.len() - k,
{
    if k == records.len() {
        assert(records.subrange(0, k) =~= records);
    } else {
        assert(records.subrange(0, k + 1).drop_last() =~= records.subrange(0, k));
        lemma_scan_err_persists(records, k + 1, step_ts, soft_limit, max_age, e);
    }
}

/// Classifies every record of one scan and returns the build jobs, in record
/// order. Errors abort the whole scan: a partial job list is never returned.
#[verifier::loop_isolation(false)]
pub fn scan_for_builds(
    records: Vec<IndexRecord>,
    step_ts: u64,
    soft_limit: u64,
    max_age: u64,
) -> (r: Result<Vec<IndexBuild>, FlusherError>)
    ensures
        match r {
            Ok(jobs) => spec_scan(records@, step_ts, soft_limit, max_age)
                == Ok::<Seq<IndexBuild>, FlusherError>(jobs@),
            Err(e) => spec_scan(records@, step_ts, soft_limit, max_age)
                == Err::<Seq<IndexBuild>, FlusherError>(e),
        },
{
    let ghost all_records = records@;
    let mut to_build: Vec<IndexBuild> = Vec::new();
    let mut remaining = records;
    let ghost mut seen: int = 0;
    while remaining.len() > 0
        invariant
            0 <= seen <= all_records.len(),
            remaining@ == all_records.subrange(seen, all_records.len() as int),
            spec_scan(all_records.subrange(0, seen), step_ts, soft_limit, max_age)
                == Ok::<Seq<IndexBuild>, FlusherError>(to_build@),
        decreases remaining.len(),
    {
        let record = remaining.remove(0);
        proof {
            assert(record == all_records[seen]);
            assert(remaining@ =~= all_records.subrange(seen + 1, all_records.len() as int));
            assert(all_records.subrange(0, seen + 1).drop_last()
                =~= all_records.subrange(0, seen));
            assert(all_records.subrange(0, seen + 1).last() == all_records[seen]);
        }
        let verdict = match classify_index(
            &record.index_config.on_disk_state,
            record.version_current,
            record.fast_forward_ts,
            step_ts,
            record.index_size,
            soft_limit,
            max_age,
        ) {
            Ok(v) => v,
            Err(e) => {
                proof {
                    let prefix = all_records.subrange(0, seen + 1);
                    assert(prefix.len() > 0);
                    assert(spec_scan(prefix.drop_last(), step_ts, soft_limit, max_age)
                        == Ok::<Seq<IndexBuild>, FlusherError>(to_build@));
                    assert(spec_classify(
                        prefix.last().index_config.on_disk_state,
                        prefix.last().version_current,
                        prefix.last().fast_forward_ts,
                        step_ts,
                        prefix.last().index_size,
                        soft_limit,
                        max_age,
                    ) == Err::<Option<BuildReason>, FlusherError>(e));
                    assert(spec_scan(prefix, step_ts, soft_limit, max_age)
                        == Err::<Seq<IndexBuild>, FlusherError>(e));
                    lemma_scan_err_persists(all_records, seen + 1, step_ts, soft_limit, max_age, e);
                }
                return Err(e);
            },
        };
        if let Some(build_reason) = verdict {
            let job = IndexBuild {
                index_name: record.index_name,
                index_id: record.index_id,
                by_id: record.by_id,
                metadata_id: record.metadata_id,
                index_config: record.index_config,
                build_reason,
            };
            to_build.push(job);
        }
        proof {
            seen = seen + 1;
        }
    }
    proof {
        assert(all_records.subrange(0, seen) =~= all_records);
    }
    Ok(to_build)
}

} // verus!
