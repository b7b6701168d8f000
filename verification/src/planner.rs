//! The build planner: for one job, picks the document-fetching strategy and
//! the prior-segment set from the index's on-disk state.
//!
//! A backfilling index continues its by-id scan at the anchored backfill
//! snapshot timestamp; a built index on a legacy format is rebuilt from
//! scratch; a built index on the current format catches up on the
//! modifications committed since its fast-forward timestamp.

use vstd::prelude::*;

use crate::error::FlusherError;
use crate::state::{MultipartBuildType, SearchOnDiskState, SnapshotData};
use crate::stats::{copy_segments, Segment};

verus! {

/// The plan of one build: the timestamp the produced segment set will be
/// consistent at, the prior segments the build rewrites, and how documents
/// are fetched.
#[derive(Clone, Debug, PartialEq, Eq)]
pub struct BuildPlan {
    /// The build's declared snapshot timestamp. For a backfilling index this
    /// is the anchored backfill snapshot timestamp; otherwise the planning
    /// transaction's timestamp.
    pub snapshot_ts: u64,
    /// The segments of the previous state, in their stored order; empty for a
    /// rebuild from scratch.
    pub previous_segments: Vec<Segment>,
    pub build_type: MultipartBuildType,
}

/// The mathematical content of a build plan.
pub struct PlanModel {
    pub snapshot_ts: u64,
    pub previous_segments: Seq<Segment>,
    pub build_type: MultipartBuildType,
}

impl View for BuildPlan {
    type V = PlanModel;

    open spec fn view(&self) -> PlanModel {
        PlanModel {
            snapshot_ts: self.snapshot_ts,
            previous_segments: self.previous_segments@,
            build_type: self.build_type,
        }
    }
}

/// What the plan of a build is, per on-disk state.
///
/// `new_ts` is the begin timestamp of the planning transaction and
/// `fast_forward_ts` the externally maintained checkpoint of the index; the
/// checkpoint is read only when the state carries a current-format snapshot.
pub open spec fn spec_plan(
    state: SearchOnDiskState,
    new_ts: u64,
    fast_forward_ts: u64,
) -> Result<PlanModel, FlusherError> {
    match state {
        SearchOnDiskState::Backfilling(bf) => {
            let anchor = match bf.backfill_snapshot_ts {
                Some(ts) => ts,
                None => new_ts,
            };
            if anchor > new_ts {
                Err(FlusherError::SnapshotAheadOfBuild)
            } else {
                Ok(PlanModel {
                    snapshot_ts: anchor,
                    previous_segments: bf.segments@,
                    build_type: MultipartBuildType::IncrementalComplete {
                        cursor: bf.cursor,
                        backfill_snapshot_ts: anchor,
                    },
                })
            }
        },
        SearchOnDiskState::Backfilled(snap) | SearchOnDiskState::SnapshottedAt(snap) => {
            match snap.data {
                SnapshotData::Unknown => Ok(PlanModel {
                    snapshot_ts: new_ts,
                    previous_segments: Seq::empty(),
                    build_type: MultipartBuildType::IncrementalComplete {
                        cursor: None,
                        backfill_snapshot_ts: new_ts,
                    },
                }),
                SnapshotData::MultiSegment(parts) => {
                    if fast_forward_ts > new_ts {
                        Err(FlusherError::SnapshotAheadOfBuild)
                    } else {
                        Ok(PlanModel {
                            snapshot_ts: new_ts,
                            previous_segments: parts@,
                            build_type: MultipartBuildType::Partial(fast_forward_ts),
                        })
                    }
                },
            }
        },
    }
}

/// Plans one build.
///
/// A backfilling index keeps its anchored backfill snapshot timestamp when
/// one is set — the anchor is the identity of the backfill and never moves —
/// and anchors at `new_ts` on the first run; its prior segments and cursor
/// carry over, and the plan is a backfill continuation. A built index on an
/// unknown legacy format is rebuilt from nothing. A built index on the
/// current format keeps its segments and catches up on the range starting
/// strictly after its fast-forward timestamp. A stored timestamp beyond
/// `new_ts` cannot be read repeatably and is an error.
pub fn plan_multipart_build(
    state: &SearchOnDiskState,
    new_ts: u64,
    fast_forward_ts: u64,
) -> (r: Result<BuildPlan, FlusherError>)
    ensures
        match r {
            Ok(plan) => spec_plan(*state, new_ts, fast_forward_ts)
                == Ok::<PlanModel, FlusherError>(plan@),
            Err(e) => spec_plan(*state, new_ts, fast_forward_ts)
                == Err::<PlanModel, FlusherError>(e),
        },
{
    match state {
        SearchOnDiskState::Backfilling(bf) => {
            let anchor = match bf.backfill_snapshot_ts {
                Some(ts) => ts,
                None => new_ts,
            };
            if anchor > new_ts {
                return Err(FlusherError::SnapshotAheadOfBuild);
            }
            Ok(BuildPlan {
                snapshot_ts: anchor,
                previous_segments: copy_segments(&bf.segments),
                build_type: MultipartBuildType::IncrementalComplete {
                    cursor: bf.cursor,
                    backfill_snapshot_ts: anchor,
                },
            })
        },
        SearchOnDiskState::Backfilled(snap) | SearchOnDiskState::SnapshottedAt(snap) => {
            match &snap.data {
                SnapshotData::Unknown => {
                    let plan = BuildPlan {
                        snapshot_ts: new_ts,
                        previous_segments: Vec::new(),
                        build_type: MultipartBuildType::IncrementalComplete {
                            cursor: None,
                            backfill_snapshot_ts: new_ts,
                        },
                    };
                    proof {
                        assert(plan@.previous_segments =~= Seq::<Segment>::empty());
                    }
                    Ok(plan)
                },
                SnapshotData::MultiSegment(parts) => {
                    if fast_forward_ts > new_ts {
                        return Err(FlusherError::SnapshotAheadOfBuild);
                    }
                    Ok(BuildPlan {
                        snapshot_ts: new_ts,
                        previous_segments: copy_segments(parts),
                        build_type: MultipartBuildType::Partial(fast_forward_ts),
                    })
                },
            }
        },
    }
}

/// A backfill's anchor is stable: planning a backfilling index whose anchor
/// is already set keeps that anchor as the snapshot timestamp, whatever the
/// planning transaction's timestamp is.
pub proof fn lemma_backfill_anchor_stable(
    state: SearchOnDiskState,
    new_ts: u64,
    fast_forward_ts: u64,
    anchor: u64,
)
    requires
        state matches SearchOnDiskState::Backfilling(bf)
            && bf.backfill_snapshot_ts == Some(anchor),
        anchor <= new_ts,
    ensures
        spec_plan(state, new_ts, fast_forward_ts) matches Ok(plan)
            && plan.snapshot_ts == anchor
            && plan.build_type == (MultipartBuildType::IncrementalComplete {
                cursor: state->Backfilling_0.cursor,
                backfill_snapshot_ts: anchor,
            }),
{
}

} // verus!
