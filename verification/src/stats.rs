//! Segments and their statistics.
//!
//! A segment is an immutable, uploaded unit of on-disk index data. The engine
//! treats its contents as opaque; all it ever reads are the segment's stable
//! identifier and its statistics. Statistics are additive over a segment set,
//! with the all-zero statistics as identity.

use vstd::prelude::*;

use crate::error::FlusherError;

verus! {

/// Statistics of one segment: how many documents it holds and how many bytes
/// it occupies. Addition is componentwise.
#[derive(Clone, Copy, Debug, PartialEq, Eq, Structural)]
pub struct SegmentStatistics {
    pub num_documents: u64,
    pub size_bytes: u64,
}

/// A durable segment descriptor: the stable identifier chosen by the index
/// kind at upload time, together with the segment's statistics.
#[derive(Clone, Copy, Debug, PartialEq, Eq, Structural)]
pub struct Segment {
    pub segment_id: u64,
    pub statistics: SegmentStatistics,
}

impl SegmentStatistics {
    /// The identity of statistics addition.
    pub open spec fn spec_empty() -> SegmentStatistics {
        SegmentStatistics { num_documents: 0, size_bytes: 0 }
    }

    /// Componentwise addition over unbounded integers.
    pub open spec fn spec_add(self, other: SegmentStatistics) -> (int, int) {
        (self.num_documents + other.num_documents, self.size_bytes + other.size_bytes)
    }

    /// The identity statistics: no documents, no bytes.
    pub fn empty() -> (r: SegmentStatistics)
        ensures
            r == SegmentStatistics::spec_empty(),
    {
        SegmentStatistics { num_documents: 0, size_bytes: 0 }
    }

    /// Componentwise checked addition; fails exactly when a component
    /// overflows its counter.
    pub fn add(self, other: SegmentStatistics) -> (r: Result<SegmentStatistics, FlusherError>)
        ensures
            self.num_documents + other.num_documents <= u64::MAX
                && self.size_bytes + other.size_bytes <= u64::MAX
                ==> (r matches Ok(s)
                    && s.num_documents == self.num_documents + other.num_documents
                    && s.size_bytes == self.size_bytes + other.size_bytes),
            self.num_documents + other.num_documents > u64::MAX
                || self.size_bytes + other.size_bytes > u64::MAX
                ==> r == Err::<SegmentStatistics, FlusherError>(FlusherError::StatisticsOverflow),
    {
        if other.num_documents <= u64::MAX - self.num_documents
            && other.size_bytes <= u64::MAX - self.size_bytes
        {
            Ok(SegmentStatistics {
                num_documents: self.num_documents + other.num_documents,
                size_bytes: self.size_bytes + other.size_bytes,
            })
        } else {
            Err(FlusherError::StatisticsOverflow)
        }
    }
}

/// The mathematical total of the statistics over a segment sequence: the fold
/// of componentwise addition, starting from the empty statistics, over
/// unbounded integers.
pub open spec fn stats_total(segments: Seq<Segment>) -> (int, int)
    decreases segments.len(),
{
    if segments.len() == 0 {
        (0int, 0int)
    } else {
        let rest = stats_total(segments.drop_last());
        (
            rest.0 + segments.last().statistics.num_documents,
            rest.1 + segments.last().statistics.size_bytes,
        )
    }
}

/// Statistics totals are additive over concatenation of segment sets, with
/// the empty statistics as identity: folding addition over `a + b` is the
/// same as adding the folds over `a` and over `b`.
pub proof fn lemma_stats_total_concat(a: Seq<Segment>, b: Seq<Segment>)
    ensures
        stats_total(a + b).0 == stats_total(a).0 + stats_total(b).0,
        stats_total(a + b).1 == stats_total(a).1 + stats_total(b).1,
    decreases b.len(),
{
    if b.len() == 0 {
        assert(a + b =~= a);
    } else {
        lemma_stats_total_concat(a, b.drop_last());
        assert((a + b).drop_last() =~= a + b.drop_last());
        assert((a + b).last() == b.last());
    }
}

/// Every component of a statistics total is nonnegative.
pub proof fn lemma_stats_total_nonneg(segments: Seq<Segment>)
    ensures
        stats_total(segments).0 >= 0,
        stats_total(segments).1 >= 0,
    decreases segments.len(),
{
    if segments.len() > 0 {
        lemma_stats_total_nonneg(segments.drop_last());
    }
}

/// Folds statistics addition over a segment list, starting from the empty
/// statistics. Fails exactly when the mathematical total does not fit the
/// counters.
pub fn total_statistics(segments: &Vec<Segment>) -> (r: Result<SegmentStatistics, FlusherError>)
    ensures
        stats_total(segments@).0 <= u64::MAX && stats_total(segments@).1 <= u64::MAX
            ==> (r matches Ok(s)
                && s.num_documents == stats_total(segments@).0
                && s.size_bytes == stats_total(segments@).1),
        stats_total(segments@).0 > u64::MAX || stats_total(segments@).1 > u64::MAX
            ==> r == Err::<SegmentStatistics, FlusherError>(FlusherError::StatisticsOverflow),
{
    let mut total = SegmentStatistics::empty();
    let mut i: usize = 0;
    while i < segments.len()
        invariant
            i <= segments.len(),
            total.num_documents == stats_total(segments@.subrange(0, i as int)).0,
            total.size_bytes == stats_total(segments@.subrange(0, i as int)).1,
        decreases segments.len() - i,
    {
        let ghost prefix = segments@.subrange(0, i as int);
        let ghost next_prefix = segments@.subrange(0, i + 1 as int);
        proof {
            assert(next_prefix.drop_last() =~= prefix);
            assert(next_prefix.last() == segments@[i as int]);
            lemma_stats_total_nonneg(segments@.subrange(0, i + 1 as int));
        }
        match total.add(segments[i].statistics) {
            Ok(sum) => {
                total = sum;
            },
            Err(e) => {
                proof {
                    lemma_prefix_total_le(segments@, i + 1 as int);
                }
                return Err(e);
            },
        }
        i = i + 1;
    }
    assert(segments@.subrange(0, segments@.len() as int) =~= segments@);
    Ok(total)
}

/// Copies a segment list. Segment descriptors are plain values, so the copy
/// equals the input element for element.
pub fn copy_segments(segments: &Vec<Segment>) -> (r: Vec<Segment>)
    ensures
        r@ == segments@,
{
    let mut out: Vec<Segment> = Vec::new();
    let mut i: usize = 0;
    while i < segments.len()
        invariant
            i <= segments.len(),
            out@ == segments@.subrange(0, i as int),
        decreases segments.len() - i,
    {
        out.push(segments[i]);
        proof {
            assert(out@ =~= segments@.subrange(0, i + 1 as int));
        }
        i = i + 1;
    }
    proof {
        assert(out@ =~= segments@);
    }
    out
}

/// The total over a prefix never exceeds the total over the whole sequence.
pub proof fn lemma_prefix_total_le(segments: Seq<Segment>, k: int)
    requires
        0 <= k <= segments.len(),
    ensures
        stats_total(segments.subrange(0, k)).0 <= stats_total(segments).0,
        stats_total(segments.subrange(0, k)).1 <= stats_total(segments).1,
    decreases segments.len() - k,
{
    if k == segments.len() {
        assert(segments.subrange(0, k) =~= segments);
    } else {
        lemma_prefix_total_le(segments, k + 1);
        let longer = segments.subrange(0, k + 1);
        assert(longer.drop_last() =~= segments.subrange(0, k));
    }
}

} // verus!
