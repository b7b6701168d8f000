//! Byte-budget accounting for backfill continuation runs.
//!
//! A backfill continuation consumes by-id ordered documents at a fixed
//! snapshot. To bound one run, a running total of estimated document sizes is
//! kept: a document is folded into the segment only while the total stays
//! within the per-run byte budget; the first document that would push the
//! total over the budget ends the run without being consumed, and the cursor
//! then points at the last document that was consumed.

use vstd::prelude::*;

use crate::state::MultiSegmentBackfillResult;

verus! {

/// One streamed document, reduced to what the budget accounting reads: its
/// id in the by-id order and its estimated size in bytes.
#[derive(Clone, Copy, Debug, PartialEq, Eq, Structural)]
pub struct DocumentSummary {
    pub id: u64,
    pub size: u64,
}

/// How many documents from the front of `docs` a run with the given byte
/// budget consumes: the longest prefix whose sizes add up to at most the
/// budget.
pub open spec fn count_within(docs: Seq<DocumentSummary>, budget: int) -> nat
    decreases docs.len(),
{
    if docs.len() == 0 {
        0
    } else if docs[0].size <= budget {
        1 + count_within(docs.drop_first(), budget - docs[0].size)
    } else {
        0
    }
}

/// The added-up estimated sizes of a document sequence.
pub open spec fn sizes_total(docs: Seq<DocumentSummary>) -> int
    decreases docs.len(),
{
    if docs.len() == 0 {
        0
    } else {
        docs[0].size + sizes_total(docs.drop_first())
    }
}

/// The documents one run consumes: the budgeted prefix.
pub open spec fn yielded_docs(docs: Seq<DocumentSummary>, threshold: u64) -> Seq<DocumentSummary> {
    docs.take(count_within(docs, threshold as int) as int)
}

/// Appending a document adds its size to the total.
proof fn lemma_sizes_total_push(docs: Seq<DocumentSummary>, x: DocumentSummary)
    ensures
        sizes_total(docs.push(x)) == sizes_total(docs) + x.size,
    decreases docs.len(),
{
    reveal_with_fuel(sizes_total, 2);
    if docs.len() == 0 {
        assert(docs.push(x)[0] == x);
        assert(docs.push(x).drop_first() =~= Seq::<DocumentSummary>::empty());
    } else {
        assert(docs.push(x)[0] == docs[0]);
        assert(docs.push(x).drop_first() =~= docs.drop_first().push(x));
        lemma_sizes_total_push(docs.drop_first(), x);
    }
}

/// The budgeted prefix respects the budget, never reaches past the end, and
/// ends exactly where one more document would overrun the budget.
pub proof fn lemma_count_within_budget(docs: Seq<DocumentSummary>, budget: int)
    requires
        budget >= 0,
    ensures
        count_within(docs, budget) <= docs.len(),
        sizes_total(docs.take(count_within(docs, budget) as int)) <= budget,
        count_within(docs, budget) < docs.len() ==> sizes_total(
            docs.take(count_within(docs, budget) as int),
        ) + docs[count_within(docs, budget) as int].size > budget,
    decreases docs.len(),
{
    if docs.len() == 0 {
    } else if docs[0].size <= budget {
        let rest = docs.drop_first();
        lemma_count_within_budget(rest, budget - docs[0].size);
        let c = count_within(rest, budget - docs[0].size);
        assert(docs.take(1 + c as int).drop_first() =~= rest.take(c as int));
        assert(docs.take(1 + c as int)[0] == docs[0]);
        if 1 + c < docs.len() {
            assert(docs[1 + c as int] == rest[c as int]);
        }
    } else {
        assert(docs.take(0) =~= Seq::<DocumentSummary>::empty());
    }
}

/// Backfill cursor monotonicity: when every streamed document lies strictly
/// after the input cursor in the by-id order — which the scan guarantees by
/// starting strictly after it — and the run consumed at least one document,
/// the new cursor is strictly greater than the input cursor.
pub proof fn lemma_backfill_cursor_monotone(
    docs: Seq<DocumentSummary>,
    threshold: u64,
    cursor: u64,
)
    requires
        forall|i: int| 0 <= i < docs.len() ==> docs[i].id > cursor,
        count_within(docs, threshold as int) >= 1,
    ensures
        docs[count_within(docs, threshold as int) - 1].id > cursor,
{
    lemma_count_within_budget(docs, threshold as int);
}

/// Byte-budget respect: the sizes of the documents one run consumes add up
/// to at most the budget; and when the run stopped early, the first document
/// it left out would have pushed the total strictly over the budget.
pub proof fn lemma_byte_budget_respected(docs: Seq<DocumentSummary>, threshold: u64)
    ensures
        sizes_total(yielded_docs(docs, threshold)) <= threshold,
        count_within(docs, threshold as int) < docs.len() ==> sizes_total(
            yielded_docs(docs, threshold),
        ) + docs[count_within(docs, threshold as int) as int].size > threshold,
{
    lemma_count_within_budget(docs, threshold as int);
}

/// The running budget state of one backfill continuation, updated once per
/// streamed document.
pub struct BackfillPager {
    /// Added-up estimated sizes of the documents consumed so far.
    pub total_size: u64,
    /// Id of the last consumed document, if any.
    pub new_cursor: Option<u64>,
    /// Still true while the budget has not been overrun; false ends the run.
    pub is_backfill_complete: bool,
}

impl BackfillPager {
    /// A fresh pager: nothing consumed, no cursor, run still open.
    pub fn new() -> (r: BackfillPager)
        ensures
            r.total_size == 0,
            r.new_cursor is None,
            r.is_backfill_complete,
    {
        BackfillPager { total_size: 0, new_cursor: None, is_backfill_complete: true }
    }

    /// Accounts for the next streamed document and says whether it is
    /// consumed. While the run is open, a document that keeps the total
    /// within the budget is consumed and becomes the cursor; one that would
    /// push the total over the budget is not consumed and closes the run,
    /// leaving total and cursor untouched. A closed run consumes nothing
    /// more.
    pub fn observe(&mut self, id: u64, size: u64, threshold: u64) -> (consumed: bool)
        ensures
            !old(self).is_backfill_complete ==> *final(self) == *old(self) && !consumed,
            old(self).is_backfill_complete && old(self).total_size + size <= threshold
                ==> consumed
                    && final(self).total_size == old(self).total_size + size
                    && final(self).new_cursor == Some(id)
                    && final(self).is_backfill_complete,
            old(self).is_backfill_complete && old(self).total_size + size > threshold
                ==> !consumed
                    && final(self).total_size == old(self).total_size
                    && final(self).new_cursor == old(self).new_cursor
                    && !final(self).is_backfill_complete,
    {
        if !self.is_backfill_complete {
            return false;
        }
        if size <= u64::MAX - self.total_size && self.total_size + size <= threshold {
            self.total_size = self.total_size + size;
            self.new_cursor = Some(id);
            true
        } else {
            self.is_backfill_complete = false;
            false
        }
    }

    /// The progress report of the run in its current state.
    pub fn result(&self) -> (r: MultiSegmentBackfillResult)
        ensures
            r.new_cursor == self.new_cursor,
            r.is_backfill_complete == self.is_backfill_complete,
    {
        MultiSegmentBackfillResult {
            new_cursor: self.new_cursor,
            is_backfill_complete: self.is_backfill_complete,
        }
    }
}

/// Runs the budget accounting over a whole document list at once: consumes
/// the budgeted prefix and reports how many documents were consumed, the new
/// cursor — the id of the last consumed document — and whether the list was
/// drained without overrunning the budget.
#[verifier::loop_isolation(false)]
pub fn select_incremental_page(docs: &Vec<DocumentSummary>, threshold: u64) -> (r: (
    MultiSegmentBackfillResult,
    usize,
))
    ensures
        r.1 == count_within(docs@, threshold as int),
        r.0.is_backfill_complete <==> count_within(docs@, threshold as int) == docs@.len(),
        r.0.new_cursor == if count_within(docs@, threshold as int) > 0 {
            Some(docs@[count_within(docs@, threshold as int) - 1].id)
        } else {
            None::<u64>
        },
{
    let mut pager = BackfillPager::new();
    let mut i: usize = 0;
    proof {
        lemma_count_within_budget(docs@, threshold as int);
        assert(docs@.skip(0) =~= docs@);
        assert(docs@.take(0) =~= Seq::<DocumentSummary>::empty());
    }
    while i < docs.len()
        invariant
            0 <= i <= docs@.len(),
            pager.is_backfill_complete,
            pager.total_size == sizes_total(docs@.take(i as int)),
            pager.total_size <= threshold,
            count_within(docs@, threshold as int) == i + count_within(
                docs@.skip(i as int),
                threshold - pager.total_size,
            ),
            pager.new_cursor == if i > 0 {
                Some(docs@[i - 1].id)
            } else {
                None::<u64>
            },
        decreases docs@.len() - i,
    {
        let doc = docs[i];
        let ghost rest = docs@.skip(i as int);
        proof {
            assert(rest[0] == docs@[i as int]);
            assert(rest.drop_first() =~= docs@.skip(i + 1 as int));
            assert(docs@.take(i + 1 as int) =~= docs@.take(i as int).push(docs@[i as int]));
            lemma_sizes_total_push(docs@.take(i as int), docs@[i as int]);
        }
        let consumed = pager.observe(doc.id, doc.size, threshold);
        if !consumed {
            proof {
                assert(count_within(rest, threshold - sizes_total(docs@.take(i as int))) == 0);
            }
            return (pager.result(), i);
        }
        i = i + 1;
    }
    proof {
        assert(docs@.skip(docs@.len() as int) =~= Seq::<DocumentSummary>::empty());
        assert(count_within(docs@, threshold as int) == docs@.len());
    }
    (pager.result(), i)
}

} // verus!
