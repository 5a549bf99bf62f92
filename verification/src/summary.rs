//! Aggregation over the finished batch.
//!
//! A pure pass over the processed entries: total count, byte sums before
//! and after the actions, and success/failure counts broken down by
//! action kind. Successes and failures partition the batch exactly.

use vstd::prelude::*;
use crate::entry::FileEntry;

verus! {

/// The aggregate over a finished batch.
pub struct Summary {
    pub total: usize,
    pub success_count: usize,
    pub copy_success: usize,
    pub copy_fail: usize,
    pub reencode_success: usize,
    pub reencode_fail: usize,
    pub len_sum: u128,
    pub len_sum_after: u128,
}

/// How many entries of `s` satisfy `p`.
pub open spec fn count_where(s: Seq<FileEntry>, p: spec_fn(FileEntry) -> bool) -> int
    decreases s.len(),
{
    if s.len() == 0 {
        0
    } else {
        count_where(s.drop_last(), p) + (if p(s.last()) {
            1int
        } else {
            0int
        })
    }
}

/// Entries processed successfully.
pub open spec fn success_count_of(s: Seq<FileEntry>) -> int {
    count_where(s, |e: FileEntry| e.success)
}

/// Copy entries processed successfully.
pub open spec fn copy_success_of(s: Seq<FileEntry>) -> int {
    count_where(s, |e: FileEntry| !e.reencode && e.success)
}

/// Copy entries whose action failed.
pub open spec fn copy_fail_of(s: Seq<FileEntry>) -> int {
    count_where(s, |e: FileEntry| !e.reencode && !e.success)
}

/// Re-encode entries processed successfully.
pub open spec fn reencode_success_of(s: Seq<FileEntry>) -> int {
    count_where(s, |e: FileEntry| e.reencode && e.success)
}

/// Re-encode entries whose action failed.
pub open spec fn reencode_fail_of(s: Seq<FileEntry>) -> int {
    count_where(s, |e: FileEntry| e.reencode && !e.success)
}

/// Total source bytes across the batch.
pub open spec fn sum_len(s: Seq<FileEntry>) -> int
    decreases s.len(),
{
    if s.len() == 0 {
        0
    } else {
        sum_len(s.drop_last()) + s.last().len
    }
}

/// Total result bytes across the batch (0 for failed entries).
pub open spec fn sum_len_after(s: Seq<FileEntry>) -> int
    decreases s.len(),
{
    if s.len() == 0 {
        0
    } else {
        sum_len_after(s.drop_last()) + s.last().len_after_action
    }
}

proof fn lemma_count_where_bounds(s: Seq<FileEntry>, p: spec_fn(FileEntry) -> bool)
    ensures
        0 <= count_where(s, p) <= s.len(),
    decreases s.len(),
{
    if s.len() > 0 {
        lemma_count_where_bounds(s.drop_last(), p);
    }
}

proof fn lemma_sum_len_bounds(s: Seq<FileEntry>)
    ensures
        0 <= sum_len(s) <= s.len() * 0xffff_ffff_ffff_ffff,
        0 <= sum_len_after(s) <= s.len() * 0xffff_ffff_ffff_ffff,
    decreases s.len(),
{
    if s.len() > 0 {
        lemma_sum_len_bounds(s.drop_last());
    }
}

/// Law: the successes split exactly into copy successes and re-encode
/// successes, and successes and failures together account for every
/// entry of the batch.
pub proof fn lemma_summary_totals(s: Seq<FileEntry>)
    ensures
        success_count_of(s) == copy_success_of(s) + reencode_success_of(s),
        copy_success_of(s) + reencode_success_of(s) + copy_fail_of(s) + reencode_fail_of(s)
            == s.len(),
    decreases s.len(),
{
    if s.len() > 0 {
        lemma_summary_totals(s.drop_last());
    }
}

/// Aggregates the finished entries: every field of the summary equals
/// its mathematical counterpart over the entry sequence.
pub fn summarize(entries: &Vec<FileEntry>) -> (r: Summary)
    ensures
        r.total == entries@.len(),
        r.success_count == success_count_of(entries@),
        r.copy_success == copy_success_of(entries@),
        r.copy_fail == copy_fail_of(entries@),
        r.reencode_success == reencode_success_of(entries@),
        r.reencode_fail == reencode_fail_of(entries@),
        r.len_sum == sum_len(entries@),
        r.len_sum_after == sum_len_after(entries@),
{
    let total = entries.len();
    let mut success_count: usize = 0;
    let mut copy_success: usize = 0;
    let mut copy_fail: usize = 0;
    let mut reencode_success: usize = 0;
    let mut reencode_fail: usize = 0;
    let mut len_sum: u128 = 0;
    let mut len_sum_after: u128 = 0;
    let mut i: usize = 0;
    proof {
        assert(entries@.subrange(0, 0) =~= Seq::<FileEntry>::empty());
    }
    while i < total
        invariant
            i <= total,
            total == entries@.len(),
            success_count == success_count_of(entries@.subrange(0, i as int)),
            copy_success == copy_success_of(entries@.subrange(0, i as int)),
            copy_fail == copy_fail_of(entries@.subrange(0, i as int)),
            reencode_success == reencode_success_of(entries@.subrange(0, i as int)),
            reencode_fail == reencode_fail_of(entries@.subrange(0, i as int)),
            len_sum == sum_len(entries@.subrange(0, i as int)),
            len_sum_after == sum_len_after(entries@.subrange(0, i as int)),
        decreases total - i,
    {
        let ghost prefix = entries@.subrange(0, i as int);
        let ghost extended = entries@.subrange(0, i + 1);
        proof {
            assert(extended.drop_last() =~= prefix);
            lemma_count_where_bounds(prefix, |e: FileEntry| e.success);
            lemma_count_where_bounds(prefix, |e: FileEntry| !e.reencode && e.success);
            lemma_count_where_bounds(prefix, |e: FileEntry| !e.reencode && !e.success);
            lemma_count_where_bounds(prefix, |e: FileEntry| e.reencode && e.success);
            lemma_count_where_bounds(prefix, |e: FileEntry| e.reencode && !e.success);
            lemma_sum_len_bounds(prefix);
            assert(prefix.len() * 0xffff_ffff_ffff_ffff <= 0xffff_ffff_ffff_ffff
                * 0xffff_ffff_ffff_ffff) by (nonlinear_arith)
                requires
                    prefix.len() <= 0xffff_ffff_ffff_ffff,
            ;
        }
        let e = &entries[i];
        if e.success {
            success_count = success_count + 1;
        }
        if !e.reencode && e.success {
            copy_success = copy_success + 1;
        }
        if !e.reencode && !e.success {
            copy_fail = copy_fail + 1;
        }
        if e.reencode && e.success {
            reencode_success = reencode_success + 1;
        }
        if e.reencode && !e.success {
            reencode_fail = reencode_fail + 1;
        }
        len_sum = len_sum + e.len as u128;
        len_sum_after = len_sum_after + e.len_after_action as u128;
        i = i + 1;
    }
    proof {
        assert(entries@.subrange(0, total as int) =~= entries@);
    }
    Summary {
        total,
        success_count,
        copy_success,
        copy_fail,
        reencode_success,
        reencode_fail,
        len_sum,
        len_sum_after,
    }
}

} // verus!
