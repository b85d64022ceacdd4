//! Sums of counter sequences, and the little algebra of them that the
//! aggregation proofs use.

use vstd::prelude::*;

verus! {

/// The sum of a sequence of counters.
pub open spec fn seq_sum(s: Seq<u64>) -> int
    decreases s.len(),
{
    if s.len() == 0 {
        0
    } else {
        seq_sum(s.drop_last()) + s.last()
    }
}

pub proof fn lemma_seq_sum_push(s: Seq<u64>, x: u64)
    ensures
        seq_sum(s.push(x)) == seq_sum(s) + x,
{
    assert(s.push(x).drop_last() =~= s);
}

pub proof fn lemma_seq_sum_nonneg(s: Seq<u64>)
    ensures
        seq_sum(s) >= 0,
    decreases s.len(),
{
    if s.len() > 0 {
        lemma_seq_sum_nonneg(s.drop_last());
    }
}

pub proof fn lemma_seq_sum_update(s: Seq<u64>, j: int, v: u64)
    requires
        0 <= j < s.len(),
    ensures
        seq_sum(s.update(j, v)) == seq_sum(s) - s[j] + v,
    decreases s.len(),
{
    if j == s.len() - 1 {
        assert(s.update(j, v).drop_last() =~= s.drop_last());
    } else {
        assert(s.update(j, v).drop_last() =~= s.drop_last().update(j, v));
        lemma_seq_sum_update(s.drop_last(), j, v);
    }
}

/// Every single counter is bounded by the sum of all of them.
pub proof fn lemma_seq_sum_bounds_element(s: Seq<u64>, j: int)
    requires
        0 <= j < s.len(),
    ensures
        s[j] <= seq_sum(s),
    decreases s.len(),
{
    if j == s.len() - 1 {
        lemma_seq_sum_nonneg(s.drop_last());
    } else {
        lemma_seq_sum_bounds_element(s.drop_last(), j);
    }
}

/// The sum, over a sequence of per-shard series, of entry `j` of each
/// series.
pub open spec fn col_sum(series: Seq<Seq<u64>>, j: int) -> int
    decreases series.len(),
{
    if series.len() == 0 {
        0
    } else {
        col_sum(series.drop_last(), j) + series.last()[j]
    }
}

/// A prefix of the shards contributes no more than all of them.
pub proof fn lemma_col_sum_take_le(series: Seq<Seq<u64>>, s: int, j: int)
    requires
        0 <= s <= series.len(),
    ensures
        col_sum(series.take(s), j) <= col_sum(series, j),
    decreases series.len() - s,
{
    if s == series.len() {
        assert(series.take(s) =~= series);
    } else {
        lemma_col_sum_take_le(series, s + 1, j);
        assert(series.take(s + 1).drop_last() =~= series.take(s));
        assert(series.take(s + 1).last() == series[s]);
    }
}

/// Computes the sum of a counter vector exactly, in a type wide enough
/// never to overflow.
pub fn counter_total(s: &Vec<u64>) -> (r: u128)
    ensures
        r == seq_sum(s@),
{
    let mut r: u128 = 0;
    let mut k: usize = 0;
    proof {
        assert(s@.subrange(0, 0) =~= Seq::<u64>::empty());
    }
    while k < s.len()
        invariant
            k <= s@.len(),
            r == seq_sum(s@.subrange(0, k as int)),
            r <= k * 0xffff_ffff_ffff_ffffu64,
        decreases s@.len() - k,
    {
        proof {
            assert(s@.subrange(0, k + 1).drop_last() =~= s@.subrange(0, k as int));
            assert(s@.subrange(0, k + 1).last() == s@[k as int]);
        }
        r = r + s[k] as u128;
        k = k + 1;
    }
    proof {
        assert(s@.subrange(0, s@.len() as int) =~= s@);
    }
    r
}

} // verus!
