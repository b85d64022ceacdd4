//! The property reader's merge semantics.
//!
//! A per-particle property at one export step is read shard by shard; a
//! shard whose number of recorded export groups is too small contributes
//! nothing, silently, and the contributions of the others are concatenated
//! in shard order with no padding or normalization.

use vstd::prelude::*;

verus! {

/// Whether a shard with `n_groups` recorded export groups contributes to a
/// read of export step `i_export`.
pub open spec fn spec_shard_contributes(n_groups: int, i_export: int) -> bool {
    n_groups >= i_export
}

/// The silent-skip rule: a shard contributes to a read of export step
/// `i_export` exactly when its number of recorded export groups reaches it;
/// a shard that stopped exporting earlier is skipped, which is not an error.
pub fn shard_contributes(n_groups: usize, i_export: usize) -> (r: bool)
    ensures
        r == spec_shard_contributes(n_groups as int, i_export as int),
{
    n_groups >= i_export
}

/// The concatenation, in shard order, of the contributing shards' arrays;
/// an absent contribution adds nothing.
pub open spec fn merged_parts(parts: Seq<Option<Vec<u64>>>) -> Seq<u64>
    decreases parts.len(),
{
    if parts.len() == 0 {
        Seq::empty()
    } else {
        merged_parts(parts.drop_last()) + match parts.last() {
            Some(v) => v@,
            None => Seq::empty(),
        }
    }
}

/// The sum of the contributing shards' array lengths.
pub open spec fn contributed_len(parts: Seq<Option<Vec<u64>>>) -> int
    decreases parts.len(),
{
    if parts.len() == 0 {
        0
    } else {
        contributed_len(parts.drop_last()) + match parts.last() {
            Some(v) => v@.len() as int,
            None => 0,
        }
    }
}

/// A merged read is not padded or normalized to a fixed per-shard size:
/// its length is exactly the sum of the contributing shards' lengths.
pub proof fn lemma_merged_parts_len(parts: Seq<Option<Vec<u64>>>)
    ensures
        merged_parts(parts).len() == contributed_len(parts),
    decreases parts.len(),
{
    if parts.len() > 0 {
        lemma_merged_parts_len(parts.drop_last());
    }
}

/// Merges the per-shard contributions of one `(property, export step)`
/// read: contributing shards' arrays are appended in shard order, absent
/// contributions are skipped, and the result has exactly the sum of the
/// contributing lengths.
pub fn merge_property_parts(parts: &Vec<Option<Vec<u64>>>) -> (r: Vec<u64>)
    ensures
        r@ == merged_parts(parts@),
{
    let mut r: Vec<u64> = Vec::new();
    let mut s: usize = 0;
    proof {
        assert(parts@.take(0) =~= Seq::<Option<Vec<u64>>>::empty());
    }
    while s < parts.len()
        invariant
            s <= parts@.len(),
            r@ == merged_parts(parts@.take(s as int)),
        decreases parts@.len() - s,
    {
        proof {
            assert(parts@.take(s + 1).drop_last() =~= parts@.take(s as int));
            assert(parts@.take(s + 1).last() == parts@[s as int]);
        }
        match &parts[s] {
            Some(v) => {
                let mut k: usize = 0;
                let ghost r_before = r@;
                while k < v.len()
                    invariant
                        k <= v@.len(),
                        r@ == r_before + v@.take(k as int),
                    decreases v@.len() - k,
                {
                    proof {
                        assert(v@.take(k + 1) =~= v@.take(k as int).push(v@[k as int]));
                    }
                    r.push(v[k]);
                    k = k + 1;
                }
                proof {
                    assert(v@.take(v@.len() as int) =~= v@);
                }
            },
            None => {
                proof {
                    assert(r@ =~= r@ + Seq::<u64>::empty());
                }
            },
        }
        s = s + 1;
    }
    proof {
        assert(parts@.take(parts@.len() as int) =~= parts@);
    }
    r
}

/// The rows that enter a spatial accumulation at one export step: the
/// contributions, in shard order, whose dataset exists and whose width is
/// the compartment count `d0`.
pub open spec fn accepted_rows(parts: Seq<Option<Vec<u64>>>, d0: int) -> Seq<Seq<u64>>
    decreases parts.len(),
{
    if parts.len() == 0 {
        Seq::empty()
    } else {
        accepted_rows(parts.drop_last(), d0) + match parts.last() {
            Some(v) => if v@.len() == d0 {
                seq![v@]
            } else {
                Seq::empty()
            },
            None => Seq::empty(),
        }
    }
}

/// The shape gate of the spatial accumulation: at one export step, a
/// shard's per-compartment row enters the sum exactly when its dataset
/// exists and fills the compartment count; a missing dataset or a row of
/// the wrong width contributes nothing, silently, and the accepted rows
/// keep their shard order.
pub fn accepted_spatial_rows(parts: &Vec<Option<Vec<u64>>>, n_compartments: usize) -> (r: Vec<
    Vec<u64>,
>)
    ensures
        r.deep_view() == accepted_rows(parts@, n_compartments as int),
{
    let mut r: Vec<Vec<u64>> = Vec::new();
    let mut s: usize = 0;
    proof {
        assert(parts@.take(0) =~= Seq::<Option<Vec<u64>>>::empty());
        assert(r.deep_view() =~~= accepted_rows(parts@.take(0), n_compartments as int));
    }
    while s < parts.len()
        invariant
            s <= parts@.len(),
            r.deep_view() == accepted_rows(parts@.take(s as int), n_compartments as int),
        decreases parts@.len() - s,
    {
        proof {
            assert(parts@.take(s + 1).drop_last() =~= parts@.take(s as int));
            assert(parts@.take(s + 1).last() == parts@[s as int]);
        }
        let ghost r_before = r.deep_view();
        match &parts[s] {
            Some(v) if v.len() == n_compartments => {
                r.push(crate::grid::copy_words(v));
                proof {
                    assert(r.deep_view() =~~= r_before.push(parts@[s as int]->0@));
                }
            },
            _ => {
                proof {
                    assert(r_before =~~= r_before + Seq::<Seq<u64>>::empty());
                }
            },
        }
        s = s + 1;
    }
    proof {
        assert(parts@.take(parts@.len() as int) =~= parts@);
    }
    r
}

/// The smallest number of discoverable export groups across the shards:
/// the bound up to which a per-export population mean is defined.
pub fn min_group_count(sizes: &Vec<usize>) -> (r: usize)
    requires
        sizes@.len() >= 1,
    ensures
        forall|i: int| 0 <= i < sizes@.len() ==> r <= #[trigger] sizes@[i],
        exists|i: int| 0 <= i < sizes@.len() && r == sizes@[i],
{
    let mut r: usize = sizes[0];
    let mut k: usize = 1;
    while k < sizes.len()
        invariant
            1 <= k <= sizes@.len(),
            forall|i: int| 0 <= i < k ==> r <= #[trigger] sizes@[i],
            exists|i: int| 0 <= i < k && r == sizes@[i],
        decreases sizes@.len() - k,
    {
        if sizes[k] < r {
            r = sizes[k];
        }
        k = k + 1;
    }
    r
}

} // verus!
