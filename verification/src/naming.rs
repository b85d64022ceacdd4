//! The file- and dataset-naming convention of a simulation run.
//!
//! A run named `folder` under directory `root` consists of one main file and
//! one partial file per compute rank; per-particle properties live under the
//! `biological_model` group of each partial file. Everything here is pure
//! path construction: no I/O is performed.

use vstd::prelude::*;

use crate::text::{dec_digits, u64_to_dec};

verus! {

/// The main result file of a run: `{root}/{folder}/{folder}.h5`.
pub open spec fn main_file_path_spec(root: Seq<char>, folder: Seq<char>) -> Seq<char> {
    root + "/"@ + folder + "/"@ + folder + ".h5"@
}

/// The partial result file of rank `i`: `{root}/{folder}/{folder}_partial_{i}.h5`.
pub open spec fn shard_file_path_spec(root: Seq<char>, folder: Seq<char>, i: int) -> Seq<char> {
    root + "/"@ + folder + "/"@ + folder + "_partial_"@ + dec_digits(i) + ".h5"@
}

/// The dataset holding property `key` of export step `i` inside a shard's
/// `biological_model` group: `{i}/{key}`.
pub open spec fn property_dataset_path_spec(i: int, key: Seq<char>) -> Seq<char> {
    dec_digits(i) + "/"@ + key
}

/// The per-compartment spatial dataset of property `key` at export step `i`
/// inside a shard's `biological_model` group: `{i}/spatial/{key}`.
pub open spec fn spatial_dataset_path_spec(i: int, key: Seq<char>) -> Seq<char> {
    dec_digits(i) + "/spatial/"@ + key
}

/// Builds the path of the run's main result file.
pub fn main_file_path(root: &str, folder: &str) -> (r: String)
    ensures
        r@ == main_file_path_spec(root@, folder@),
{
    let mut s = String::from_str(root);
    s.append("/");
    s.append(folder);
    s.append("/");
    s.append(folder);
    s.append(".h5");
    proof {
        assert(s@ =~= main_file_path_spec(root@, folder@));
    }
    s
}

/// Builds the path of rank `i`'s partial result file.
pub fn shard_file_path(root: &str, folder: &str, i: u64) -> (r: String)
    ensures
        r@ == shard_file_path_spec(root@, folder@, i as int),
{
    let mut s = String::from_str(root);
    s.append("/");
    s.append(folder);
    s.append("/");
    s.append(folder);
    s.append("_partial_");
    let d = u64_to_dec(i);
    s.append(d.as_str());
    s.append(".h5");
    proof {
        assert(s@ =~= shard_file_path_spec(root@, folder@, i as int));
    }
    s
}

/// Builds the ordered shard file list of a run, one entry per rank.
pub fn shard_file_list(root: &str, folder: &str, n_rank: u64) -> (r: Vec<String>)
    requires
        n_rank <= usize::MAX,
    ensures
        r@.len() == n_rank,
        forall|i: int|
            0 <= i < n_rank ==> #[trigger] r@[i]@ == shard_file_path_spec(root@, folder@, i),
{
    let mut r: Vec<String> = Vec::new();
    let mut i: u64 = 0;
    while i < n_rank
        invariant
            i <= n_rank,
            r@.len() == i,
            forall|j: int|
                0 <= j < i ==> #[trigger] r@[j]@ == shard_file_path_spec(root@, folder@, j),
        decreases n_rank - i,
    {
        r.push(shard_file_path(root, folder, i));
        i = i + 1;
    }
    r
}

/// Builds the dataset path of property `key` at export step `i`, relative to
/// a shard's `biological_model` group.
pub fn property_dataset_path(i: usize, key: &str) -> (r: String)
    ensures
        r@ == property_dataset_path_spec(i as int, key@),
{
    let mut s = u64_to_dec(i as u64);
    s.append("/");
    s.append(key);
    proof {
        assert(s@ =~= property_dataset_path_spec(i as int, key@));
    }
    s
}

/// Builds the spatial dataset path of property `key` at export step `i`,
/// relative to a shard's `biological_model` group.
pub fn spatial_dataset_path(i: usize, key: &str) -> (r: String)
    ensures
        r@ == spatial_dataset_path_spec(i as int, key@),
{
    let mut s = u64_to_dec(i as u64);
    s.append("/spatial/");
    s.append(key);
    proof {
        assert(s@ =~= spatial_dataset_path_spec(i as int, key@));
    }
    s
}

} // verus!
