//! The data model of a run: grid dimensions, the statistical weight, and
//! the `Results` aggregate that owns the main file, the resolved shard
//! list and the summed particle-count matrix.

use vstd::prelude::*;

use crate::error::ApiError;
use crate::grid::Grid;
use crate::main_file::MainResult;
use crate::naming::{shard_file_list, shard_file_path_spec};
use crate::sums::{col_sum, lemma_col_sum_take_le, seq_sum};
use crate::tallies::Tallies;
use crate::text::contains_name;

verus! {

/// The grid dimension pair `(n_compartments, n_species)`, as declared by the
/// second and third axes of the liquid-concentration dataset.
#[derive(Debug, Clone, Copy, PartialEq, Eq, Structural)]
pub struct Dim(pub usize, pub usize);

/// The statistical weight model of a run: one global weight, or one weight
/// per particle. The weight values are opaque 64-bit sample words.
#[derive(Debug, Clone)]
pub enum Weight {
    /// One global statistical weight.
    Single(u64),
    /// One weight per particle; when used, its length must equal the length
    /// of the property array being estimated.
    Multiple(Vec<u64>),
}

impl Weight {
    /// Whether this weight model may be applied to a property array of
    /// length `n`.
    pub open spec fn fits(&self, n: int) -> bool {
        match self {
            Weight::Single(_) => true,
            Weight::Multiple(w) => w@.len() == n,
        }
    }

    /// Checks this weight model against a property array of length `n`:
    /// a per-particle weight vector must match the array exactly.
    pub fn check_len(&self, n: usize) -> (r: Result<(), ApiError>)
        ensures
            r is Ok <==> self.fits(n as int),
            r is Err ==> r == Err::<(), ApiError>(ApiError::ShapeError),
    {
        match self {
            Weight::Single(_) => Ok(()),
            Weight::Multiple(w) => {
                if w.len() == n {
                    Ok(())
                } else {
                    Err(ApiError::ShapeError)
                }
            },
        }
    }
}

/// Adds one shard's counter series to the running totals, cell by cell.
/// A series of the wrong length is refused; a sum that no longer fits a
/// counter is reported rather than wrapped.
pub fn add_counts(acc: &Vec<u64>, xs: &Vec<u64>) -> (r: Result<Vec<u64>, ApiError>)
    ensures
        r is Ok <==> (xs@.len() == acc@.len() && forall|j: int|
            0 <= j < acc@.len() ==> acc@[j] + xs@[j] <= u64::MAX),
        r matches Ok(v) ==> v@.len() == acc@.len() && forall|j: int|
            0 <= j < acc@.len() ==> v@[j] == acc@[j] + xs@[j],
        xs@.len() != acc@.len() ==> r == Err::<Vec<u64>, ApiError>(ApiError::ShapeError),
        xs@.len() == acc@.len() && r is Err ==> r matches Err(ApiError::Default(_)),
{
    if xs.len() != acc.len() {
        return Err(ApiError::ShapeError);
    }
    let mut v: Vec<u64> = Vec::new();
    let mut j: usize = 0;
    while j < acc.len()
        invariant
            j <= acc@.len(),
            xs@.len() == acc@.len(),
            v@.len() == j,
            forall|i: int| 0 <= i < j ==> v@[i] == acc@[i] + xs@[i],
        decreases acc@.len() - j,
    {
        match acc[j].checked_add(xs[j]) {
            Some(sum) => v.push(sum),
            None => {
                return Err(ApiError::Default(String::from_str("particle count overflow")));
            },
        }
        j = j + 1;
    }
    proof {
        assert forall|i: int| 0 <= i < acc@.len() implies acc@[i] + xs@[i] <= u64::MAX by {
            assert(v@[i] == acc@[i] + xs@[i]);
        }
    }
    Ok(v)
}

/// The aggregate root of one run: the main result, the resolved shard file
/// list, the particle-count matrix summed across shards, and the property
/// names discovered in the first shard.
#[derive(Debug)]
pub struct Results {
    pub main: MainResult,
    pub files: Vec<String>,
    pub total_particle_repetition: Grid,
    pub property_name: Vec<String>,
}

impl Results {
    /// The shard list matches the declared rank count and is non-empty,
    /// and the count matrix has one row per time step and one column per
    /// compartment.
    pub open spec fn wf(&self) -> bool {
        &&& self.main.records.wf()
        &&& self.files@.len() == self.main.misc.n_rank
        &&& self.files@.len() >= 1
        &&& self.total_particle_repetition@.len() == self.main.records.spec_nt()
        &&& self.total_particle_repetition.spec_cols() == self.main.records.dim.0
    }

    /// Builds the aggregate: resolves the shard file list from the naming
    /// convention and sums the per-shard particle-count series into one
    /// `(nt, n_compartments)` matrix.
    ///
    /// Construction fails when the run declares no rank at all, when the
    /// series of some shard does not fill the `(nt, n_compartments)` shape
    /// exactly, or when a summed count overflows its counter.
    pub fn new(
        main: MainResult,
        root: &str,
        folder: &str,
        particle_series: Vec<Vec<u64>>,
        property_name: Vec<String>,
    ) -> (r: Result<Results, ApiError>)
        requires
            main.records.wf(),
        ensures
            r is Ok <==> {
                &&& 1 <= main.misc.n_rank <= usize::MAX
                &&& particle_series@.len() == main.misc.n_rank
                &&& forall|s: int|
                    0 <= s < particle_series@.len()
                        ==> (#[trigger] particle_series@[s])@.len() == main.records.spec_nt()
                        * main.records.dim.0
                &&& forall|j: int|
                    0 <= j < main.records.spec_nt() * main.records.dim.0 ==> #[trigger] col_sum(
                        particle_series.deep_view(),
                        j,
                    ) <= u64::MAX
            },
            r matches Ok(res) ==> {
                &&& res.wf()
                &&& res.main == main
                &&& res.property_name == property_name
                &&& forall|i: int|
                    0 <= i < res.files@.len() ==> (#[trigger] res.files@[i])@
                        == shard_file_path_spec(root@, folder@, i)
                &&& forall|t: int, c: int|
                    0 <= t < main.records.spec_nt() && 0 <= c < main.records.dim.0
                        ==> #[trigger] res.total_particle_repetition@[t][c] == col_sum(
                        particle_series.deep_view(),
                        t * main.records.dim.0 + c,
                    )
            },
            main.misc.n_rank == 0 ==> r matches Err(ApiError::Default(_)),
            1 <= main.misc.n_rank <= usize::MAX && particle_series@.len() != main.misc.n_rank
                ==> r == Err::<Results, ApiError>(ApiError::ShapeError),
            r is Err ==> (r == Err::<Results, ApiError>(ApiError::ShapeError) || r matches Err(
                ApiError::Default(_),
            )),
    {
        let n_rank = main.misc.n_rank;
        if n_rank == 0 {
            return Err(ApiError::Default(String::from_str("no shard to resolve")));
        }
        if n_rank > (usize::MAX as u64) {
            return Err(ApiError::Default(String::from_str("rank count not representable")));
        }
        let files = shard_file_list(root, folder, n_rank);
        if particle_series.len() != files.len() {
            return Err(ApiError::ShapeError);
        }
        let nt = main.records.time.len();
        let d0 = main.records.dim.0;
        let n_cells = main.records.volume_liquid.len();
        let ghost series = particle_series.deep_view();

        let mut total: Vec<u64> = Vec::new();
        let mut k: usize = 0;
        while k < n_cells
            invariant
                k <= n_cells,
                total@.len() == k,
                forall|j: int| 0 <= j < k ==> total@[j] == 0,
            decreases n_cells - k,
        {
            total.push(0);
            k = k + 1;
        }

        let mut s: usize = 0;
        proof {
            assert(series.take(0) =~= Seq::<Seq<u64>>::empty());
        }
        while s < particle_series.len()
            invariant
                s <= particle_series@.len(),
                1 <= main.misc.n_rank <= usize::MAX,
                particle_series@.len() == main.misc.n_rank,
                series == particle_series.deep_view(),
                total@.len() == n_cells,
                n_cells == main.records.spec_nt() * main.records.dim.0,
                forall|j: int| 0 <= j < n_cells ==> total@[j] == col_sum(series.take(s as int), j),
                forall|i: int|
                    0 <= i < s ==> (#[trigger] series[i]).len() == main.records.spec_nt()
                        * main.records.dim.0,
            decreases particle_series@.len() - s,
        {
            proof {
                assert(series.take(s + 1).drop_last() =~= series.take(s as int));
                assert(series.take(s + 1).last() == series[s as int]);
                assert(particle_series@[s as int]@ =~= series[s as int]);
            }
            match add_counts(&total, &particle_series[s]) {
                Ok(v) => {
                    proof {
                        assert forall|j: int|
                            0 <= j < n_cells implies v@[j] == col_sum(
                            series.take(s + 1),
                            j,
                        ) by {
                            assert(v@[j] == total@[j] + series[s as int][j]);
                        }
                    }
                    total = v;
                },
                Err(e) => {
                    proof {
                        if series[s as int].len() == n_cells {
                            let bad = choose|j: int|
                                0 <= j < n_cells && total@[j] + series[s as int][j] > u64::MAX;
                            lemma_col_sum_take_le(series, s + 1, bad);
                        }
                    }
                    return Err(e);
                },
            }
            s = s + 1;
        }
        proof {
            assert(series.take(particle_series@.len() as int) =~= series);
            assert forall|j: int| 0 <= j < n_cells implies col_sum(series, j) <= u64::MAX by {
                assert(total@[j] == col_sum(series, j));
            }
            assert forall|i: int|
                0 <= i < particle_series@.len() implies (#[trigger] particle_series@[i])@.len()
                == main.records.spec_nt() * main.records.dim.0 by {
                assert(particle_series@[i]@ =~= series[i]);
            }
        }
        match Grid::from_flat(total, nt, d0) {
            Ok(grid) => {
                proof {
                    assert forall|t: int, c: int|
                        0 <= t < main.records.spec_nt() && 0 <= c < main.records.dim.0 implies #[trigger] grid@[t][c]
                        == col_sum(series, t * main.records.dim.0 + c) by {
                        crate::grid::lemma_row_major_in_bounds(
                            main.records.spec_nt(),
                            main.records.dim.0 as int,
                            t,
                            c,
                        );
                    }
                }
                Ok(
                    Results {
                        main,
                        files,
                        total_particle_repetition: grid,
                        property_name,
                    },
                )
            },
            Err(_) => {
                proof {
                    assert(false);
                }
                Err(ApiError::ShapeError)
            },
        }
    }

    /// The resolved shard file list.
    pub fn get_files(&self) -> (r: &Vec<String>)
        ensures
            r == &self.files,
    {
        &self.files
    }

    /// The total number of export steps of the run.
    pub fn n_export(&self) -> (r: usize)
        ensures
            r == self.main.records.spec_nt(),
    {
        self.main.records.time.len()
    }

    /// The statistical weight model of the run.
    pub fn weight(&self) -> (r: &Weight)
        ensures
            r == &self.main.weight,
    {
        &self.main.weight
    }

    /// The event tallies of the run, when the main file recorded them.
    pub fn tallies(&self) -> (r: Option<&Tallies>)
        ensures
            r is Some <==> self.main.records.tallies is Some,
            r matches Some(t) ==> self.main.records.tallies matches Some(u) && t.0@ == u.0@,
    {
        self.main.records.tallies.as_ref()
    }

    /// A copy of the discovered property names.
    pub fn get_property_names(&self) -> (r: Vec<String>)
        ensures
            r@.len() == self.property_name@.len(),
            forall|i: int|
                0 <= i < r@.len() ==> (#[trigger] r@[i])@ == self.property_name@[i]@,
    {
        let mut r: Vec<String> = Vec::new();
        let mut k: usize = 0;
        while k < self.property_name.len()
            invariant
                k <= self.property_name@.len(),
                r@.len() == k,
                forall|i: int|
                    0 <= i < k ==> (#[trigger] r@[i])@ == self.property_name@[i]@,
            decreases self.property_name@.len() - k,
        {
            r.push(String::from_str(self.property_name[k].as_str()));
            k = k + 1;
        }
        r
    }

    /// The summed particle-count matrix, one row per time step and one
    /// column per compartment.
    pub fn get_number_particle(&self) -> (r: &Grid)
        ensures
            r == &self.total_particle_repetition,
    {
        &self.total_particle_repetition
    }

    /// The growth in number: for each time step, the particle count summed
    /// over the compartments, widened so that the sum cannot overflow.
    pub fn get_growth_in_number(&self) -> (r: Vec<u128>)
        ensures
            r@.len() == self.total_particle_repetition@.len(),
            forall|t: int|
                0 <= t < r@.len() ==> #[trigger] r@[t] == seq_sum(
                    self.total_particle_repetition@[t],
                ),
    {
        self.total_particle_repetition.row_sums()
    }

    /// Validates a `(property, export step)` query — a property read, a
    /// population mean or a histogram — before any shard is read: the
    /// export index is checked against the global number of time steps
    /// first, then the key against the discovered property names. An index
    /// past the available steps is out of range, an undiscovered key a key
    /// error, each if and only if.
    pub fn property_query_guard(&self, key: &str, i_export: usize) -> (r: Result<(), ApiError>)
        ensures
            r is Ok <==> (i_export < self.main.records.spec_nt() && exists|i: int|
                0 <= i < self.property_name@.len() && (#[trigger] self.property_name@[i])@
                    == key@),
            i_export >= self.main.records.spec_nt() ==> r == Err::<(), ApiError>(
                ApiError::OutOfRange(i_export, self.main.records.time@.len() as usize),
            ),
            i_export < self.main.records.spec_nt() && r is Err ==> (r matches Err(
                ApiError::KeyError(k),
            ) && k@ == key@),
    {
        let nt = self.main.records.time.len();
        if i_export >= nt {
            return Err(ApiError::OutOfRange(i_export, nt));
        }
        if !contains_name(&self.property_name, key) {
            return Err(ApiError::KeyError(String::from_str(key)));
        }
        Ok(())
    }

    /// Validates a key-only query against the discovered property names.
    pub fn key_guard(&self, key: &str) -> (r: Result<(), ApiError>)
        ensures
            r is Ok <==> exists|i: int|
                0 <= i < self.property_name@.len() && (#[trigger] self.property_name@[i])@
                    == key@,
            r matches Err(e) ==> e matches ApiError::KeyError(k) && k@ == key@,
    {
        if !contains_name(&self.property_name, key) {
            return Err(ApiError::KeyError(String::from_str(key)));
        }
        Ok(())
    }
}

} // verus!
