//! Shape-checked containers for flat row-major data.
//!
//! The record file stores matrices and rank-3 tensors as flat arrays; these
//! types pair such an array with its declared shape, after checking that the
//! two agree, and give indexed access to the entries.

use vstd::prelude::*;

use crate::datamodel::Dim;
use crate::error::ApiError;
use crate::sums::{counter_total, seq_sum};

verus! {

/// Copies a flat array of 64-bit words.
pub fn copy_words(v: &Vec<u64>) -> (r: Vec<u64>)
    ensures
        r@ == v@,
{
    let mut r: Vec<u64> = Vec::new();
    let mut k: usize = 0;
    while k < v.len()
        invariant
            k <= v@.len(),
            r@.len() == k,
            forall|j: int| 0 <= j < k ==> #[trigger] r@[j] == v@[j],
        decreases v@.len() - k,
    {
        r.push(v[k]);
        k = k + 1;
    }
    proof {
        assert(r@ =~= v@);
    }
    r
}

/// Whether a flat array of length `len` fills a `(a, b)` shape exactly.
pub fn shape2_matches(len: usize, a: usize, b: usize) -> (r: bool)
    ensures
        r == (len == a * b),
{
    match a.checked_mul(b) {
        Some(n) => n == len,
        None => false,
    }
}

/// Whether a flat array of length `len` fills an `(a, b, c)` shape exactly.
pub fn shape3_matches(len: usize, a: usize, b: usize, c: usize) -> (r: bool)
    ensures
        r == (len == a * b * c),
{
    match a.checked_mul(b) {
        Some(p) => match p.checked_mul(c) {
            Some(n) => n == len,
            None => false,
        },
        None => {
            proof {
                lemma_product_overflow(a as int, b as int, c as int, len as int);
            }
            c == 0 && len == 0
        },
    }
}

/// A row-major matrix of counters with a checked shape.
///
/// Its view is the sequence of its rows.
#[derive(Debug)]
pub struct Grid {
    data: Vec<u64>,
    rows: usize,
    cols: usize,
}

impl View for Grid {
    type V = Seq<Seq<u64>>;

    closed spec fn view(&self) -> Seq<Seq<u64>> {
        Seq::new(
            self.rows as nat,
            |r: int| Seq::new(self.cols as nat, |c: int| self.data@[r * self.cols + c]),
        )
    }
}

pub proof fn lemma_row_major_in_bounds(rows: int, cols: int, r: int, c: int)
    by (nonlinear_arith)
    requires
        0 <= r < rows,
        0 <= c < cols,
    ensures
        0 <= r * cols + c < rows * cols,
        r * cols + c <= (rows - 1) * cols + c,
{
}

impl Grid {
    #[verifier::type_invariant]
    spec fn shape_inv(&self) -> bool {
        self.data@.len() == self.rows * self.cols && self.rows * self.cols <= usize::MAX
    }

    /// The number of columns of the matrix (its view loses it when the
    /// matrix has no rows).
    pub closed spec fn spec_cols(&self) -> int {
        self.cols as int
    }

    /// The flat row-major content of the matrix.
    pub closed spec fn flat(&self) -> Seq<u64> {
        self.data@
    }

    /// Wraps a flat row-major array of shape `(rows, cols)`.
    pub fn from_flat(data: Vec<u64>, rows: usize, cols: usize) -> (r: Result<Grid, ApiError>)
        ensures
            r is Ok <==> data@.len() == rows * cols,
            r is Err ==> r == Err::<Grid, ApiError>(ApiError::ShapeError),
            r matches Ok(g) ==> {
                &&& g@.len() == rows
                &&& g.spec_cols() == cols
                &&& g.flat() == data@
                &&& forall|t: int, c: int|
                    0 <= t < rows && 0 <= c < cols ==> #[trigger] g@[t][c] == data@[t * cols + c]
            },
    {
        let n_data = data.len();
        match rows.checked_mul(cols) {
            Some(n) if n == n_data => Ok(Grid { data, rows, cols }),
            _ => Err(ApiError::ShapeError),
        }
    }

    /// The shape `(rows, cols)` of the matrix, together with the basic
    /// facts relating the view, the flat content and the shape.
    pub fn shape(&self) -> (r: (usize, usize))
        ensures
            r.0 == self@.len(),
            r.1 == self.spec_cols(),
            self.flat().len() == self@.len() * self.spec_cols(),
            forall|t: int| 0 <= t < self@.len() ==> (#[trigger] self@[t]).len() == self.spec_cols(),
            forall|t: int, c: int|
                0 <= t < self@.len() && 0 <= c < self.spec_cols() ==> #[trigger] self@[t][c]
                    == self.flat()[t * self.spec_cols() + c],
    {
        proof {
            use_type_invariant(self);
        }
        (self.rows, self.cols)
    }

    /// The entry at row `t`, column `c`.
    pub fn get(&self, t: usize, c: usize) -> (r: u64)
        requires
            t < self@.len(),
            c < self.spec_cols(),
        ensures
            r == self@[t as int][c as int],
    {
        proof {
            use_type_invariant(self);
            lemma_row_major_in_bounds(self.rows as int, self.cols as int, t as int, c as int);
        }
        self.data[t * self.cols + c]
    }

    /// A copy of row `t`.
    pub fn row(&self, t: usize) -> (r: Vec<u64>)
        requires
            t < self@.len(),
        ensures
            r@ == self@[t as int],
    {
        proof {
            use_type_invariant(self);
        }
        let mut r: Vec<u64> = Vec::new();
        let mut c: usize = 0;
        while c < self.cols
            invariant
                c <= self.cols,
                t < self@.len(),
                self.shape_inv(),
                r@.len() == c,
                forall|j: int| 0 <= j < c ==> #[trigger] r@[j] == self@[t as int][j],
            decreases self.cols - c,
        {
            proof {
                lemma_row_major_in_bounds(self.rows as int, self.cols as int, t as int, c as int);
            }
            r.push(self.data[t * self.cols + c]);
            c = c + 1;
        }
        proof {
            assert(r@ =~= self@[t as int]);
        }
        r
    }

    /// A copy of the flat row-major content.
    pub fn to_flat(&self) -> (r: Vec<u64>)
        ensures
            r@ == self.flat(),
    {
        let mut r: Vec<u64> = Vec::new();
        let mut k: usize = 0;
        while k < self.data.len()
            invariant
                k <= self.data@.len(),
                r@.len() == k,
                forall|j: int| 0 <= j < k ==> #[trigger] r@[j] == self.data@[j],
            decreases self.data@.len() - k,
        {
            r.push(self.data[k]);
            k = k + 1;
        }
        proof {
            assert(r@ =~= self.data@);
        }
        r
    }

    /// The sum of each row, widened so that it cannot overflow.
    pub fn row_sums(&self) -> (r: Vec<u128>)
        ensures
            r@.len() == self@.len(),
            forall|t: int| 0 <= t < self@.len() ==> #[trigger] r@[t] == seq_sum(self@[t]),
    {
        let (rows, _) = self.shape();
        let mut r: Vec<u128> = Vec::new();
        let mut t: usize = 0;
        while t < rows
            invariant
                t <= rows,
                rows == self@.len(),
                r@.len() == t,
                forall|j: int| 0 <= j < t ==> #[trigger] r@[j] == seq_sum(self@[j]),
            decreases rows - t,
        {
            let row = self.row(t);
            r.push(counter_total(&row));
            t = t + 1;
        }
        r
    }
}

/// A row-major rank-3 tensor of opaque sample words with a checked shape,
/// indexed by time step, compartment and species.
pub struct Tensor3 {
    data: Vec<u64>,
    nt: usize,
    d0: usize,
    d1: usize,
}

impl Tensor3 {
    #[verifier::type_invariant]
    spec fn shape_inv(&self) -> bool {
        self.data@.len() == self.nt * self.d0 * self.d1 && self.nt * self.d0 * self.d1
            <= usize::MAX
    }

    pub closed spec fn spec_nt(&self) -> int {
        self.nt as int
    }

    pub closed spec fn spec_d0(&self) -> int {
        self.d0 as int
    }

    pub closed spec fn spec_d1(&self) -> int {
        self.d1 as int
    }

    /// The flat row-major content of the tensor.
    pub closed spec fn flat(&self) -> Seq<u64> {
        self.data@
    }

    /// The shape `(nt, d0, d1)` of the tensor, together with the length of
    /// its flat content.
    pub fn dims(&self) -> (r: (usize, usize, usize))
        ensures
            r.0 == self.spec_nt(),
            r.1 == self.spec_d0(),
            r.2 == self.spec_d1(),
            self.flat().len() == self.spec_nt() * self.spec_d0() * self.spec_d1(),
    {
        proof {
            use_type_invariant(self);
        }
        (self.nt, self.d0, self.d1)
    }

    /// Wraps a flat row-major array of shape `(nt, d0, d1)`.
    pub fn from_flat(data: Vec<u64>, nt: usize, d0: usize, d1: usize) -> (r: Result<
        Tensor3,
        ApiError,
    >)
        ensures
            r is Ok <==> data@.len() == nt * d0 * d1,
            r is Err ==> r == Err::<Tensor3, ApiError>(ApiError::ShapeError),
            r matches Ok(g) ==> {
                &&& g.spec_nt() == nt
                &&& g.spec_d0() == d0
                &&& g.spec_d1() == d1
                &&& g.flat() == data@
            },
    {
        let n_data = data.len();
        match nt.checked_mul(d0) {
            Some(p) => match p.checked_mul(d1) {
                Some(n) if n == n_data => Ok(Tensor3 { data, nt, d0, d1 }),
                _ => Err(ApiError::ShapeError),
            },
            None => {
                proof {
                    lemma_product_overflow(nt as int, d0 as int, d1 as int, data@.len() as int);
                }
                if d1 == 0 && data.len() == 0 {
                    Ok(Tensor3 { data, nt, d0, d1 })
                } else {
                    Err(ApiError::ShapeError)
                }
            },
        }
    }

    /// The entry at time step `t`, compartment `c`, species `s`.
    pub fn get(&self, t: usize, c: usize, s: usize) -> (r: u64)
        requires
            t < self.spec_nt(),
            c < self.spec_d0(),
            s < self.spec_d1(),
        ensures
            r == self.flat()[(t * self.spec_d0() + c) * self.spec_d1() + s],
    {
        proof {
            use_type_invariant(self);
            lemma_tensor_index_in_bounds(
                self.nt as int,
                self.d0 as int,
                self.d1 as int,
                t as int,
                c as int,
                s as int,
            );
        }
        self.data[(t * self.d0 + c) * self.d1 + s]
    }
}

/// Views a flat array as a `(nr, nc)` matrix, refusing a length that does
/// not fill the shape.
pub fn vec_to_array_view2(vec: &Vec<u64>, nr: usize, nc: usize) -> (r: Result<Grid, ApiError>)
    ensures
        r is Ok <==> vec@.len() == nr * nc,
        r is Err ==> r == Err::<Grid, ApiError>(ApiError::ShapeError),
        r matches Ok(g) ==> {
            &&& g@.len() == nr
            &&& g.spec_cols() == nc
            &&& g.flat() == vec@
        },
{
    Grid::from_flat(copy_words(vec), nr, nc)
}

/// Views a flat array as a `(nt, dim.0, dim.1)` tensor, refusing a length
/// that does not fill the shape.
pub fn vec_to_array_view3(vec: &Vec<u64>, dim: &Dim, nt: usize) -> (r: Result<Tensor3, ApiError>)
    ensures
        r is Ok <==> vec@.len() == nt * dim.0 * dim.1,
        r is Err ==> r == Err::<Tensor3, ApiError>(ApiError::ShapeError),
        r matches Ok(g) ==> {
            &&& g.spec_nt() == nt
            &&& g.spec_d0() == dim.0
            &&& g.spec_d1() == dim.1
            &&& g.flat() == vec@
        },
{
    Tensor3::from_flat(copy_words(vec), nt, dim.0, dim.1)
}

proof fn lemma_tensor_index_in_bounds(nt: int, d0: int, d1: int, t: int, c: int, s: int)
    by (nonlinear_arith)
    requires
        0 <= t < nt,
        0 <= c < d0,
        0 <= s < d1,
    ensures
        0 <= t * d0 + c < nt * d0,
        nt * d0 <= nt * d0 * d1,
        0 <= (t * d0 + c) * d1 + s < nt * d0 * d1,
{
}

/// If `nt * d0` already exceeds `usize`, no array in memory can have
/// `nt * d0 * d1` entries unless `d1 == 0`; a zero-length flat array is
/// then still refused, as the product is not representable.
proof fn lemma_product_overflow(nt: int, d0: int, d1: int, len: int)
    by (nonlinear_arith)
    requires
        nt * d0 > usize::MAX,
        0 <= len <= usize::MAX,
        d1 >= 0,
    ensures
        d1 >= 1 ==> len != nt * d0 * d1,
{
}

} // verus!
