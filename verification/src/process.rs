//! Statistics over merged property values: the histogram's count
//! bookkeeping, the population estimator's decision logic, and the
//! finite-difference stencil of the growth-rate estimator.
//!
//! The numeric evaluation on sample words (sums, products, divisions, bin
//! scaling) happens outside the verified engine; everything that decides
//! *what* is evaluated — shapes, short-circuits, bin indices and counts —
//! is here.

use vstd::prelude::*;

use crate::api::Estimator;
use crate::datamodel::Weight;
use crate::error::ApiError;
use crate::sums::{lemma_seq_sum_bounds_element, lemma_seq_sum_update, seq_sum};

verus! {

/// A bin index clamped into `[0, b - 1]`: a value past the upper edge
/// lands in the last bin.
pub open spec fn clamp_index(i: int, b: int) -> int
    recommends
        b >= 1,
{
    if i >= b {
        b - 1
    } else {
        i
    }
}

/// How many of `indices`, after clamping into `[0, b - 1]`, equal `j`.
pub open spec fn tally(indices: Seq<usize>, b: int, j: int) -> int
    decreases indices.len(),
{
    if indices.len() == 0 {
        0
    } else {
        tally(indices.drop_last(), b, j) + if clamp_index(indices.last() as int, b) == j {
            1int
        } else {
            0int
        }
    }
}

/// A histogram with a fixed number of bins, whose edges are set once, by
/// the first batch of values added, and never rebinned.
///
/// The edge positions and the bin scale (lower edge and bin width) are
/// opaque sample words computed by the caller from the initializing batch;
/// the counts are exact.
pub struct Histogram {
    bins: Vec<u64>,
    counts: Vec<u64>,
    bin_counts: usize,
    lower: u64,
    width: u64,
    initialized: bool,
}

impl Histogram {
    /// The counts and edges agree with the fixed bin count once the edges
    /// are set, and are empty before.
    pub closed spec fn wf(&self) -> bool {
        if self.initialized {
            self.bins@.len() == self.bin_counts && self.counts@.len() == self.bin_counts
        } else {
            self.bins@.len() == 0 && self.counts@.len() == 0
        }
    }

    /// The fixed number of bins.
    pub closed spec fn spec_bin_counts(&self) -> int {
        self.bin_counts as int
    }

    /// Whether the edges have been fixed by a first batch.
    pub closed spec fn spec_initialized(&self) -> bool {
        self.initialized
    }

    /// The bin edges.
    pub closed spec fn spec_bins(&self) -> Seq<u64> {
        self.bins@
    }

    /// The per-bin counts.
    pub closed spec fn spec_counts(&self) -> Seq<u64> {
        self.counts@
    }

    /// The scale fixed by the initializing batch: lower edge and bin width.
    pub closed spec fn spec_scale(&self) -> (u64, u64) {
        (self.lower, self.width)
    }

    /// A histogram with `bin_counts` bins and no edges yet.
    pub fn new(bin_counts: usize) -> (r: Histogram)
        ensures
            r.wf(),
            r.spec_bin_counts() == bin_counts,
            !r.spec_initialized(),
            r.spec_bins().len() == 0,
            r.spec_counts().len() == 0,
    {
        Histogram {
            bins: Vec::new(),
            counts: Vec::new(),
            bin_counts,
            lower: 0,
            width: 0,
            initialized: false,
        }
    }

    /// Fixes the scale and the edges from the first non-empty batch; the
    /// counts start at zero. May happen only once.
    pub fn initialize(&mut self, lower: u64, width: u64, bins: Vec<u64>) -> (r: Result<
        (),
        ApiError,
    >)
        requires
            old(self).wf(),
        ensures
            final(self).wf(),
            r is Ok <==> (!old(self).spec_initialized() && bins@.len()
                == old(self).spec_bin_counts()),
            r is Err ==> (r matches Err(ApiError::Default(_))) && *final(self) == *old(self),
            r is Ok ==> {
                &&& final(self).spec_initialized()
                &&& final(self).spec_bin_counts() == old(self).spec_bin_counts()
                &&& final(self).spec_scale() == (lower, width)
                &&& final(self).spec_bins() == bins@
                &&& final(self).spec_counts().len() == old(self).spec_bin_counts()
                &&& forall|j: int|
                    0 <= j < final(self).spec_counts().len() ==> final(self).spec_counts()[j] == 0
                &&& seq_sum(final(self).spec_counts()) == 0
            },
    {
        if self.initialized || bins.len() != self.bin_counts {
            return Err(ApiError::Default(String::from_str("histogram scale already fixed")));
        }
        let mut counts: Vec<u64> = Vec::new();
        let mut k: usize = 0;
        while k < self.bin_counts
            invariant
                k <= self.bin_counts,
                counts@.len() == k,
                forall|j: int| 0 <= j < k ==> counts@[j] == 0,
                seq_sum(counts@) == 0,
            decreases self.bin_counts - k,
        {
            proof {
                crate::sums::lemma_seq_sum_push(counts@, 0);
            }
            counts.push(0);
            k = k + 1;
        }
        self.bins = bins;
        self.counts = counts;
        self.lower = lower;
        self.width = width;
        self.initialized = true;
        Ok(())
    }

    /// Records one batch of bin indices: each index, clamped into the last
    /// bin when it lies past it, increments its bin's count. The total
    /// count grows by exactly the batch size: every value added is counted
    /// once.
    pub fn record(&mut self, indices: &Vec<usize>) -> (r: Result<(), ApiError>)
        requires
            old(self).wf(),
            old(self).spec_initialized(),
            old(self).spec_bin_counts() >= 1,
            seq_sum(old(self).spec_counts()) + indices@.len() <= u64::MAX,
        ensures
            final(self).wf(),
            r is Ok,
            final(self).spec_bin_counts() == old(self).spec_bin_counts(),
            final(self).spec_initialized(),
            final(self).spec_bins() == old(self).spec_bins(),
            final(self).spec_scale() == old(self).spec_scale(),
            final(self).spec_counts().len() == old(self).spec_counts().len(),
            forall|j: int|
                0 <= j < final(self).spec_counts().len() ==> #[trigger] final(self).spec_counts()[j]
                    == old(self).spec_counts()[j] + tally(
                    indices@,
                    old(self).spec_bin_counts(),
                    j,
                ),
            seq_sum(final(self).spec_counts()) == seq_sum(old(self).spec_counts())
                + indices@.len(),
    {
        proof {
            assert(indices@.take(0) =~= Seq::<usize>::empty());
        }
        let b = self.bin_counts;
        let mut t: usize = 0;
        while t < indices.len()
            invariant
                t <= indices@.len(),
                b == self.bin_counts,
                b >= 1,
                self.initialized == old(self).initialized,
                self.bins@ == old(self).bins@,
                self.bin_counts == old(self).bin_counts,
                self.lower == old(self).lower,
                self.width == old(self).width,
                self.initialized,
                self.counts@.len() == old(self).counts@.len(),
                self.counts@.len() == b,
                seq_sum(old(self).spec_counts()) + indices@.len() <= u64::MAX,
                forall|j: int|
                    0 <= j < b ==> #[trigger] self.counts@[j] == old(self).counts@[j] + tally(
                        indices@.take(t as int),
                        b as int,
                        j,
                    ),
                seq_sum(self.counts@) == seq_sum(old(self).counts@) + t,
            decreases indices@.len() - t,
        {
            let idx = indices[t];
            let j = if idx >= b {
                b - 1
            } else {
                idx
            };
            proof {
                assert(indices@.take(t + 1).drop_last() =~= indices@.take(t as int));
                assert(indices@.take(t + 1).last() == indices@[t as int]);
                lemma_seq_sum_bounds_element(self.counts@, j as int);
                lemma_seq_sum_update(self.counts@, j as int, (self.counts@[j as int] + 1) as u64);
            }
            let c = self.counts[j];
            self.counts[j] = c + 1;
            t = t + 1;
        }
        proof {
            assert(indices@.take(indices@.len() as int) =~= indices@);
        }
        Ok(())
    }

    /// The bin edges, empty until a first batch fixed them.
    pub fn get_bins(&self) -> (r: &Vec<u64>)
        ensures
            r@ == self.spec_bins(),
    {
        &self.bins
    }

    /// The per-bin counts, empty until a first batch fixed the edges.
    pub fn get_counts(&self) -> (r: &Vec<u64>)
        ensures
            r@ == self.spec_counts(),
    {
        &self.counts
    }

    /// Whether the edges have been fixed by a first batch.
    pub fn is_initialized(&self) -> (r: bool)
        ensures
            r == self.spec_initialized(),
    {
        self.initialized
    }

    /// The fixed number of bins.
    pub fn bin_count(&self) -> (r: usize)
        ensures
            r == self.spec_bin_counts(),
    {
        self.bin_counts
    }

    /// The scale fixed by the initializing batch: lower edge and bin width.
    pub fn scale(&self) -> (r: (u64, u64))
        ensures
            r == self.spec_scale(),
    {
        (self.lower, self.width)
    }
}

/// What the estimator does after the weighted sum is known.
#[derive(Debug, Clone, Copy, PartialEq, Eq, Structural)]
pub enum EstimateStep {
    /// The weighted sum is zero: the estimate is zero, with no division.
    ReturnZero,
    /// The weighted kind returns the weighted sum itself.
    WeightedSum,
    /// The Monte-Carlo kind under a single weight divides by the count
    /// times that weight.
    NormalizeByCount,
    /// The Monte-Carlo kind under per-particle weights divides by the sum
    /// of the weights.
    NormalizeByWeightSum,
}

/// The step that `estimate` takes for a given kind, weight model and
/// weighted sum.
pub open spec fn spec_estimate_step(
    etype: Estimator,
    weight: Weight,
    weighted_sum_is_zero: bool,
) -> EstimateStep {
    if weighted_sum_is_zero {
        EstimateStep::ReturnZero
    } else {
        match etype {
            Estimator::Weighted => EstimateStep::WeightedSum,
            Estimator::MonteCarlo => match weight {
                Weight::Single(_) => EstimateStep::NormalizeByCount,
                Weight::Multiple(_) => EstimateStep::NormalizeByWeightSum,
            },
        }
    }
}

/// Decides a population estimate over `n_values` samples.
///
/// A per-particle weight vector whose length differs from the sample count
/// fails with a shape error before anything is summed. Otherwise: a zero
/// weighted sum short-circuits to a zero estimate (this covers empty and
/// zero-weight inputs without a division); the weighted kind keeps the
/// weighted sum; the Monte-Carlo kind normalizes it by the total weight
/// mass.
pub fn estimate_decision(
    etype: Estimator,
    weight: &Weight,
    n_values: usize,
    weighted_sum_is_zero: bool,
) -> (r: Result<EstimateStep, ApiError>)
    ensures
        r is Ok <==> weight.fits(n_values as int),
        !weight.fits(n_values as int) ==> r == Err::<EstimateStep, ApiError>(ApiError::ShapeError),
        weight.fits(n_values as int) ==> r == Ok::<EstimateStep, ApiError>(
            spec_estimate_step(etype, *weight, weighted_sum_is_zero),
        ),
{
    weight.check_len(n_values)?;
    if weighted_sum_is_zero {
        return Ok(EstimateStep::ReturnZero);
    }
    match etype {
        Estimator::Weighted => Ok(EstimateStep::WeightedSum),
        Estimator::MonteCarlo => match weight {
            Weight::Single(_) => Ok(EstimateStep::NormalizeByCount),
            Weight::Multiple(_) => Ok(EstimateStep::NormalizeByWeightSum),
        },
    }
}

/// The growth-rate estimator is defined only for a single global weight;
/// a per-particle weight model is refused with a message.
pub fn mu_direct_guard(weight: &Weight) -> (r: Result<(), ApiError>)
    ensures
        r is Ok <==> weight is Single,
        r is Err ==> r matches Err(ApiError::Default(_)),
{
    match weight {
        Weight::Single(_) => Ok(()),
        Weight::Multiple(_) => Err(
            ApiError::Default(
                String::from_str("growth rate with per-particle weights is not implemented"),
            ),
        ),
    }
}

/// The finite-difference stencil of the growth-rate estimator: for each
/// export step, the triple `(later, earlier, at)` of export indices whose
/// mass totals and times enter the difference quotient. The first step
/// uses a forward difference, the last a backward difference, and every
/// interior step a centered one.
pub fn mu_direct_stencil(nt: usize) -> (r: Vec<(usize, usize, usize)>)
    requires
        nt >= 2,
    ensures
        r@.len() == nt,
        r@[0] == (1usize, 0usize, 0usize),
        forall|i: int|
            1 <= i < nt - 1 ==> #[trigger] r@[i] == (((i + 1) as usize, (i - 1) as usize, i as usize)),
        r@[nt - 1] == (((nt - 1) as usize, (nt - 2) as usize, (nt - 1) as usize)),
{
    let mut r: Vec<(usize, usize, usize)> = Vec::new();
    r.push((1, 0, 0));
    let mut i: usize = 1;
    while i < nt - 1
        invariant
            nt >= 2,
            1 <= i <= nt - 1,
            r@.len() == i,
            r@[0] == (1usize, 0usize, 0usize),
            forall|k: int|
                1 <= k < i ==> #[trigger] r@[k] == (((k + 1) as usize, (k - 1) as usize, k as usize)),
        decreases nt - 1 - i,
    {
        r.push((i + 1, i - 1, i));
        i = i + 1;
    }
    r.push((nt - 1, nt - 2, nt - 1));
    r
}

} // verus!
