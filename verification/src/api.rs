//! Query-surface value types: the phase selector and the estimator kind.

use vstd::prelude::*;

verus! {

/// The phase of a record series.
#[derive(Debug, Clone, Copy, PartialEq, Eq, Structural)]
pub enum Phase {
    Liquid,
    Gas,
}

/// The kind of population estimator to evaluate.
#[derive(Debug, Clone, Copy, PartialEq, Eq, Structural)]
pub enum Estimator {
    /// Weighted mean: the weighted sum normalized by the total weight mass.
    MonteCarlo,
    /// Plain weighted sum, unnormalized.
    Weighted,
}

} // verus!
