//! Event tallies: a flat counter sequence with six counters per row
//! (new particle, death, move, exit, overflow, change of weight).

use vstd::prelude::*;

use crate::error::ApiError;
use crate::grid::{copy_words, Grid};

verus! {

/// A flat sequence of event counters; valid only when its length is a
/// multiple of six, one counter per event kind per row.
#[derive(Debug, Clone)]
pub struct Tallies(pub Vec<u64>);

impl Tallies {
    /// Whether the counter sequence has a whole number of rows.
    pub fn validate(&self) -> (r: bool)
        ensures
            r == (self.0@.len() % 6 == 0),
    {
        self.0.len() % 6 == 0
    }

    /// The tallies as a `(len / 6, 6)` matrix, one row per tally record;
    /// an invalid counter sequence is refused.
    pub fn to_array(&self) -> (r: Result<Grid, ApiError>)
        ensures
            r is Ok <==> self.0@.len() % 6 == 0,
            r is Err ==> r == Err::<Grid, ApiError>(ApiError::ShapeError),
            r matches Ok(g) ==> {
                &&& g@.len() == self.0@.len() / 6
                &&& g.spec_cols() == 6
                &&& g.flat() == self.0@
            },
    {
        let data = copy_words(&self.0);
        let rows = data.len() / 6;
        Grid::from_flat(data, rows, 6)
    }
}

} // verus!
