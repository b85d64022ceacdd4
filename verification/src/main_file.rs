//! The main result file of a run: scalar metadata, time series and the
//! flattened record arrays, validated against the declared grid shape.
//!
//! Sample values (concentrations, volumes, times, weights) are carried as
//! opaque 64-bit words; this module checks and preserves their layout.

use vstd::prelude::*;

use crate::api::Phase;
use crate::datamodel::{Dim, Weight};
use crate::error::ApiError;
use crate::grid::{lemma_row_major_in_bounds, shape2_matches, shape3_matches};
use crate::tallies::Tallies;

verus! {

/// The `misc` section of the main file.
#[derive(Debug, Clone, Copy, PartialEq, Eq, Structural)]
pub struct Misc {
    pub n_node_thread: u64,
    pub n_rank: u64,
}

/// The `initial_parameters` section of the main file.
#[derive(Debug, Clone, Copy, PartialEq, Eq, Structural)]
pub struct MainInitial {
    pub delta_time: u64,
    pub final_time: u64,
    pub initial_biomass_concentration: u64,
    pub initial_weight: u64,
    pub n_map: usize,
    pub number_compartment: usize,
    pub number_particles: u64,
    pub t_per_flow_map: u64,
}

/// The optional `final_result` section of the main file: named event
/// counters and the final particle count.
#[derive(Debug, Clone)]
pub struct MainFInal {
    pub events: Option<Vec<(String, u64)>>,
    pub number_particles: u64,
}

/// The `records` section of the main file: per-timestep flattened arrays.
///
/// `concentration_liquid` has one entry per `(timestep, compartment,
/// species)` triple, `volume_liquid` one per `(timestep, compartment)`
/// pair; the optional gas pair and mass-transfer-rate array follow the
/// same layout.
#[derive(Debug, Clone)]
pub struct MainRecords {
    pub concentration_liquid: Vec<u64>,
    pub volume_liquid: Vec<u64>,
    pub concentration_gas: Option<Vec<u64>>,
    pub volume_gas: Option<Vec<u64>>,
    pub mtr: Option<Vec<u64>>,
    pub tallies: Option<Tallies>,
    pub dim: Dim,
    pub time: Vec<u64>,
}

impl MainRecords {
    /// The number of time steps of the run.
    pub open spec fn spec_nt(&self) -> int {
        self.time@.len() as int
    }

    /// Every record array fills its declared shape, and the gas-phase pair
    /// is present or absent as a whole.
    pub open spec fn wf(&self) -> bool {
        &&& self.concentration_liquid@.len() == self.spec_nt() * self.dim.0 * self.dim.1
        &&& self.volume_liquid@.len() == self.spec_nt() * self.dim.0
        &&& (self.concentration_gas is Some <==> self.volume_gas is Some)
        &&& (self.concentration_gas matches Some(g) ==> g@.len() == self.spec_nt() * self.dim.0
            * self.dim.1)
        &&& (self.volume_gas matches Some(v) ==> v@.len() == self.spec_nt() * self.dim.0)
        &&& (self.mtr matches Some(m) ==> m@.len() == self.spec_nt() * self.dim.0 * self.dim.1)
    }

    /// Assembles the record section from the arrays read out of the main
    /// file, deriving validity from the declared grid dimension.
    ///
    /// A gas-phase series is kept only when both members of the pair are
    /// present; an incomplete pair resolves to absent, which is not an
    /// error. A mandatory or kept array whose length does not fill its
    /// shape is refused.
    pub fn new(
        concentration_liquid: Vec<u64>,
        volume_liquid: Vec<u64>,
        concentration_gas: Option<Vec<u64>>,
        volume_gas: Option<Vec<u64>>,
        mtr: Option<Vec<u64>>,
        tallies: Option<Tallies>,
        dim: Dim,
        time: Vec<u64>,
    ) -> (r: Result<MainRecords, ApiError>)
        ensures
            r is Err ==> r == Err::<MainRecords, ApiError>(ApiError::ShapeError),
            r is Ok <==> {
                &&& concentration_liquid@.len() == time@.len() * dim.0 * dim.1
                &&& volume_liquid@.len() == time@.len() * dim.0
                &&& (concentration_gas matches Some(g) ==> (volume_gas matches Some(v) ==> g@.len()
                    == time@.len() * dim.0 * dim.1 && v@.len() == time@.len() * dim.0))
                &&& (mtr matches Some(m) ==> m@.len() == time@.len() * dim.0 * dim.1)
            },
            r matches Ok(rec) ==> {
                &&& rec.wf()
                &&& rec.concentration_liquid == concentration_liquid
                &&& rec.volume_liquid == volume_liquid
                &&& rec.mtr == mtr
                &&& rec.tallies == tallies
                &&& rec.dim == dim
                &&& rec.time == time
                &&& if concentration_gas is Some && volume_gas is Some {
                    rec.concentration_gas == concentration_gas && rec.volume_gas == volume_gas
                } else {
                    rec.concentration_gas is None && rec.volume_gas is None
                }
            },
    {
        let nt = time.len();
        if !shape3_matches(concentration_liquid.len(), nt, dim.0, dim.1) {
            return Err(ApiError::ShapeError);
        }
        if !shape2_matches(volume_liquid.len(), nt, dim.0) {
            return Err(ApiError::ShapeError);
        }
        let (concentration_gas, volume_gas) = match (concentration_gas, volume_gas) {
            (Some(g), Some(v)) => {
                if !shape3_matches(g.len(), nt, dim.0, dim.1) {
                    return Err(ApiError::ShapeError);
                }
                if !shape2_matches(v.len(), nt, dim.0) {
                    return Err(ApiError::ShapeError);
                }
                (Some(g), Some(v))
            },
            _ => (None, None),
        };
        if let Some(m) = &mtr {
            if !shape3_matches(m.len(), nt, dim.0, dim.1) {
                return Err(ApiError::ShapeError);
            }
        }
        Ok(
            MainRecords {
                concentration_liquid,
                volume_liquid,
                concentration_gas,
                volume_gas,
                mtr,
                tallies,
                dim,
                time,
            },
        )
    }
}

impl MainRecords {
    /// The concentration series of `phase`: the liquid series, or the gas
    /// series when it was recorded (empty otherwise).
    pub open spec fn phase_concentration(&self, phase: Phase) -> Seq<u64> {
        match phase {
            Phase::Liquid => self.concentration_liquid@,
            Phase::Gas => match self.concentration_gas {
                Some(g) => g@,
                None => Seq::empty(),
            },
        }
    }

    /// Selects one species from a phase's concentration tensor: entry
    /// `(t, c)` of the result is entry `(t, c, species)` of the tensor,
    /// flattened row-major. Requesting the gas phase of a run that did not
    /// record it fails explicitly; liquid data is never substituted.
    pub fn species_slice(&self, phase: Phase, species: usize) -> (r: Result<Vec<u64>, ApiError>)
        requires
            self.wf(),
            species < self.dim.1,
        ensures
            r is Ok <==> (phase == Phase::Liquid || self.concentration_gas is Some),
            r matches Err(e) ==> e matches ApiError::RecordsError(n) && n@ == "Gas"@,
            r matches Ok(v) ==> {
                &&& v@.len() == self.spec_nt() * self.dim.0
                &&& forall|k: int|
                    0 <= k < v@.len() ==> #[trigger] v@[k] == self.phase_concentration(phase)[k
                        * self.dim.1 + species]
            },
    {
        let conc: &Vec<u64> = match phase {
            Phase::Liquid => &self.concentration_liquid,
            Phase::Gas => match &self.concentration_gas {
                Some(g) => g,
                None => {
                    return Err(ApiError::RecordsError(String::from_str("Gas")));
                },
            },
        };
        let n_cells = self.volume_liquid.len();
        let d1 = self.dim.1;
        let conc_len = conc.len();
        let mut r: Vec<u64> = Vec::new();
        let mut k: usize = 0;
        while k < n_cells
            invariant
                k <= n_cells,
                self.wf(),
                species < self.dim.1,
                d1 == self.dim.1,
                n_cells == self.spec_nt() * self.dim.0,
                conc@ == self.phase_concentration(phase),
                conc_len == conc@.len(),
                conc@.len() == self.spec_nt() * self.dim.0 * self.dim.1,
                r@.len() == k,
                forall|j: int|
                    0 <= j < k ==> #[trigger] r@[j] == conc@[j * self.dim.1 + species],
            decreases n_cells - k,
        {
            proof {
                lemma_row_major_in_bounds(n_cells as int, d1 as int, k as int, species as int);
                assert(self.spec_nt() * self.dim.0 * self.dim.1 == (self.spec_nt() * self.dim.0)
                    * self.dim.1);
            }
            r.push(conc[k * d1 + species]);
            k = k + 1;
        }
        Ok(r)
    }

    /// Selects one species from the mass-transfer-rate tensor, which is
    /// optional; requesting it when absent fails explicitly.
    pub fn mtr_species_slice(&self, species: usize) -> (r: Result<Vec<u64>, ApiError>)
        requires
            self.wf(),
            species < self.dim.1,
        ensures
            r is Ok <==> self.mtr is Some,
            r matches Err(e) ==> e matches ApiError::RecordsError(n) && n@ == "mtr"@,
            r matches Ok(v) ==> {
                &&& v@.len() == self.spec_nt() * self.dim.0
                &&& self.mtr matches Some(m) && forall|k: int|
                    0 <= k < v@.len() ==> #[trigger] v@[k] == m@[k * self.dim.1 + species]
            },
    {
        let m: &Vec<u64> = match &self.mtr {
            Some(m) => m,
            None => {
                return Err(ApiError::RecordsError(String::from_str("mtr")));
            },
        };
        let n_cells = self.volume_liquid.len();
        let d1 = self.dim.1;
        let m_len = m.len();
        let mut r: Vec<u64> = Vec::new();
        let mut k: usize = 0;
        while k < n_cells
            invariant
                k <= n_cells,
                self.wf(),
                species < self.dim.1,
                d1 == self.dim.1,
                n_cells == self.spec_nt() * self.dim.0,
                self.mtr matches Some(mm) && mm@ == m@,
                m_len == m@.len(),
                m@.len() == self.spec_nt() * self.dim.0 * self.dim.1,
                r@.len() == k,
                forall|j: int| 0 <= j < k ==> #[trigger] r@[j] == m@[j * self.dim.1 + species],
            decreases n_cells - k,
        {
            proof {
                lemma_row_major_in_bounds(n_cells as int, d1 as int, k as int, species as int);
                assert(self.spec_nt() * self.dim.0 * self.dim.1 == (self.spec_nt() * self.dim.0)
                    * self.dim.1);
            }
            r.push(m[k * d1 + species]);
            k = k + 1;
        }
        Ok(r)
    }
}

/// The fully read main result file.
#[derive(Debug, Clone)]
pub struct MainResult {
    pub records: MainRecords,
    pub initial: MainInitial,
    pub cfinal: Option<MainFInal>,
    pub misc: Misc,
    pub weight: Weight,
}

impl MainResult {
    /// Assembles the main result from its validated sections; the run's
    /// weight model is the single initial statistical weight.
    pub fn new(
        records: MainRecords,
        initial: MainInitial,
        cfinal: Option<MainFInal>,
        misc: Misc,
    ) -> (r: MainResult)
        ensures
            r.records == records,
            r.initial == initial,
            r.cfinal == cfinal,
            r.misc == misc,
            r.weight == Weight::Single(initial.initial_weight),
    {
        let weight = Weight::Single(initial.initial_weight);
        MainResult { records, initial, cfinal, misc, weight }
    }

    /// The time series of the run.
    pub fn time(&self) -> (r: &Vec<u64>)
        ensures
            r@ == self.records.time@,
    {
        &self.records.time
    }
}

} // verus!
