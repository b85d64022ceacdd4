//! The multi-run view: several runs of the same simulation, concatenated
//! along the time axis. Every query contract is the corresponding
//! single-run contract applied per run and combined in run order.

use vstd::prelude::*;

use crate::datamodel::{Results, Weight};

verus! {

/// The concatenation, in run order, of the runs' time series.
pub open spec fn concat_times(runs: Seq<Results>) -> Seq<u64>
    decreases runs.len(),
{
    if runs.len() == 0 {
        Seq::empty()
    } else {
        concat_times(runs.drop_last()) + runs.last().main.records.time@
    }
}

/// A sequence of runs observed as one dataset: per-run results are read
/// separately and joined along the time axis.
pub struct ConcatPostPrcess {
    dataset: Vec<Results>,
}

impl ConcatPostPrcess {
    /// The runs, in order.
    pub closed spec fn spec_runs(&self) -> Seq<Results> {
        self.dataset@
    }

    /// A concatenated view needs at least two runs.
    pub open spec fn wf(&self) -> bool {
        self.spec_runs().len() >= 2
    }

    /// Wraps at least two runs; fewer are refused, as the original single
    /// run view already covers them.
    pub fn new(dataset: Vec<Results>) -> (r: Result<ConcatPostPrcess, String>)
        ensures
            r is Ok <==> dataset@.len() >= 2,
            r matches Ok(c) ==> c.spec_runs() == dataset@ && c.wf(),
            r matches Err(m) ==> m@ == "Need at least one file"@,
    {
        if dataset.len() > 1 {
            Ok(ConcatPostPrcess { dataset })
        } else {
            Err(String::from_str("Need at least one file"))
        }
    }

    /// The number of runs.
    pub fn len(&self) -> (r: usize)
        ensures
            r == self.spec_runs().len(),
    {
        self.dataset.len()
    }

    /// The `i`-th run.
    pub fn get(&self, i: usize) -> (r: &Results)
        requires
            i < self.spec_runs().len(),
        ensures
            r == &self.spec_runs()[i as int],
    {
        &self.dataset[i]
    }

    /// The concatenated time series of all runs, in run order.
    pub fn time_array(&self) -> (r: Vec<u64>)
        ensures
            r@ == concat_times(self.spec_runs()),
    {
        let mut r: Vec<u64> = Vec::new();
        let mut i: usize = 0;
        proof {
            assert(self.spec_runs().take(0) =~= Seq::<Results>::empty());
        }
        while i < self.dataset.len()
            invariant
                i <= self.spec_runs().len(),
                r@ == concat_times(self.spec_runs().take(i as int)),
            decreases self.spec_runs().len() - i,
        {
            proof {
                assert(self.spec_runs().take(i + 1).drop_last() =~= self.spec_runs().take(
                    i as int,
                ));
                assert(self.spec_runs().take(i + 1).last() == self.spec_runs()[i as int]);
            }
            let t = &self.dataset[i].main.records.time;
            let mut k: usize = 0;
            let ghost r_before = r@;
            while k < t.len()
                invariant
                    k <= t@.len(),
                    r@ == r_before + t@.take(k as int),
                decreases t@.len() - k,
            {
                proof {
                    assert(t@.take(k + 1) =~= t@.take(k as int).push(t@[k as int]));
                }
                r.push(t[k]);
                k = k + 1;
            }
            proof {
                assert(t@.take(t@.len() as int) =~= t@);
            }
            i = i + 1;
        }
        proof {
            assert(self.spec_runs().take(self.spec_runs().len() as int) =~= self.spec_runs());
        }
        r
    }

    /// The total number of export steps across the runs.
    pub fn n_export(&self) -> (r: usize)
        ensures
            r == concat_times(self.spec_runs()).len(),
    {
        let t = self.time_array();
        t.len()
    }

    /// The last time value of each run, in run order; a run with an empty
    /// time series is reported.
    pub fn get_time_end(&self) -> (r: Result<Vec<u64>, String>)
        ensures
            r is Ok <==> forall|i: int|
                0 <= i < self.spec_runs().len()
                    ==> (#[trigger] self.spec_runs()[i]).main.records.time@.len() > 0,
            r matches Ok(v) ==> {
                &&& v@.len() == self.spec_runs().len()
                &&& forall|i: int|
                    0 <= i < v@.len() ==> #[trigger] v@[i]
                        == self.spec_runs()[i].main.records.time@.last()
            },
            r matches Err(m) ==> m@ == "Dataset has no time values"@,
    {
        let mut v: Vec<u64> = Vec::new();
        let mut i: usize = 0;
        while i < self.dataset.len()
            invariant
                i <= self.spec_runs().len(),
                v@.len() == i,
                forall|j: int|
                    0 <= j < i ==> (#[trigger] self.spec_runs()[j]).main.records.time@.len() > 0,
                forall|j: int|
                    0 <= j < i ==> #[trigger] v@[j]
                        == self.spec_runs()[j].main.records.time@.last(),
            decreases self.spec_runs().len() - i,
        {
            let t = &self.dataset[i].main.records.time;
            if t.len() == 0 {
                return Err(String::from_str("Dataset has no time values"));
            }
            v.push(t[t.len() - 1]);
            i = i + 1;
        }
        Ok(v)
    }

    /// The property names of the dataset: those discovered by the first
    /// run, which every run is expected to share.
    pub fn get_property_names(&self) -> (r: Vec<String>)
        requires
            self.wf(),
        ensures
            r@.len() == self.spec_runs()[0].property_name@.len(),
            forall|i: int|
                0 <= i < r@.len() ==> (#[trigger] r@[i])@
                    == self.spec_runs()[0].property_name@[i]@,
    {
        self.dataset[0].get_property_names()
    }

    /// The weight model of the dataset: the first run's.
    pub fn weight(&self) -> (r: &Weight)
        requires
            self.wf(),
        ensures
            r == &self.spec_runs()[0].main.weight,
    {
        self.dataset[0].weight()
    }
}

} // verus!
