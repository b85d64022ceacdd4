use bcore::concat::ConcatPostPrcess;
use bcore::datamodel::{Dim, Results, Weight};
use bcore::main_file::{MainInitial, MainRecords, MainResult, Misc};

fn bits(values: &[f64]) -> Vec<u64> {
    values.iter().map(|v| v.to_bits()).collect()
}

fn sample_run(times: &[f64]) -> Results {
    let nt = times.len();
    let time = bits(times);
    let conc = bits(&vec![0.5; nt * 2]);
    let vol = bits(&vec![1.0; nt * 2]);
    let records =
        MainRecords::new(conc, vol, None, None, None, None, Dim(2, 1), time).unwrap();
    let initial = MainInitial {
        delta_time: (0.1f64).to_bits(),
        final_time: (3.0f64).to_bits(),
        initial_biomass_concentration: (1.0f64).to_bits(),
        initial_weight: (2.0f64).to_bits(),
        n_map: 1,
        number_compartment: 2,
        number_particles: 10,
        t_per_flow_map: (1.0f64).to_bits(),
    };
    let misc = Misc { n_node_thread: 1, n_rank: 1 };
    let main = MainResult::new(records, initial, None, misc);
    Results::new(main, ".", "run", vec![vec![1u64; nt * 2]], vec!["mass".to_string()]).unwrap()
}

#[test]
fn test_concat_needs_at_least_two_runs() {
    let r = ConcatPostPrcess::new(vec![sample_run(&[1.0])]);
    match r {
        Err(m) => assert_eq!(m.as_str(), "Need at least one file"),
        Ok(_) => panic!("a single run must be refused"),
    }
}

#[test]
fn test_concat_time_array_joins_runs_in_order() {
    let c = ConcatPostPrcess::new(vec![sample_run(&[1.0, 2.0, 3.0]), sample_run(&[4.0, 5.0])])
        .unwrap();
    assert_eq!(c.time_array(), bits(&[1.0, 2.0, 3.0, 4.0, 5.0]));
    assert_eq!(c.n_export(), 5);
    assert_eq!(c.len(), 2);
}

#[test]
fn test_concat_time_end() {
    let c = ConcatPostPrcess::new(vec![sample_run(&[1.0, 2.0, 3.0]), sample_run(&[4.0, 5.0])])
        .unwrap();
    assert_eq!(c.get_time_end().unwrap(), bits(&[3.0, 5.0]));
}

#[test]
fn test_concat_time_end_reports_empty_run() {
    let c = ConcatPostPrcess::new(vec![sample_run(&[1.0]), sample_run(&[])]).unwrap();
    match c.get_time_end() {
        Err(m) => assert_eq!(m.as_str(), "Dataset has no time values"),
        Ok(_) => panic!("an empty time series must be reported"),
    }
}

#[test]
fn test_concat_names_and_weight_come_from_first_run() {
    let c = ConcatPostPrcess::new(vec![sample_run(&[1.0]), sample_run(&[2.0])]).unwrap();
    let names = c.get_property_names();
    assert_eq!(names.len(), 1);
    assert_eq!(names[0].as_str(), "mass");
    match c.weight() {
        Weight::Single(w) => assert_eq!(f64::from_bits(*w), 2.0),
        Weight::Multiple(_) => panic!("expected a single weight"),
    }
}
