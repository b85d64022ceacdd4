use bcore::datamodel::{Dim, Results, Weight};
use bcore::error::ApiError;
use bcore::main_file::{MainInitial, MainRecords, MainResult, Misc};
use bcore::properties::{merge_property_parts, min_group_count, shard_contributes};

fn bits(values: &[f64]) -> Vec<u64> {
    values.iter().map(|v| v.to_bits()).collect()
}

fn sample_main(n_rank: u64) -> MainResult {
    // Three time steps, two compartments, one species.
    let time = bits(&[1.0, 2.0, 3.0]);
    let conc = bits(&[0.5; 6]);
    let vol = bits(&[1.0; 6]);
    let records =
        MainRecords::new(conc, vol, None, None, None, None, Dim(2, 1), time).unwrap();
    let initial = MainInitial {
        delta_time: (0.1f64).to_bits(),
        final_time: (3.0f64).to_bits(),
        initial_biomass_concentration: (1.0f64).to_bits(),
        initial_weight: (2.0f64).to_bits(),
        n_map: 1,
        number_compartment: 2,
        number_particles: 10,
        t_per_flow_map: (1.0f64).to_bits(),
    };
    let misc = Misc { n_node_thread: 1, n_rank };
    MainResult::new(records, initial, None, misc)
}

fn names() -> Vec<String> {
    vec!["mass".to_string(), "age".to_string()]
}

#[test]
fn test_particle_count_sum_across_shards() {
    // Two shards of shape (3, 2) filled with ones sum to a matrix of twos,
    // and the growth in number is the per-step row sum: [4, 4, 4].
    let main = sample_main(2);
    let series = vec![vec![1u64; 6], vec![1u64; 6]];
    let results = Results::new(main, "./results", "run1", series, names()).unwrap();
    let total = results.get_number_particle();
    let (rows, cols) = total.shape();
    assert_eq!((rows, cols), (3, 2));
    for t in 0..3 {
        for c in 0..2 {
            assert_eq!(total.get(t, c), 2);
        }
    }
    assert_eq!(results.get_growth_in_number(), vec![4u128, 4u128, 4u128]);
}

#[test]
fn test_shard_file_list_follows_convention() {
    let main = sample_main(2);
    let series = vec![vec![0u64; 6], vec![0u64; 6]];
    let results = Results::new(main, "./results", "run1", series, names()).unwrap();
    let files = results.get_files();
    assert_eq!(files.len(), 2);
    assert_eq!(files[0].as_str(), "./results/run1/run1_partial_0.h5");
    assert_eq!(files[1].as_str(), "./results/run1/run1_partial_1.h5");
}

#[test]
fn test_no_shards_is_fatal() {
    let main = sample_main(0);
    let r = Results::new(main, "./results", "run1", vec![], names());
    assert!(matches!(r, Err(ApiError::Default(_))));
}

#[test]
fn test_bad_series_shape_is_fatal() {
    // A shard's particle-count series must fill the (nt, n_compartments)
    // shape exactly.
    let main = sample_main(2);
    let series = vec![vec![1u64; 6], vec![1u64; 5]];
    let r = Results::new(main, "./results", "run1", series, names());
    assert!(matches!(r, Err(ApiError::ShapeError)));
}

#[test]
fn test_property_guard_checks_index_first() {
    let main = sample_main(1);
    let results = Results::new(main, ".", "run1", vec![vec![0u64; 6]], names()).unwrap();
    // Export index 5 exceeds the three global time steps.
    assert!(matches!(
        results.property_query_guard("mass", 5),
        Err(ApiError::OutOfRange(5, 3))
    ));
    // The index bound is checked before the key.
    assert!(matches!(
        results.property_query_guard("nonexistent", 5),
        Err(ApiError::OutOfRange(5, 3))
    ));
    match results.property_query_guard("nonexistent", 0) {
        Err(ApiError::KeyError(k)) => assert_eq!(k.as_str(), "nonexistent"),
        other => panic!("expected a key error, got {:?}", other),
    }
    assert!(results.property_query_guard("mass", 2).is_ok());
}

#[test]
fn test_query_guard_rejects_the_export_count_itself() {
    // Export steps are indexed 0..nt: a query at nt is already out of
    // range, for histograms just as for property reads.
    let main = sample_main(1);
    let results = Results::new(main, ".", "run1", vec![vec![0u64; 6]], names()).unwrap();
    assert!(results.property_query_guard("mass", 2).is_ok());
    assert!(matches!(
        results.property_query_guard("mass", 3),
        Err(ApiError::OutOfRange(3, 3))
    ));
}

#[test]
fn test_key_guard() {
    let main = sample_main(1);
    let results = Results::new(main, ".", "run1", vec![vec![0u64; 6]], names()).unwrap();
    assert!(results.key_guard("mass").is_ok());
    assert!(matches!(results.key_guard("length"), Err(ApiError::KeyError(_))));
}

#[test]
fn test_weight_is_the_initial_weight() {
    let main = sample_main(1);
    match main.weight {
        Weight::Single(w) => assert_eq!(f64::from_bits(w), 2.0),
        Weight::Multiple(_) => panic!("expected a single weight"),
    }
}

#[test]
fn test_merge_property_skips_missing_shards() {
    // Shard A exported three groups, shard B only one: a read of export
    // step 2 takes A's array and silently nothing from B.
    assert!(shard_contributes(3, 2));
    assert!(!shard_contributes(1, 2));
    let a = bits(&[2.0, 4.0, 6.0]);
    let merged = merge_property_parts(&vec![Some(a.clone()), None]);
    assert_eq!(merged, a);
}

#[test]
fn test_merge_property_concatenates_in_shard_order() {
    let a = bits(&[1.0, 2.0]);
    let b = bits(&[3.0]);
    let merged = merge_property_parts(&vec![Some(a), None, Some(b)]);
    assert_eq!(merged, bits(&[1.0, 2.0, 3.0]));
}

#[test]
fn test_accepted_spatial_rows_gate() {
    // A missing dataset or a row of the wrong width is skipped silently;
    // the accepted rows keep their shard order.
    let parts = vec![
        Some(vec![1u64, 2]),
        None,
        Some(vec![3u64]),
        Some(vec![4u64, 5]),
    ];
    let accepted = bcore::properties::accepted_spatial_rows(&parts, 2);
    assert_eq!(accepted, vec![vec![1u64, 2], vec![4u64, 5]]);
}

#[test]
fn test_min_group_count() {
    assert_eq!(min_group_count(&vec![3, 1, 2]), 1);
    assert_eq!(min_group_count(&vec![4]), 4);
}

#[test]
fn test_records_shape_mismatch_is_refused() {
    let time = bits(&[1.0, 2.0, 3.0]);
    let conc = bits(&[0.5; 5]); // should be nt * d0 * d1 = 6
    let vol = bits(&[1.0; 6]);
    let r = MainRecords::new(conc, vol, None, None, None, None, Dim(2, 1), time);
    assert!(matches!(r, Err(ApiError::ShapeError)));
}

#[test]
fn test_gas_pair_resolves_to_absent() {
    // Only one member of the gas pair is present: the pair resolves to
    // absent, which is not an error.
    let time = bits(&[1.0, 2.0, 3.0]);
    let records = MainRecords::new(
        bits(&[0.5; 6]),
        bits(&[1.0; 6]),
        Some(bits(&[0.1; 6])),
        None,
        None,
        None,
        Dim(2, 1),
        time,
    )
    .unwrap();
    assert!(records.concentration_gas.is_none());
    assert!(records.volume_gas.is_none());
}
