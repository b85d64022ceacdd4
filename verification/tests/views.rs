use bcore::datamodel::Dim;
use bcore::error::ApiError;
use bcore::grid::{vec_to_array_view2, vec_to_array_view3};
use bcore::main_file::MainRecords;
use bcore::tallies::Tallies;

fn bits(values: &[f64]) -> Vec<u64> {
    values.iter().map(|v| v.to_bits()).collect()
}

#[test]
fn test_vec_to_array_view2_valid() {
    let vec = bits(&[1.0, 2.0, 3.0, 4.0]); // 2x2 matrix
    let view = vec_to_array_view2(&vec, 2, 2).unwrap();
    assert_eq!(view.shape(), (2, 2));
    assert_eq!(view.get(0, 0), (1.0f64).to_bits());
    assert_eq!(view.get(0, 1), (2.0f64).to_bits());
    assert_eq!(view.get(1, 0), (3.0f64).to_bits());
    assert_eq!(view.get(1, 1), (4.0f64).to_bits());
}

#[test]
fn test_vec_to_array_view2_invalid_size() {
    let vec = bits(&[1.0, 2.0, 3.0]); // incorrect size, should be 2x2
    assert!(matches!(vec_to_array_view2(&vec, 2, 2), Err(ApiError::ShapeError)));
}

#[test]
fn test_vec_to_array_view2_empty_vector() {
    let vec: Vec<u64> = vec![];
    assert!(matches!(vec_to_array_view2(&vec, 2, 2), Err(ApiError::ShapeError)));
}

#[test]
fn test_vec_to_array_view3() {
    let vec = bits(&[1.0; 6]); // 1 x 2 x 3
    let dim = Dim(2, 3);
    let view = vec_to_array_view3(&vec, &dim, 1).unwrap();
    assert_eq!(view.dims(), (1, 2, 3));
    for c in 0..2 {
        for s in 0..3 {
            assert_eq!(view.get(0, c, s), (1.0f64).to_bits());
        }
    }
}

#[test]
fn test_vec_to_array_view3_size_mismatch() {
    let vec = bits(&[1.0, 2.0, 3.0]);
    let dim = Dim(2, 3);
    assert!(matches!(vec_to_array_view3(&vec, &dim, 1), Err(ApiError::ShapeError)));
}

#[test]
fn test_vec_to_array_view3_empty_vector() {
    let vec: Vec<u64> = vec![];
    let dim = Dim(1, 2);
    assert!(matches!(vec_to_array_view3(&vec, &dim, 1), Err(ApiError::ShapeError)));
}

#[test]
fn test_tallies_validate() {
    assert!(Tallies(vec![0; 12]).validate());
    assert!(!Tallies(vec![0; 5]).validate());
}

#[test]
fn test_tallies_to_array() {
    let t = Tallies((0u64..12).collect());
    let grid = t.to_array().unwrap();
    assert_eq!(grid.shape(), (2, 6));
    assert_eq!(grid.get(0, 0), 0);
    assert_eq!(grid.get(1, 5), 11);
    assert!(matches!(Tallies(vec![0; 5]).to_array(), Err(ApiError::ShapeError)));
}

#[test]
fn test_species_slice_selects_one_species() {
    // One time step, two compartments, two species: species 1 of each
    // compartment.
    let time = bits(&[1.0]);
    let conc = bits(&[10.0, 11.0, 20.0, 21.0]);
    let vol = bits(&[1.0, 1.0]);
    let records =
        MainRecords::new(conc, vol, None, None, None, None, Dim(2, 2), time).unwrap();
    let slice = records
        .species_slice(bcore::api::Phase::Liquid, 1)
        .unwrap();
    assert_eq!(slice, bits(&[11.0, 21.0]));
}

#[test]
fn test_species_slice_gas_absent_fails_explicitly() {
    let time = bits(&[1.0]);
    let records = MainRecords::new(
        bits(&[10.0, 11.0]),
        bits(&[1.0]),
        None,
        None,
        None,
        None,
        Dim(1, 2),
        time,
    )
    .unwrap();
    match records.species_slice(bcore::api::Phase::Gas, 0) {
        Err(ApiError::RecordsError(n)) => assert_eq!(n.as_str(), "Gas"),
        other => panic!("expected a records error, got {:?}", other),
    }
}

#[test]
fn test_mtr_slice_absent_fails_explicitly() {
    let time = bits(&[1.0]);
    let records = MainRecords::new(
        bits(&[10.0, 11.0]),
        bits(&[1.0]),
        None,
        None,
        None,
        None,
        Dim(1, 2),
        time,
    )
    .unwrap();
    match records.mtr_species_slice(0) {
        Err(ApiError::RecordsError(n)) => assert_eq!(n.as_str(), "mtr"),
        other => panic!("expected a records error, got {:?}", other),
    }
}

#[test]
fn test_mtr_slice_present() {
    let time = bits(&[1.0]);
    let records = MainRecords::new(
        bits(&[10.0, 11.0]),
        bits(&[1.0]),
        None,
        None,
        Some(bits(&[5.0, 6.0])),
        None,
        Dim(1, 2),
        time,
    )
    .unwrap();
    assert_eq!(records.mtr_species_slice(1).unwrap(), bits(&[6.0]));
}
