use bcore::api::Estimator;
use bcore::datamodel::Weight;
use bcore::error::ApiError;
use bcore::process::{estimate_decision, mu_direct_guard, mu_direct_stencil, EstimateStep};

#[test]
fn test_weight_shape_error() {
    // A per-particle weight vector must match the sample count exactly.
    let w = Weight::Multiple(vec![(1.0f64).to_bits(), (2.0f64).to_bits()]);
    assert!(matches!(w.check_len(3), Err(ApiError::ShapeError)));
    assert!(matches!(
        estimate_decision(Estimator::Weighted, &w, 3, false),
        Err(ApiError::ShapeError)
    ));
    assert!(matches!(
        estimate_decision(Estimator::MonteCarlo, &w, 3, true),
        Err(ApiError::ShapeError)
    ));
    assert!(w.check_len(2).is_ok());
}

#[test]
fn test_single_weight_fits_any_count() {
    let w = Weight::Single((2.0f64).to_bits());
    assert!(w.check_len(0).is_ok());
    assert!(w.check_len(17).is_ok());
}

#[test]
fn test_zero_weighted_sum_short_circuits() {
    // A zero weighted sum yields a zero estimate with no division, for
    // either estimator kind.
    let w = Weight::Single((0.0f64).to_bits());
    assert_eq!(
        estimate_decision(Estimator::MonteCarlo, &w, 3, true).unwrap(),
        EstimateStep::ReturnZero
    );
    assert_eq!(
        estimate_decision(Estimator::Weighted, &w, 3, true).unwrap(),
        EstimateStep::ReturnZero
    );
}

#[test]
fn test_empty_input_short_circuits() {
    // An empty sample array has a zero weighted sum and so a zero estimate.
    let w = Weight::Single((2.0f64).to_bits());
    assert_eq!(
        estimate_decision(Estimator::Weighted, &w, 0, true).unwrap(),
        EstimateStep::ReturnZero
    );
}

#[test]
fn test_estimator_kinds() {
    let single = Weight::Single((2.0f64).to_bits());
    let multiple = Weight::Multiple(vec![(1.0f64).to_bits(); 3]);
    assert_eq!(
        estimate_decision(Estimator::Weighted, &single, 3, false).unwrap(),
        EstimateStep::WeightedSum
    );
    assert_eq!(
        estimate_decision(Estimator::MonteCarlo, &single, 3, false).unwrap(),
        EstimateStep::NormalizeByCount
    );
    assert_eq!(
        estimate_decision(Estimator::MonteCarlo, &multiple, 3, false).unwrap(),
        EstimateStep::NormalizeByWeightSum
    );
}

#[test]
fn test_mu_direct_guard() {
    assert!(mu_direct_guard(&Weight::Single((2.0f64).to_bits())).is_ok());
    assert!(matches!(
        mu_direct_guard(&Weight::Multiple(vec![(1.0f64).to_bits()])),
        Err(ApiError::Default(_))
    ));
}

#[test]
fn test_mu_direct_stencil() {
    // Forward difference first, centered in the interior, backward last.
    assert_eq!(mu_direct_stencil(4), vec![(1, 0, 0), (2, 0, 1), (3, 1, 2), (3, 2, 3)]);
    assert_eq!(mu_direct_stencil(2), vec![(1, 0, 0), (1, 0, 1)]);
}
