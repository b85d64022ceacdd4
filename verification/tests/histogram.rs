use bcore::error::ApiError;
use bcore::process::Histogram;
use bcore::sums::counter_total;

fn edges(lower: f64, width: f64, n: usize) -> Vec<u64> {
    (0..n).map(|i| (lower + i as f64 * width).to_bits()).collect()
}

#[test]
fn test_histogram_count_conservation() {
    // Every recorded value lands in exactly one bin: the counts sum to the
    // number of values added, and an index past the last bin is clamped
    // into it.
    let mut h = Histogram::new(5);
    h.initialize((0.0f64).to_bits(), (1.0f64).to_bits(), edges(0.0, 1.0, 5)).unwrap();
    h.record(&vec![0, 1, 1, 4, 7, 3]).unwrap();
    assert_eq!(h.get_counts(), &vec![1, 2, 0, 1, 2]);
    assert_eq!(counter_total(h.get_counts()), 6);
}

#[test]
fn test_histogram_counts_accumulate_across_batches() {
    let mut h = Histogram::new(3);
    h.initialize((0.0f64).to_bits(), (2.0f64).to_bits(), edges(0.0, 2.0, 3)).unwrap();
    h.record(&vec![0, 2]).unwrap();
    h.record(&vec![2, 2, 1]).unwrap();
    assert_eq!(h.get_counts(), &vec![1, 1, 3]);
    assert_eq!(counter_total(h.get_counts()), 5);
}

#[test]
fn test_histogram_edges_fixed_once() {
    // The scale is fixed by the first batch; a second initialization is
    // refused and leaves the histogram unchanged.
    let mut h = Histogram::new(4);
    assert!(!h.is_initialized());
    h.initialize((1.0f64).to_bits(), (0.5f64).to_bits(), edges(1.0, 0.5, 4)).unwrap();
    assert!(h.is_initialized());
    let r = h.initialize((9.0f64).to_bits(), (9.0f64).to_bits(), edges(9.0, 9.0, 4));
    assert!(matches!(r, Err(ApiError::Default(_))));
    let (lower, width) = h.scale();
    assert_eq!(lower, (1.0f64).to_bits());
    assert_eq!(width, (0.5f64).to_bits());
    assert_eq!(h.get_bins(), &edges(1.0, 0.5, 4));
}

#[test]
fn test_histogram_starts_empty() {
    let h = Histogram::new(6);
    assert_eq!(h.bin_count(), 6);
    assert!(h.get_bins().is_empty());
    assert!(h.get_counts().is_empty());
}
