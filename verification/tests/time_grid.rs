use fir_filter::sinc::half_sample_offsets;

/// The grid in samples, as the float time vector of a design holds it.
fn times(order: usize) -> Vec<f64> {
    half_sample_offsets(order).iter().map(|&d| d as f64 / 2.0).collect()
}

#[test]
fn test_time_vector_centering() {
    let t = times(10);
    assert!((t[5]).abs() < 1e-15); // center element should be 0
    assert_eq!(t.len(), 11);
}

#[test]
fn test_time_vector_symmetry() {
    let t = times(8);
    for i in 0..t.len() / 2 {
        assert!((t[i] + t[t.len() - 1 - i]).abs() < 1e-14);
    }
}

#[test]
fn half_sample_offsets_exact_values() {
    assert_eq!(half_sample_offsets(4), vec![-4, -2, 0, 2, 4]);
    assert_eq!(half_sample_offsets(3), vec![-3, -1, 1, 3]);
}

#[test]
fn half_sample_offsets_order_zero() {
    assert_eq!(half_sample_offsets(0), vec![0]);
}

#[test]
fn half_sample_offsets_odd_order_has_no_zero() {
    let t = half_sample_offsets(7);
    assert_eq!(t.len(), 8);
    assert!(t.iter().all(|&d| d != 0));
    for i in 0..t.len() {
        assert_eq!(t[i] + t[t.len() - 1 - i], 0);
    }
}

#[test]
fn half_sample_offsets_in_samples() {
    let t = times(6);
    assert_eq!(t, vec![-3.0, -2.0, -1.0, 0.0, 1.0, 2.0, 3.0]);
    let t = times(5);
    assert_eq!(t, vec![-2.5, -1.5, -0.5, 0.5, 1.5, 2.5]);
}
