use fir_filter::lowpass::{half_power_grid_index, GainLevel, HALF_POWER_GRID_STEPS};
use GainLevel::{Below, Reached, Unordered};

#[test]
fn grid_has_a_thousand_steps() {
    assert_eq!(HALF_POWER_GRID_STEPS, 1000);
}

#[test]
fn first_drop_after_reaching_is_returned() {
    // grid points 1..=6
    let levels = [Reached, Reached, Reached, Below, Below, Reached];
    assert_eq!(half_power_grid_index(&levels), 4);
}

#[test]
fn drop_before_reaching_is_ignored() {
    let levels = [Below, Below, Reached, Below];
    assert_eq!(half_power_grid_index(&levels), 4);
}

#[test]
fn never_dropping_gives_last_reached_point() {
    let levels = [Below, Reached, Reached, Unordered];
    assert_eq!(half_power_grid_index(&levels), 3);
}

#[test]
fn never_reaching_gives_zero() {
    assert_eq!(half_power_grid_index(&[Below, Below, Unordered]), 0);
    assert_eq!(half_power_grid_index(&[]), 0);
}

#[test]
fn unordered_points_neither_drop_nor_reach() {
    let levels = [Unordered, Reached, Unordered, Unordered, Below];
    assert_eq!(half_power_grid_index(&levels), 5);
    let levels = [Reached, Unordered, Unordered];
    assert_eq!(half_power_grid_index(&levels), 1);
}

#[test]
fn typical_lowpass_shape() {
    // passband up to grid point 250, stopband afterwards
    let mut levels = vec![Reached; 250];
    levels.extend(vec![Below; HALF_POWER_GRID_STEPS - 1 - 250]);
    assert_eq!(levels.len(), 999);
    assert_eq!(half_power_grid_index(&levels), 251);
}
