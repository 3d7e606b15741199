//! Fan-curve interpolation and the safety floor.

use tuxedo_control::curve::{interp, safety_floor};

#[test]
fn interp_empty_is_zero() {
    assert_eq!(interp(&[], 50), 0);
}

#[test]
fn interp_clamps_below_first_and_above_last() {
    let curve = [(40, 10), (80, 100)];
    // below the first point: the first duty
    assert_eq!(interp(&curve, 0), 10);
    assert_eq!(interp(&curve, 40), 10);
    // above the last point: the last duty
    assert_eq!(interp(&curve, 200), 100);
    assert_eq!(interp(&curve, 80), 100);
}

#[test]
fn interp_exact_points_return_their_duty() {
    let curve = [(40, 0), (60, 50), (80, 100)];
    assert_eq!(interp(&curve, 40), 0);
    assert_eq!(interp(&curve, 60), 50);
    assert_eq!(interp(&curve, 80), 100);
}

#[test]
fn interp_linear_midpoints() {
    let curve = [(40, 0), (80, 100)];
    assert_eq!(interp(&curve, 60), 50);
    assert_eq!(interp(&curve, 50), 25);
}

#[test]
fn interp_flat_segment_does_not_panic() {
    // Two points at the same temperature must not divide by zero.
    let curve = [(40, 0), (60, 20), (60, 50), (80, 100)];
    assert_eq!(interp(&curve, 60), 20);
    // surrounding interpolation still works
    assert_eq!(interp(&curve, 50), 10);
}

#[test]
fn safety_floor_thresholds() {
    assert_eq!(safety_floor(74), 0);
    assert_eq!(safety_floor(0), 0);
    assert_eq!(safety_floor(75), 30);
    assert_eq!(safety_floor(80), 45);
    assert_eq!(safety_floor(85), 60);
    assert_eq!(safety_floor(90), 80);
    assert_eq!(safety_floor(95), 80);
}
