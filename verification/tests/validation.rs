//! Tests of the three-point window acceptance rule.

use temp_hum::data::{value_is_valid, OUTLIER_DIFF_MIN_HUMI, OUTLIER_DIFF_MIN_TEMP};

#[test]
fn range_check() {
    // neighbours 0.0 and 10.0, noise floor 10.0 (in thousandths of a unit)
    assert!(!value_is_valid(-10_010, 0, 10_000, 10_000)); // slightly below the valid range
    assert!(value_is_valid(-10_000, 0, 10_000, 10_000)); // lowest valid value
    assert!(value_is_valid(0, 0, 10_000, 10_000)); // valid
    assert!(value_is_valid(10_000, 0, 10_000, 10_000)); // valid
    assert!(value_is_valid(19_990, 0, 10_000, 10_000)); // high valid value
    assert!(!value_is_valid(20_000, 0, 10_000, 10_000)); // just above the valid range
}

#[test]
fn window_boundaries_with_temperature_noise_floor() {
    // before 20.0 C, after 20.2 C, noise floor 0.3 C: the margin is
    // max(0.3, 0.2) = 0.3, so the band is [19.7, 20.5).
    assert!(!value_is_valid(19_690, 20_000, 20_200, OUTLIER_DIFF_MIN_TEMP));
    assert!(value_is_valid(19_700, 20_000, 20_200, OUTLIER_DIFF_MIN_TEMP));
    assert!(!value_is_valid(20_500, 20_000, 20_200, OUTLIER_DIFF_MIN_TEMP));
}

#[test]
fn window_margin_widens_to_neighbour_spread() {
    // before 40.0 %, after 50.0 %, noise floor 0.4 %: the margin widens to
    // the spread 10.0, so the band is [30.0, 60.0).
    assert!(value_is_valid(30_000, 40_000, 50_000, OUTLIER_DIFF_MIN_HUMI));
    assert!(!value_is_valid(29_999, 40_000, 50_000, OUTLIER_DIFF_MIN_HUMI));
    assert!(value_is_valid(59_999, 40_000, 50_000, OUTLIER_DIFF_MIN_HUMI));
    assert!(!value_is_valid(60_000, 40_000, 50_000, OUTLIER_DIFF_MIN_HUMI));
}

#[test]
fn window_neighbour_order_does_not_matter() {
    assert!(value_is_valid(19_700, 20_200, 20_000, OUTLIER_DIFF_MIN_TEMP));
    assert!(!value_is_valid(19_690, 20_200, 20_000, OUTLIER_DIFF_MIN_TEMP));
    assert!(!value_is_valid(20_500, 20_200, 20_000, OUTLIER_DIFF_MIN_TEMP));
}

#[test]
fn window_equal_neighbours_use_noise_floor_alone() {
    // both neighbours 20.0 C: the band is [19.7, 20.3).
    assert!(value_is_valid(19_700, 20_000, 20_000, OUTLIER_DIFF_MIN_TEMP));
    assert!(!value_is_valid(19_699, 20_000, 20_000, OUTLIER_DIFF_MIN_TEMP));
    assert!(value_is_valid(20_299, 20_000, 20_000, OUTLIER_DIFF_MIN_TEMP));
    assert!(!value_is_valid(20_300, 20_000, 20_000, OUTLIER_DIFF_MIN_TEMP));
}
