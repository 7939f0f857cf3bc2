use stellar_lend::fixed_point::{check_change_limit, scale_by_basis_points};
use stellar_lend::risk_management::{share_of, RiskManagementError};

#[test]
fn share_of_half_and_tenth() {
    assert_eq!(scale_by_basis_points(1_000_000, 5_000), Some(500_000));
    assert_eq!(scale_by_basis_points(500_000, 1_000), Some(50_000));
    assert_eq!(scale_by_basis_points(0, 5_000), Some(0));
    assert_eq!(scale_by_basis_points(123_456, 0), Some(0));
    assert_eq!(scale_by_basis_points(123_456, 10_000), Some(123_456));
}

#[test]
fn share_is_rounded_down() {
    assert_eq!(scale_by_basis_points(1, 5_000), Some(0));
    assert_eq!(scale_by_basis_points(3, 3_333), Some(0));
    assert_eq!(scale_by_basis_points(3, 3_334), Some(1));
    assert_eq!(scale_by_basis_points(19_999, 5_000), Some(9_999));
    assert_eq!(scale_by_basis_points(12_345, 6_789), Some(8_381));
}

#[test]
fn share_of_negative_amount_is_rounded_towards_minus_infinity() {
    assert_eq!(scale_by_basis_points(-1, 5_000), Some(-1));
    assert_eq!(scale_by_basis_points(-20_000, 5_000), Some(-10_000));
    assert_eq!(scale_by_basis_points(-7, 1), Some(-1));
    assert_eq!(scale_by_basis_points(7, -1), Some(-1));
    assert_eq!(scale_by_basis_points(-7, -1), Some(0));
    assert_eq!(scale_by_basis_points(-19_999, 5_000), Some(-10_000));
}

#[test]
fn share_needs_no_room_for_the_product() {
    // The products below are far outside 128 bits; the shares are not.
    assert_eq!(scale_by_basis_points(i128::MAX, 5_000), Some(i128::MAX / 2));
    assert_eq!(scale_by_basis_points(i128::MAX, 10_000), Some(i128::MAX));
    assert_eq!(scale_by_basis_points(i128::MAX, 1), Some(i128::MAX / 10_000));
    assert_eq!(scale_by_basis_points(i128::MIN, 10_000), Some(i128::MIN));
    assert_eq!(scale_by_basis_points(i128::MIN, 5_000), Some(i128::MIN / 2));
    assert_eq!(scale_by_basis_points(i128::MIN + 1, -10_000), Some(i128::MAX));
    assert_eq!(
        scale_by_basis_points(10_000, i128::MAX),
        Some(i128::MAX)
    );
}

#[test]
fn share_outside_the_integers_is_none() {
    assert_eq!(scale_by_basis_points(i128::MAX, 10_001), None);
    assert_eq!(scale_by_basis_points(i128::MIN, 10_001), None);
    assert_eq!(scale_by_basis_points(i128::MIN, -10_000), None);
    assert_eq!(scale_by_basis_points(i128::MAX, i128::MAX), None);
    assert_eq!(scale_by_basis_points(i128::MIN, i128::MIN), None);
    assert_eq!(scale_by_basis_points(10_001, i128::MAX), None);
}

#[test]
fn share_of_reports_overflow() {
    assert_eq!(share_of(1_000_000, 5_000), Ok(500_000));
    assert_eq!(share_of(-1, 5_000), Ok(-1));
    assert_eq!(share_of(i128::MAX, 20_000), Err(RiskManagementError::Overflow));
    assert_eq!(share_of(i128::MIN, 10_001), Err(RiskManagementError::Overflow));
}

#[test]
fn change_limit_is_a_tenth_of_the_current_value() {
    assert!(check_change_limit(11_000, 11_000));
    assert!(check_change_limit(11_000, 12_100));
    assert!(!check_change_limit(11_000, 12_101));
    assert!(check_change_limit(11_000, 9_900));
    assert!(!check_change_limit(11_000, 9_899));
    assert!(check_change_limit(5_000, 5_500));
    assert!(!check_change_limit(5_000, 5_501));
    assert!(check_change_limit(1_000, 900));
    assert!(!check_change_limit(1_000, 899));
}

#[test]
fn change_limit_rounds_the_tenth_down() {
    assert!(check_change_limit(19, 20));
    assert!(!check_change_limit(19, 21));
    assert!(check_change_limit(19, 18));
    assert!(!check_change_limit(19, 17));
    assert!(check_change_limit(5, 5));
    assert!(!check_change_limit(5, 6));
    assert!(!check_change_limit(5, 4));
}

#[test]
fn change_limit_at_zero_allows_only_zero() {
    assert!(check_change_limit(0, 0));
    assert!(!check_change_limit(0, 1));
    assert!(!check_change_limit(0, -1));
}

#[test]
fn change_limit_at_the_ends_of_the_range() {
    assert!(check_change_limit(i128::MAX, i128::MAX));
    assert!(check_change_limit(i128::MAX, i128::MAX - i128::MAX / 10));
    assert!(!check_change_limit(i128::MAX, i128::MAX - i128::MAX / 10 - 1));
    assert!(!check_change_limit(i128::MAX, i128::MIN));
    assert!(!check_change_limit(i128::MAX, 0));
    assert!(check_change_limit(i128::MIN, i128::MIN));
    assert!(!check_change_limit(i128::MIN, i128::MAX));
    assert!(!check_change_limit(1, i128::MIN));
}

#[test]
fn change_limit_of_a_negative_value_goes_by_its_size() {
    assert!(check_change_limit(-100, -110));
    assert!(!check_change_limit(-100, -111));
    assert!(check_change_limit(-100, -90));
    assert!(!check_change_limit(-100, -89));
    assert!(!check_change_limit(-100, 100));
}
