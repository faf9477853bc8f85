use pictorial::add;
use pictorial::scalar::{
    abs_sat, add_sat, div_fixed, halve, is_within, isqrt, max_of, midpoint, min_of, mul_fixed,
    neg_sat, snap_to_multiple, sub_sat, ONE,
};

#[test]
fn it_works() {
    let result = add(2, 2);
    assert_eq!(result, 4);
}

#[test]
fn add_reaches_the_top_of_the_range() {
    assert_eq!(add(u64::MAX - 1, 1), u64::MAX);
    assert_eq!(add(0, 0), 0);
}

#[test]
fn one_is_a_million() {
    assert_eq!(ONE, 1_000_000);
}

#[test]
fn sums_and_differences_saturate() {
    assert_eq!(add_sat(2 * ONE, 3 * ONE), 5 * ONE);
    assert_eq!(add_sat(i64::MAX, 1), i64::MAX);
    assert_eq!(add_sat(i64::MIN, -1), i64::MIN);
    assert_eq!(sub_sat(2 * ONE, 3 * ONE), -ONE);
    assert_eq!(sub_sat(i64::MIN, 1), i64::MIN);
    assert_eq!(sub_sat(i64::MAX, -1), i64::MAX);
}

#[test]
fn negation_and_magnitude_saturate() {
    assert_eq!(neg_sat(5), -5);
    assert_eq!(neg_sat(-5), 5);
    assert_eq!(neg_sat(i64::MIN), i64::MAX);
    assert_eq!(abs_sat(-5), 5);
    assert_eq!(abs_sat(5), 5);
    assert_eq!(abs_sat(i64::MIN), i64::MAX);
}

#[test]
fn products_round_towards_zero() {
    assert_eq!(mul_fixed(1_500_000, 2_000_000), 3_000_000);
    assert_eq!(mul_fixed(-1_500_000, 333_333), -499_999);
    assert_eq!(mul_fixed(1_500_000, 333_333), 499_999);
    assert_eq!(mul_fixed(-1_500_000, -2_000_000), 3_000_000);
    assert_eq!(mul_fixed(7 * ONE, ONE), 7 * ONE);
    assert_eq!(mul_fixed(7 * ONE, 0), 0);
    assert_eq!(mul_fixed(1, 1), 0);
}

#[test]
fn products_saturate() {
    assert_eq!(mul_fixed(i64::MAX, 2 * ONE), i64::MAX);
    assert_eq!(mul_fixed(i64::MIN, 2 * ONE), i64::MIN);
    assert_eq!(mul_fixed(i64::MIN, -2 * ONE), i64::MAX);
    assert_eq!(mul_fixed(i64::MIN, ONE), i64::MIN);
}

#[test]
fn quotients_round_towards_zero() {
    assert_eq!(div_fixed(150 * ONE, 100 * ONE), 1_500_000);
    assert_eq!(div_fixed(ONE, 3 * ONE), 333_333);
    assert_eq!(div_fixed(-ONE, 3 * ONE), -333_333);
    assert_eq!(div_fixed(ONE, -3 * ONE), -333_333);
    assert_eq!(div_fixed(-ONE, -3 * ONE), 333_333);
    assert_eq!(div_fixed(8 * ONE, 2 * ONE), 4 * ONE);
}

#[test]
fn division_by_zero_saturates() {
    assert_eq!(div_fixed(5, 0), i64::MAX);
    assert_eq!(div_fixed(-5, 0), i64::MIN);
    assert_eq!(div_fixed(0, 0), 0);
    assert_eq!(div_fixed(i64::MAX, 1), i64::MAX);
    assert_eq!(div_fixed(i64::MIN, 1), i64::MIN);
}

#[test]
fn midpoints_and_halves_round_towards_zero() {
    assert_eq!(midpoint(3, 4), 3);
    assert_eq!(midpoint(-3, -4), -3);
    assert_eq!(midpoint(0, 100 * ONE), 50 * ONE);
    assert_eq!(midpoint(i64::MAX, i64::MAX), i64::MAX);
    assert_eq!(midpoint(i64::MIN, i64::MAX), 0);
    assert_eq!(halve(7), 3);
    assert_eq!(halve(-7), -3);
    assert_eq!(halve(8 * ONE), 4 * ONE);
}

#[test]
fn snapping_goes_to_the_nearest_multiple() {
    assert_eq!(snap_to_multiple(8 * ONE, 20 * ONE), 0);
    assert_eq!(snap_to_multiple(12 * ONE, 20 * ONE), 20 * ONE);
    assert_eq!(snap_to_multiple(29 * ONE, 20 * ONE), 20 * ONE);
    assert_eq!(snap_to_multiple(31 * ONE, 20 * ONE), 40 * ONE);
    assert_eq!(snap_to_multiple(-8 * ONE, 20 * ONE), 0);
    assert_eq!(snap_to_multiple(-12 * ONE, 20 * ONE), -20 * ONE);
}

#[test]
fn snapping_ties_go_away_from_zero() {
    assert_eq!(snap_to_multiple(10 * ONE, 20 * ONE), 20 * ONE);
    assert_eq!(snap_to_multiple(-10 * ONE, 20 * ONE), -20 * ONE);
    assert_eq!(snap_to_multiple(30 * ONE, 20 * ONE), 40 * ONE);
}

#[test]
fn snapping_takes_any_grid() {
    assert_eq!(snap_to_multiple(12 * ONE, 0), 12 * ONE);
    assert_eq!(snap_to_multiple(12 * ONE, -20 * ONE), 20 * ONE);
    assert_eq!(snap_to_multiple(-12 * ONE, -20 * ONE), -20 * ONE);
    assert_eq!(snap_to_multiple(i64::MAX, i64::MAX - 1), i64::MAX - 1);
    assert_eq!(snap_to_multiple(i64::MAX, 3), i64::MAX - 1);
    assert_eq!(snap_to_multiple(i64::MAX, 1 << 62), i64::MAX);
    assert_eq!(snap_to_multiple(i64::MIN, 1 << 62), i64::MIN);
}

#[test]
fn closeness_is_strict() {
    assert!(is_within(5, 9, 5));
    assert!(is_within(9, 5, 5));
    assert!(!is_within(5, 10, 5));
    assert!(!is_within(5, 5, 0));
    assert!(!is_within(5, 5, -1));
    assert!(!is_within(i64::MIN, i64::MAX, i64::MAX));
}

#[test]
fn square_roots_round_down() {
    assert_eq!(isqrt(0), 0);
    assert_eq!(isqrt(1), 1);
    assert_eq!(isqrt(15), 3);
    assert_eq!(isqrt(16), 4);
    assert_eq!(isqrt(17), 4);
    assert_eq!(isqrt(25_000_000_000_000), 5_000_000);
    assert_eq!(isqrt(u128::MAX), u64::MAX);
}

#[test]
fn least_and_greatest() {
    assert_eq!(min_of(3, -4), -4);
    assert_eq!(max_of(3, -4), 3);
    assert_eq!(min_of(7, 7), 7);
    assert_eq!(max_of(7, 7), 7);
}
