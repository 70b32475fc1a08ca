use softies::vec2::Vec2;

#[test]
fn sums_and_differences_are_taken_by_component() {
    let a = Vec2::new(1_000_000, -2_000_000);
    let b = Vec2::new(250_000, 750_000);
    assert_eq!(a.plus(b), Vec2::new(1_250_000, -1_250_000));
    assert_eq!(a.minus(b), Vec2::new(750_000, -2_750_000));
    assert_eq!(a.plus(Vec2::zero()), a);
    assert_eq!(a.minus(a), Vec2::zero());
    assert!(Vec2::zero().is_zero());
    assert!(!Vec2::new(0, 1).is_zero());
    assert!(!Vec2::new(-1, 0).is_zero());
}

#[test]
fn sums_and_differences_stop_at_the_ends_of_the_range() {
    let far = Vec2::new(i64::MAX, i64::MIN);
    assert_eq!(far.plus(Vec2::new(1, -1)), far);
    assert_eq!(far.minus(Vec2::new(-1, 1)), far);
    assert_eq!(Vec2::new(i64::MIN, 0).minus(Vec2::new(i64::MAX, 0)), Vec2::new(i64::MIN, 0));
    assert_eq!(far.plus(far), far);
}

#[test]
fn scaling_multiplies_both_components() {
    assert_eq!(Vec2::new(3_000_000, -4_000_000).scaled(500_000), Vec2::new(1_500_000, -2_000_000));
    assert_eq!(Vec2::new(3_000_000, -4_000_000).scaled(-2_000_000), Vec2::new(-6_000_000, 8_000_000));
    assert_eq!(Vec2::new(3, -3).scaled(500_000), Vec2::new(1, -1));
    assert_eq!(Vec2::new(i64::MAX, i64::MIN).scaled(0), Vec2::zero());
}

#[test]
fn the_perpendicular_is_a_quarter_turn() {
    assert_eq!(Vec2::new(1, 2).perpendicular(), Vec2::new(-2, 1));
    assert_eq!(Vec2::new(1_000_000, 0).perpendicular(), Vec2::new(0, 1_000_000));
    assert_eq!(Vec2::new(0, 1_000_000).perpendicular(), Vec2::new(-1_000_000, 0));
    assert_eq!(Vec2::new(7, i64::MIN).perpendicular(), Vec2::new(i64::MAX, 7));
    let v = Vec2::new(600_000, -800_000);
    assert_eq!(v.dot(v.perpendicular()), 0);
}

#[test]
fn the_scalar_product_is_a_fixed_point_number() {
    let a = Vec2::new(3_000_000, 4_000_000);
    assert_eq!(a.dot(a), 25_000_000);
    assert_eq!(a.dot(Vec2::new(-4_000_000, 3_000_000)), 0);
    assert_eq!(a.dot(Vec2::new(1_000_000, 0)), 3_000_000);
    assert_eq!(Vec2::new(1, 0).dot(Vec2::new(999_999, 0)), 0);
    assert_eq!(Vec2::new(-1, 0).dot(Vec2::new(999_999, 0)), 0);
    // the two products are added before they are rounded
    assert_eq!(Vec2::new(1, 1).dot(Vec2::new(500_000, 500_000)), 1);
}

#[test]
fn the_scalar_product_stops_at_the_ends_of_the_range() {
    let least = Vec2::new(i64::MIN, i64::MIN);
    assert_eq!(least.dot(least), i64::MAX);
    assert_eq!(least.dot(Vec2::new(i64::MAX, i64::MAX)), i64::MIN);
    assert_eq!(Vec2::new(i64::MIN, 0).dot(Vec2::new(i64::MIN, 0)), i64::MAX);
    assert_eq!(Vec2::new(i64::MIN, i64::MIN).dot(Vec2::new(i64::MIN, i64::MAX)), 9_223_372_036_854);
}

#[test]
fn lengths_are_rounded_down() {
    assert_eq!(Vec2::new(3_000_000, 4_000_000).norm(), 5_000_000);
    assert_eq!(Vec2::new(3_000_000, 4_000_000).norm_squared(), 25_000_000_000_000);
    assert_eq!(Vec2::new(1, 1).norm(), 1);
    assert_eq!(Vec2::new(-1_000_000, 1_000_000).norm(), 1_414_213);
    assert_eq!(Vec2::zero().norm(), 0);
    assert_eq!(Vec2::new(i64::MIN, 0).norm(), 1u64 << 63);
    assert_eq!(Vec2::new(i64::MIN, i64::MIN).norm(), 13_043_817_825_332_782_212);
    assert_eq!(Vec2::new(i64::MIN, i64::MIN).norm_squared(), 1u128 << 127);
}

#[test]
fn normalizing_keeps_the_direction() {
    assert_eq!(Vec2::new(3_000_000, 4_000_000).normalized(1), Vec2::new(600_000, 800_000));
    assert_eq!(Vec2::new(-30, 40).normalized(1), Vec2::new(-600_000, 800_000));
    assert_eq!(Vec2::new(0, -5).normalized(1), Vec2::new(0, -1_000_000));
    assert_eq!(Vec2::new(1_000_000, 1_000_000).normalized(1), Vec2::new(707_107, 707_107));
    assert_eq!(Vec2::new(i64::MAX, 0).normalized(1), Vec2::new(1_000_000, 0));
    assert_eq!(Vec2::new(i64::MIN, 0).normalized(1), Vec2::new(-1_000_000, 0));
    let diagonal = Vec2::new(i64::MIN, i64::MIN).normalized(1);
    assert_eq!(diagonal, Vec2::new(-707_106, -707_106));
}

#[test]
fn what_is_too_short_has_no_direction() {
    assert_eq!(Vec2::zero().normalized(0), Vec2::zero());
    assert_eq!(Vec2::zero().normalized(1), Vec2::zero());
    assert_eq!(Vec2::new(1, 0).normalized(1), Vec2::zero());
    assert_eq!(Vec2::new(1, 1).normalized(1), Vec2::zero());
    assert_eq!(Vec2::new(1, 0).normalized(0), Vec2::new(1_000_000, 0));
    assert_eq!(Vec2::new(2, 0).normalized(1), Vec2::new(1_000_000, 0));
    assert_eq!(Vec2::new(3_000_000, 4_000_000).normalized(5_000_000), Vec2::zero());
    assert_eq!(Vec2::new(3_000_000, 4_000_000).normalized(4_999_999), Vec2::new(600_000, 800_000));
    assert_eq!(Vec2::new(3_000_000, 4_000_000).normalized(u64::MAX), Vec2::zero());
}

#[test]
fn a_normalized_vector_of_some_length_has_length_one() {
    // The length is rounded down to a whole step before the division, so a
    // vector of a million steps or more comes out within a few millionths
    // of length one.
    let mut x: i64 = 1_000_003;
    let mut y: i64 = -3_000_001;
    for _ in 0..40 {
        let unit = Vec2::new(x, y).normalized(1);
        assert!(unit.x.abs() <= 1_000_000 && unit.y.abs() <= 1_000_000);
        assert_eq!(unit.x.signum(), x.signum());
        assert_eq!(unit.y.signum(), y.signum());
        let length = unit.norm();
        assert!(999_998 <= length && length <= 1_000_001, "{} {} gives {}", x, y, length);
        x = x.wrapping_mul(-3).wrapping_add(1);
        y = y.wrapping_mul(2).wrapping_sub(5);
    }
}

#[test]
fn a_very_short_vector_is_normalized_coarsely() {
    // the length of (1, -3) is rounded down to 3 steps
    assert_eq!(Vec2::new(1, -3).normalized(1), Vec2::new(333_333, -1_000_000));
}
