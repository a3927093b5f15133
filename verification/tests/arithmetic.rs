use particle_world::add;
use particle_world::units::{saturate, scale_product, LIMIT, UNITS_PER_ONE};

#[test]
fn it_works() {
    let result = add(2, 2);
    assert_eq!(result, 4);
}

#[test]
fn add_handles_negative_operands() {
    assert_eq!(add(-7, 3), -4);
    assert_eq!(add(i32::MAX, i32::MIN), -1);
    assert_eq!(add(0, 0), 0);
}

#[test]
fn one_whole_unit_is_a_thousand() {
    assert_eq!(UNITS_PER_ONE, 1000);
    assert_eq!(LIMIT, 1_000_000_000_000_000_000);
}

#[test]
fn saturate_keeps_values_within_the_limit() {
    assert_eq!(saturate(0), 0);
    assert_eq!(saturate(-5), -5);
    assert_eq!(saturate(LIMIT as i128), LIMIT);
    assert_eq!(saturate(-(LIMIT as i128)), -LIMIT);
    assert_eq!(saturate(123_456_789_012), 123_456_789_012);
}

#[test]
fn saturate_pins_values_beyond_the_limit() {
    assert_eq!(saturate(LIMIT as i128 + 1), LIMIT);
    assert_eq!(saturate(-(LIMIT as i128) - 1), -LIMIT);
    assert_eq!(saturate(i128::MAX), LIMIT);
    assert_eq!(saturate(i128::MIN), -LIMIT);
    assert_eq!(saturate(i64::MAX as i128), LIMIT);
    assert_eq!(saturate(i64::MIN as i128), -LIMIT);
}

#[test]
fn scale_product_of_whole_values() {
    // 2.0 * 3.0 = 6.0
    assert_eq!(scale_product(2000, 3000), 6000);
    // 1.5 * 0.016 = 0.024
    assert_eq!(scale_product(1500, 16), 24);
    assert_eq!(scale_product(0, 12345), 0);
    assert_eq!(scale_product(12345, 0), 0);
}

#[test]
fn scale_product_rounds_toward_zero() {
    assert_eq!(scale_product(1, 999), 0);
    assert_eq!(scale_product(-1, 999), 0);
    assert_eq!(scale_product(7, 500), 3);
    assert_eq!(scale_product(-7, 500), -3);
    assert_eq!(scale_product(-1500, 1000), -1500);
    assert_eq!(scale_product(-9600, 16), -153);
    assert_eq!(scale_product(9600, 16), 153);
}

#[test]
fn scale_product_of_extreme_values() {
    assert_eq!(
        scale_product(i64::MAX, i64::MAX),
        (i64::MAX as i128) * (i64::MAX as i128) / 1000
    );
    assert_eq!(
        scale_product(i64::MIN, i64::MAX),
        -((i64::MAX as i128 + 1) * (i64::MAX as i128) / 1000)
    );
    assert_eq!(
        scale_product(i64::MIN, i64::MIN),
        (i64::MAX as i128 + 1) * (i64::MAX as i128 + 1) / 1000
    );
}
