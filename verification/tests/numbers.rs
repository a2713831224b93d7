use credit_defense::numeric::{
    advance, advance_scaled, isqrt, magnitude, retreat, saturate_i32, saturate_i64, scaled_ratio,
};
use credit_defense::vector::{direction_toward, Vector};

#[test]
fn isqrt_of_small_numbers() {
    let expected: [u64; 17] = [0, 1, 1, 1, 2, 2, 2, 2, 2, 3, 3, 3, 3, 3, 3, 3, 4];
    for n in 0..17u128 {
        assert_eq!(isqrt(n), expected[n as usize]);
    }
    assert_eq!(isqrt(99), 9);
    assert_eq!(isqrt(100), 10);
}

#[test]
fn isqrt_of_large_numbers() {
    assert_eq!(isqrt(1_000_000_000_000_000_000_000_000), 1_000_000_000_000);
    assert_eq!(isqrt(999_999_999_999_999_999_999_999), 999_999_999_999);
    assert_eq!(isqrt(u128::MAX), u64::MAX);
    assert_eq!(isqrt(2_000_000_000_000), 1_414_213);
}

#[test]
fn saturate_stops_at_the_ends() {
    assert_eq!(saturate_i64(i128::MAX), i64::MAX);
    assert_eq!(saturate_i64(i128::MIN), i64::MIN);
    assert_eq!(saturate_i64(-17), -17);
    assert_eq!(saturate_i64(i64::MAX as i128 + 1), i64::MAX);
    assert_eq!(saturate_i32(i32::MAX as i128 + 1), i32::MAX);
    assert_eq!(saturate_i32(i32::MIN as i128 - 1), i32::MIN);
    assert_eq!(saturate_i32(2800), 2800);
}

#[test]
fn advance_integrates_exactly() {
    assert_eq!(advance(5, 3, 2), 11);
    assert_eq!(advance(0, -200, 16_667), -3_333_400);
    assert_eq!(advance(i64::MAX, 1, 1), i64::MAX);
    assert_eq!(advance(i64::MIN, -1, u32::MAX), i64::MIN);
    assert_eq!(advance(7, i64::MAX, 0), 7);
}

#[test]
fn advance_scaled_integrates_exactly() {
    assert_eq!(advance_scaled(0, 600_000, 300, 10_000), 1_800_000_000_000);
    assert_eq!(advance_scaled(1, -1, 200_000_000, 1_000_000), -199_999_999_999_999);
    assert_eq!(advance_scaled(0, i64::MAX, u32::MAX, u32::MAX), i64::MAX);
    assert_eq!(advance_scaled(0, i64::MIN, u32::MAX, u32::MAX), i64::MIN);
}

#[test]
fn retreat_takes_a_step_several_times() {
    assert_eq!(retreat(100, 10, 3), 70);
    assert_eq!(retreat(100, 10, 0), 100);
    assert_eq!(retreat(100, -10, 3), 130);
    assert_eq!(retreat(i64::MIN, 10, 1), i64::MIN);
    assert_eq!(retreat(i64::MAX, i64::MIN, u64::MAX), i64::MAX);
    assert_eq!(retreat(i64::MIN, i64::MAX, u64::MAX), i64::MIN);
}

#[test]
fn scaled_ratio_rounds_toward_zero() {
    assert_eq!(scaled_ratio(70, 1_000_000, 100), 700_000);
    assert_eq!(scaled_ratio(-70, 1_000_000, 100), -700_000);
    assert_eq!(scaled_ratio(70, 1_000_000, -100), -700_000);
    assert_eq!(scaled_ratio(-70, 1_000_000, -100), 700_000);
    assert_eq!(scaled_ratio(1, 1_000_000, 3), 333_333);
    assert_eq!(scaled_ratio(-1, 1_000_000, 3), -333_333);
    assert_eq!(scaled_ratio(2, 1_000_000, 3), 666_666);
    assert_eq!(scaled_ratio(0, 1_000_000, -3), 0);
}

#[test]
fn scaled_ratio_by_zero_is_zero() {
    assert_eq!(scaled_ratio(70, 1_000_000, 0), 0);
    assert_eq!(scaled_ratio(-70, 1_000_000, 0), 0);
}

#[test]
fn scaled_ratio_stops_at_the_ends() {
    assert_eq!(scaled_ratio(i64::MAX, 1_000_000, 1), i64::MAX);
    assert_eq!(scaled_ratio(i64::MIN, 1_000_000, 1), i64::MIN);
    assert_eq!(scaled_ratio(i64::MIN, 1, -1), i64::MAX);
    assert_eq!(scaled_ratio(i64::MIN, 1_000_000, i64::MIN), 1_000_000);
}

#[test]
fn magnitude_drops_the_sign() {
    assert_eq!(magnitude(0), 0);
    assert_eq!(magnitude(-5), 5);
    assert_eq!(magnitude(5), 5);
    assert_eq!(magnitude(i64::MIN), 9_223_372_036_854_775_808);
}

#[test]
fn direction_of_a_three_four_five_triangle() {
    let from = Vector::new(0, 0);
    assert_eq!(direction_toward(from, Vector::new(3, 4)), Vector::new(600_000, 800_000));
    assert_eq!(direction_toward(from, Vector::new(-3, 4)), Vector::new(-600_000, 800_000));
    assert_eq!(direction_toward(from, Vector::new(3, -4)), Vector::new(600_000, -800_000));
    assert_eq!(direction_toward(Vector::new(10, 10), Vector::new(7, 6)), Vector::new(-600_000, -800_000));
}

#[test]
fn direction_along_an_axis_is_the_full_scale() {
    let from = Vector::new(5, 5);
    assert_eq!(direction_toward(from, Vector::new(1_000_005, 5)), Vector::new(1_000_000, 0));
    assert_eq!(direction_toward(from, Vector::new(5, -1_000_000)), Vector::new(0, -1_000_000));
}

#[test]
fn direction_to_the_same_point_is_zero() {
    let here = Vector::new(-50_000_000_000_000, -300_000_000_000_000);
    assert_eq!(direction_toward(here, here), Vector::origin());
}

#[test]
fn direction_along_a_diagonal_rounds_toward_zero() {
    let from = Vector::new(0, 0);
    let to = Vector::new(1_000_000_000_000, -1_000_000_000_000);
    // the length is 1_414_213_562_373 (rounded down), and 10^18 / that is 707_106.78...
    assert_eq!(direction_toward(from, to), Vector::new(707_106, -707_106));
}

#[test]
fn direction_between_the_far_corners_of_the_range() {
    let from = Vector::new(i64::MIN, i64::MIN);
    let to = Vector::new(i64::MAX, i64::MAX);
    // each difference is narrowed to i64::MAX first
    assert_eq!(direction_toward(from, to), Vector::new(707_106, 707_106));
    assert_eq!(direction_toward(to, from), Vector::new(-707_106, -707_106));
}

#[test]
fn direction_of_a_short_diagonal_is_a_unit_vector() {
    let from = Vector::new(0, 0);
    assert_eq!(direction_toward(from, Vector::new(1, 1)), Vector::new(707_106, 707_106));
    assert_eq!(direction_toward(from, Vector::new(-1, 1)), Vector::new(-707_106, 707_106));
    assert_eq!(direction_toward(from, Vector::new(1000, 1000)), Vector::new(707_106, 707_106));
    assert_eq!(direction_toward(from, Vector::new(1000, -1000)), Vector::new(707_106, -707_106));
    assert_eq!(direction_toward(Vector::new(5, 5), Vector::new(4, 4)), Vector::new(-707_106, -707_106));
}

#[test]
fn direction_of_a_short_offset_is_a_unit_vector() {
    let from = Vector::new(0, 0);
    // 1 / sqrt(5) = 0.4472135..., 2 / sqrt(5) = 0.8944271...
    assert_eq!(direction_toward(from, Vector::new(1, 2)), Vector::new(447_213, 894_427));
    // 1 / sqrt(10) = 0.3162277..., 3 / sqrt(10) = 0.9486832...
    assert_eq!(direction_toward(from, Vector::new(-3, 1)), Vector::new(-948_683, 316_227));
    // 7 / sqrt(113) = 0.6585046..., 8 / sqrt(113) = 0.7525766...
    assert_eq!(direction_toward(from, Vector::new(7, -8)), Vector::new(658_504, -752_576));
    assert_eq!(direction_toward(from, Vector::new(0, 1)), Vector::new(0, 1_000_000));
    assert_eq!(direction_toward(from, Vector::new(-1, 0)), Vector::new(-1_000_000, 0));
}

#[test]
fn every_direction_has_unit_length() {
    let offsets = [
        1i64, -1, 2, 3, -7, 10, 999, 1000, -1001, 123_456, 1_000_000, -70_710_678,
        1_000_000_000_000, -300_000_000_000_000, i64::MAX, i64::MIN,
    ];
    for dx in offsets {
        for dy in offsets {
            for from in [Vector::new(0, 0), Vector::new(-5, 9)] {
                let to = Vector::new(from.x.saturating_add(dx), from.y.saturating_add(dy));
                let d = direction_toward(from, to);
                let length_squared = d.x as i128 * d.x as i128 + d.y as i128 * d.y as i128;
                assert!(length_squared <= 1_000_000 * 1_000_000);
                assert!(length_squared >= 999_998 * 999_998);
                assert_eq!(d.x.signum(), (to.x as i128 - from.x as i128).signum() as i64 * (d.x != 0) as i64);
                assert_eq!(d.y.signum(), (to.y as i128 - from.y as i128).signum() as i64 * (d.y != 0) as i64);
            }
        }
    }
}

#[test]
fn direction_with_one_tiny_part() {
    let from = Vector::new(0, 0);
    // the small part is below one millionth of the length
    assert_eq!(direction_toward(from, Vector::new(1, 2_000_000)), Vector::new(0, 999_999));
    assert_eq!(direction_toward(from, Vector::new(1, 1_000_000)), Vector::new(0, 999_999));
    assert_eq!(direction_toward(from, Vector::new(1, 999_999)), Vector::new(1, 999_999));
}
