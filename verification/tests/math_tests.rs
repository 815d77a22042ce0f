use jumpy_core::math::{fx_add, fx_mul, fx_neg, fx_ratio, Vec2, SCALE};

#[test]
fn scale_is_one_thousand() {
    assert_eq!(SCALE, 1000);
}

#[test]
fn fx_mul_of_whole_units() {
    // 2.0 * 3.0 = 6.0
    assert_eq!(fx_mul(2000, 3000), 6000);
    // 1.5 * 0.5 = 0.75
    assert_eq!(fx_mul(1500, 500), 750);
    assert_eq!(fx_mul(0, 123_456), 0);
}

#[test]
fn fx_mul_rounds_toward_zero() {
    // 0.409 * 0.003 = 0.001227 -> 0.001
    assert_eq!(fx_mul(409, 3), 1);
    assert_eq!(fx_mul(-409, 3), -1);
    assert_eq!(fx_mul(409, -3), -1);
    assert_eq!(fx_mul(-409, -3), 1);
    // 0.999 * 0.001 rounds to nothing, from either side
    assert_eq!(fx_mul(999, 1), 0);
    assert_eq!(fx_mul(-999, 1), 0);
}

#[test]
fn fx_mul_saturates() {
    assert_eq!(fx_mul(i32::MAX, i32::MAX), i32::MAX);
    assert_eq!(fx_mul(i32::MIN, i32::MAX), i32::MIN);
    assert_eq!(fx_mul(i32::MIN, i32::MIN), i32::MAX);
    assert_eq!(fx_mul(i32::MAX, 1000), i32::MAX);
    assert_eq!(fx_mul(i32::MIN, 1000), i32::MIN);
}

#[test]
fn fx_add_saturates() {
    assert_eq!(fx_add(1, 2), 3);
    assert_eq!(fx_add(i32::MAX, 1), i32::MAX);
    assert_eq!(fx_add(i32::MIN, -1), i32::MIN);
    assert_eq!(fx_add(i32::MAX, i32::MIN), -1);
}

#[test]
fn fx_neg_mirrors_and_saturates() {
    assert_eq!(fx_neg(5), -5);
    assert_eq!(fx_neg(-5), 5);
    assert_eq!(fx_neg(0), 0);
    assert_eq!(fx_neg(i32::MIN), i32::MAX);
    assert_eq!(fx_neg(i32::MAX), -i32::MAX);
}

#[test]
fn fx_ratio_two_fifths() {
    assert_eq!(fx_ratio(1000, 2, 5), 400);
    assert_eq!(fx_ratio(-1000, 2, 5), -400);
    assert_eq!(fx_ratio(7, 2, 5), 2);
    assert_eq!(fx_ratio(-7, 2, 5), -2);
    assert_eq!(fx_ratio(i32::MAX, 3, 1), i32::MAX);
}

#[test]
fn vec2_mirrored_flips_only_x() {
    let v = Vec2::new(300, -200);
    assert_eq!(v.mirrored(true), Vec2 { x: -300, y: -200 });
    assert_eq!(v.mirrored(false), v);
    assert_eq!(v.mirrored(true).mirrored(true), v);
}

#[test]
fn vec2_scaled_scales_both() {
    let v = Vec2::new(409, 1021);
    assert_eq!(v.scaled(2000), Vec2 { x: 818, y: 2042 });
    assert_eq!(v.scaled(1000), v);
    assert_eq!(v.scaled(0), Vec2 { x: 0, y: 0 });
}

#[test]
fn vec2_extend_appends_depth() {
    let v = Vec2::new(1, 2).extend(3);
    assert_eq!((v.x, v.y, v.z), (1, 2, 3));
}
