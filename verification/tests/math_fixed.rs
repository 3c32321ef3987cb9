use bot_core::math::isqrt;
use bot_core::math::normalize_milli;
use bot_core::math::scale_div;
use bot_core::math::sqr_dist;
use bot_core::math::Vec3;

fn at(x: i64, y: i64, z: i64) -> Vec3 {
    Vec3 { x, y, z }
}

#[test]
fn integer_square_roots() {
    assert_eq!(isqrt(0), 0);
    assert_eq!(isqrt(1), 1);
    assert_eq!(isqrt(15), 3);
    assert_eq!(isqrt(16), 4);
    assert_eq!(isqrt(1_000_000), 1000);
    assert_eq!(isqrt(999_999), 999);
}

#[test]
fn squared_distances() {
    assert_eq!(sqr_dist(at(0, 0, 0), at(2000, 0, 0)), 4_000_000);
    assert_eq!(sqr_dist(at(1, 2, 3), at(1, 2, 3)), 0);
    assert_eq!(sqr_dist(at(-1000, 0, 1000), at(0, 0, 0)), 2_000_000);
}

#[test]
fn milli_normalization() {
    // A 3-4-5 triangle scaled to milli-units.
    let d = normalize_milli(at(3000, 4000, 0)).unwrap();
    assert_eq!(d, at(600, 800, 0));
    assert!(normalize_milli(at(0, 0, 0)).is_none());
    let up = normalize_milli(at(0, 1, 0)).unwrap();
    assert_eq!(up, at(0, 1000, 0));
}

#[test]
fn scaled_division_truncates_toward_zero() {
    assert_eq!(scale_div(10, 200, 1000), 2);
    assert_eq!(scale_div(-10, 200, 1000), -2);
    assert_eq!(scale_div(9, 200, 1000), 1);
    assert_eq!(scale_div(-9, 200, 1000), -1);
    assert_eq!(scale_div(0, 200, 1000), 0);
}
