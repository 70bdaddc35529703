use cyber_top::fixed::{wide_product, Fixed, SCALE};
use cyber_top::sqrt::{isqrt, isqrt_ceil};
use cyber_top::stats::types::AngleRad;
use cyber_top::vector::Vec2;

fn v2(x: i64, y: i64) -> Vec2 {
    Vec2::new(Fixed(x), Fixed(y))
}

#[test]
fn fixed_constants_and_whole_numbers() {
    assert_eq!(SCALE, 1_000_000);
    assert_eq!(Fixed::zero(), Fixed(0));
    assert_eq!(Fixed::one(), Fixed(1_000_000));
    assert_eq!(Fixed::from_int(12), Fixed(12_000_000));
    assert_eq!(Fixed::from_int(-3), Fixed(-3_000_000));
    assert_eq!(Fixed::default(), Fixed(0));
}

#[test]
fn fixed_add_sub_saturate() {
    assert_eq!(Fixed(1_500_000).add(Fixed(2_250_000)), Fixed(3_750_000));
    assert_eq!(Fixed(1_500_000).sub(Fixed(2_250_000)), Fixed(-750_000));
    assert_eq!(Fixed(i64::MAX).add(Fixed(1)), Fixed(i64::MAX));
    assert_eq!(Fixed(i64::MIN).sub(Fixed(1)), Fixed(i64::MIN));
    assert_eq!(Fixed(i64::MIN).neg(), Fixed(i64::MAX));
    assert_eq!(Fixed(5).neg(), Fixed(-5));
}

#[test]
fn fixed_mul_rounds_toward_zero() {
    assert_eq!(Fixed(1_200_000).mul(Fixed(1_100_000)), Fixed(1_320_000));
    assert_eq!(Fixed(1).mul(Fixed(500_000)), Fixed(0));
    assert_eq!(Fixed(-1).mul(Fixed(500_000)), Fixed(0));
    assert_eq!(Fixed(-3).mul(Fixed(500_000)), Fixed(-1));
    assert_eq!(Fixed(3).mul(Fixed(500_000)), Fixed(1));
    assert_eq!(Fixed(i64::MAX).mul(Fixed(2_000_000)), Fixed(i64::MAX));
    assert_eq!(Fixed(i64::MIN).mul(Fixed(2_000_000)), Fixed(i64::MIN));
}

#[test]
fn fixed_div_rounds_toward_zero_and_saturates_on_zero() {
    assert_eq!(Fixed(1_000_000).div(Fixed(3_000_000)), Fixed(333_333));
    assert_eq!(Fixed(-1_000_000).div(Fixed(3_000_000)), Fixed(-333_333));
    assert_eq!(Fixed(1_000_000).div(Fixed(-3_000_000)), Fixed(-333_333));
    assert_eq!(Fixed(-1_000_000).div(Fixed(-3_000_000)), Fixed(333_333));
    assert_eq!(Fixed(1).div(Fixed(0)), Fixed(i64::MAX));
    assert_eq!(Fixed(-1).div(Fixed(0)), Fixed(i64::MIN));
    assert_eq!(Fixed(0).div(Fixed(0)), Fixed(0));
    assert_eq!(Fixed::from_ratio(1, 60), Fixed(16_666));
    assert_eq!(Fixed::from_ratio(1, 0), Fixed(i64::MAX));
}

#[test]
fn fixed_whole_number_factors() {
    assert_eq!(Fixed(300_000).mul_int(3), Fixed(900_000));
    assert_eq!(Fixed(i64::MAX).mul_int(2), Fixed(i64::MAX));
    assert_eq!(Fixed(600_000).div_int(2), Fixed(300_000));
    assert_eq!(Fixed(-7).div_int(2), Fixed(-3));
    assert_eq!(Fixed(7).div_int(-2), Fixed(-3));
    assert_eq!(Fixed(7).div_int(0), Fixed(i64::MAX));
    assert_eq!(Fixed(-7).div_int(0), Fixed(i64::MIN));
    assert_eq!(Fixed(0).div_int(0), Fixed(0));
}

#[test]
fn fixed_min_max_clamp_abs() {
    assert_eq!(Fixed(3).min(Fixed(5)), Fixed(3));
    assert_eq!(Fixed(3).max(Fixed(5)), Fixed(5));
    assert_eq!(Fixed(7).clamp(Fixed(0), Fixed(5)), Fixed(5));
    assert_eq!(Fixed(-7).clamp(Fixed(0), Fixed(5)), Fixed(0));
    assert_eq!(Fixed(3).clamp(Fixed(0), Fixed(5)), Fixed(3));
    // A lower bound above the upper bound: the upper bound wins.
    assert_eq!(Fixed(3).clamp(Fixed(0), Fixed(-1)), Fixed(-1));
    assert_eq!(Fixed(-4).abs(), Fixed(4));
    assert_eq!(Fixed(i64::MIN).abs(), Fixed(i64::MAX));
}

#[test]
fn wide_product_is_exact() {
    assert_eq!(wide_product(i64::MIN, i64::MIN), 1i128 << 126);
    assert_eq!(wide_product(-3, 7), -21);
}

#[test]
fn integer_square_roots() {
    assert_eq!(isqrt(0), 0);
    assert_eq!(isqrt(1), 1);
    assert_eq!(isqrt(15), 3);
    assert_eq!(isqrt(16), 4);
    assert_eq!(isqrt(17), 4);
    assert_eq!(isqrt(u128::MAX), u64::MAX);
    assert_eq!(isqrt_ceil(0), 0);
    assert_eq!(isqrt_ceil(15), 4);
    assert_eq!(isqrt_ceil(16), 4);
    assert_eq!(isqrt_ceil(17), 5);
    assert_eq!(isqrt_ceil(u128::MAX), 1u128 << 64);
}

#[test]
fn vector_sums_and_products() {
    let a = v2(3_000_000, 4_000_000);
    let b = v2(1_000_000, -2_000_000);
    assert_eq!(a.add(b), v2(4_000_000, 2_000_000));
    assert_eq!(a.sub(b), v2(2_000_000, 6_000_000));
    assert_eq!(a.neg(), v2(-3_000_000, -4_000_000));
    assert_eq!(a.scale(Fixed(500_000)), v2(1_500_000, 2_000_000));
    assert_eq!(a.dot(b), Fixed(-5_000_000));
    assert_eq!(a.norm_sq_wide(), 25_000_000_000_000u128);
    assert!(Vec2::zero().is_zero());
    assert!(!a.is_zero());
}

#[test]
fn vector_length_and_distance() {
    assert_eq!(v2(3_000_000, 4_000_000).length(), Fixed(5_000_000));
    assert_eq!(v2(1_000_000, 1_000_000).length(), Fixed(1_414_213));
    assert_eq!(Vec2::zero().length(), Fixed(0));
    assert_eq!(v2(i64::MIN, i64::MIN).length(), Fixed(i64::MAX));
    assert_eq!(v2(-500_000, 0).distance(v2(500_000, 0)), Fixed(1_000_000));
}

#[test]
fn vector_normalize_never_exceeds_unit_length() {
    assert_eq!(v2(3_000_000, 4_000_000).normalize_or_zero(), v2(600_000, 800_000));
    assert_eq!(v2(11_500_000, 0).normalize_or_zero(), v2(1_000_000, 0));
    assert_eq!(v2(0, -7).normalize_or_zero(), v2(0, -1_000_000));
    assert_eq!(Vec2::zero().normalize_or_zero(), Vec2::zero());
    let n = v2(1_000_000, 1_000_000).normalize_or_zero();
    assert_eq!(n, v2(707_106, 707_106));
    assert!(n.norm_sq_wide() <= 1_000_000_000_000u128);
    let big = v2(i64::MAX, i64::MIN).normalize_or_zero();
    assert!(big.norm_sq_wide() <= 1_000_000_000_000u128);
}

#[test]
fn vector_clamp_length_shortens_only_longer_vectors() {
    assert_eq!(
        v2(30_000_000, 40_000_000).clamp_length(Fixed(25_000_000)),
        v2(15_000_000, 20_000_000)
    );
    assert_eq!(
        v2(3_000_000, 4_000_000).clamp_length(Fixed(10_000_000)),
        v2(3_000_000, 4_000_000)
    );
    assert_eq!(v2(3_000_000, 4_000_000).clamp_length(Fixed(5_000_000)), v2(3_000_000, 4_000_000));
    assert_eq!(v2(3_000_000, 4_000_000).clamp_length(Fixed(0)), Vec2::zero());
    assert_eq!(v2(3_000_000, 4_000_000).clamp_length(Fixed(-1)), Vec2::zero());
    let c = v2(7_000_001, -9_000_003).clamp_length(Fixed(1_234_567));
    assert!(c.norm_sq_wide() <= 1_234_567u128 * 1_234_567u128);
}

#[test]
fn vector_reflection_mirrors_the_normal_component() {
    assert_eq!(v2(5_000_000, 0).reflected(v2(1_000_000, 0)), v2(-5_000_000, 0));
    assert_eq!(v2(3_000_000, -2_000_000).reflected(v2(0, 1_000_000)), v2(3_000_000, 2_000_000));
}

#[test]
fn angle_is_held_within_a_turn() {
    assert_eq!(AngleRad::new(Fixed(0)), AngleRad(Fixed(0)));
    assert_eq!(AngleRad::new(Fixed(6_283_185)), AngleRad(Fixed(0)));
    assert_eq!(AngleRad::new(Fixed(7_283_185)), AngleRad(Fixed(1_000_000)));
    assert_eq!(AngleRad::new(Fixed(-300_000)), AngleRad(Fixed(5_983_185)));
    assert_eq!(AngleRad(Fixed(6_000_000)).advance(Fixed(500_000)), AngleRad(Fixed(216_815)));
}

#[test]
fn angle_direction_is_exact_on_the_axes() {
    assert_eq!(AngleRad(Fixed(0)).direction(), v2(1_000_000, 0));
    assert_eq!(AngleRad(Fixed(1_570_796)).direction(), v2(0, 1_000_000));
    assert_eq!(AngleRad(Fixed(3_141_593)).direction(), v2(-1_000_000, 0));
    assert_eq!(AngleRad(Fixed(4_712_389)).direction(), v2(0, -1_000_000));
}

#[test]
fn angle_direction_follows_cosine_and_sine() {
    assert_eq!(AngleRad(Fixed(1_000_000)).direction(), v2(540_301, 841_471));
    assert_eq!(AngleRad(Fixed(785_398)).direction(), v2(707_107, 707_106));
    assert_eq!(AngleRad(Fixed(4_000_000)).direction(), v2(-653_643, -756_803));
    assert_eq!(AngleRad(Fixed(6_000_000)).direction(), v2(960_170, -279_414));
    let mut t: i64 = 0;
    while t < 6_283_185 {
        let d = AngleRad(Fixed(t)).direction();
        assert!(d.norm_sq_wide() <= 1_000_000_000_000u128);
        let x = (t as f64 / 1e6).cos();
        let y = (t as f64 / 1e6).sin();
        assert!((d.x.0 as f64 / 1e6 - x).abs() < 1e-5);
        assert!((d.y.0 as f64 / 1e6 - y).abs() < 1e-5);
        t += 10_007;
    }
}

#[test]
fn angle_cosine_is_held_within_one() {
    assert_eq!(AngleRad(Fixed(0)).cos(), Fixed(1_000_000));
    assert_eq!(AngleRad(Fixed(3_141_593)).cos(), Fixed(-1_000_000));
    assert_eq!(AngleRad(Fixed(523_599)).cos(), Fixed(866_026));
    assert_eq!(AngleRad(Fixed(1_570_796)).cos(), Fixed(0));
}
