use fixed::types::I16F16;
use game_test::math::scalar::{FGWide, FGi32};
use game_test::math::segment::FGSegment2d;
use game_test::math::vec::FGVec2;
use game_test::math::vec3::FGVec3;

const EPS_FIXED_BITS: i32 = 4;

fn fx(v: f64) -> Option<FGi32> {
    I16F16::checked_from_num(v).map(|f| FGi32::from_bits(f.to_bits()))
}

#[test]
fn fixed_degrees_convert_to_radians() {
    assert_eq!(FGi32::lit("180").to_radians(), FGi32::lit("3.1415863037109375"));
}

#[test]
fn closest_point_projects_and_clamps_to_segment() {
    let segment = FGSegment2d::new(FGVec2::lit("-4", "0"), FGVec2::lit("4", "0"));

    assert_eq!(segment.closest_point(FGVec2::lit("2", "1")), FGVec2::lit("2", "0"));
    assert_eq!(segment.closest_point(FGVec2::lit("-6", "1")), segment.point1());
    assert_eq!(segment.closest_point(FGVec2::lit("6", "1")), segment.point2());
}

#[test]
fn segment_intersection_avoids_cross_product_overflow() {
    let segment = FGSegment2d::new(FGVec2::lit("56", "-3.5"), FGVec2::lit("56", "-200"));
    let rhs = FGSegment2d::new(
        FGVec2::lit("-111.26334", "-130.22586"),
        FGVec2::lit("-112.36334", "-133.02586"),
    );

    assert_eq!(segment.segment_intersection(&rhs), None);
}

#[test]
fn segment_intersection_handles_large_crossing_segments() {
    let horizontal = FGSegment2d::new(FGVec2::lit("-200", "0"), FGVec2::lit("200", "0"));
    let vertical = FGSegment2d::new(FGVec2::lit("0", "-200"), FGVec2::lit("0", "200"));

    assert_eq!(horizontal.segment_intersection(&vertical), Some(FGVec2::zero()));
}

#[test]
fn normalizes_small_axis_vector_without_losing_squared_precision() {
    let normalized = FGVec2::lit("0.01", "0").normalize().unwrap();

    assert_eq!(normalized, FGVec2::lit("1", "0"));
    assert!(normalized.is_normalized());
}

#[test]
fn measure_normalize_error_bound() {
    let mut max_abs_diff_bits: i32 = 0;
    let mut worst_case: Option<(f64, f64, i32)> = None;

    let angle_steps = 3600;
    let magnitudes: &[f64] = &[0.001, 0.01, 0.1, 0.5, 1.0, 2.0, 10.0, 100.0, 1000.0, 30000.0];

    for &mag in magnitudes {
        for i in 0..angle_steps {
            let theta = (i as f64) * std::f64::consts::TAU / (angle_steps as f64);
            let x = mag * theta.cos();
            let y = mag * theta.sin();

            let Some(fx_) = fx(x) else {
                continue;
            };
            let Some(fy_) = fx(y) else {
                continue;
            };

            let v = FGVec2 { x: fx_, y: fy_ };

            if let Some(normalized) = v.normalize() {
                let ls = normalized.length_squared().to_fx();
                let diff_bits = ls.to_bits() - FGi32::one().to_bits();
                let abs_diff_bits = diff_bits.abs();

                if abs_diff_bits > max_abs_diff_bits {
                    max_abs_diff_bits = abs_diff_bits;
                    worst_case = Some((x, y, abs_diff_bits));
                }
            }
        }
    }

    println!("Max |length_squared - 1.0| = {} raw bits, worst case: {:?}", max_abs_diff_bits, worst_case);
    assert!(max_abs_diff_bits <= EPS_FIXED_BITS);
}

#[test]
fn is_normalized_behaves_correctly() {
    let angle_steps = 360;
    for i in 0..angle_steps {
        let theta = (i as f64) * std::f64::consts::TAU / (angle_steps as f64);
        for &mag in &[0.01, 1.0, 100.0, 10000.0] {
            let x = mag * theta.cos();
            let y = mag * theta.sin();
            let Some(fx_) = fx(x) else {
                continue;
            };
            let Some(fy_) = fx(y) else {
                continue;
            };
            let v = FGVec2 { x: fx_, y: fy_ };

            if let Some(normalized) = v.normalize() {
                assert!(normalized.is_normalized(), "normalized({}, {}) failed is_normalized()", x, y);
            }
        }
    }

    let non_unit = FGVec2 { x: fx(2.0).unwrap(), y: fx(0.0).unwrap() };
    assert!(!non_unit.is_normalized());

    let non_unit_small = FGVec2 { x: fx(0.5).unwrap(), y: fx(0.0).unwrap() };
    assert!(!non_unit_small.is_normalized());
}

#[test]
fn dot_and_length_squared_use_wide_intermediates() {
    let vector = FGVec2::lit("200", "200");

    assert_eq!(vector.dot(vector), FGWide::from_bits(80_000i128 << 32));
    assert_eq!(vector.length_squared(), FGWide::from_bits(80_000i128 << 32));
}

#[test]
fn literals_round_to_nearest_bits() {
    assert_eq!(FGi32::lit("1.4").to_bits(), 91750);
    assert_eq!(FGi32::lit("-0.01").to_bits(), -655);
    assert_eq!(FGi32::lit("12.5").to_bits(), 819200);
    assert_eq!(FGi32::try_lit("not a number"), None);
    assert_eq!(FGi32::try_lit("40000"), None);
}

#[test]
fn multiplication_rounds_toward_negative_infinity() {
    let a = FGi32::from_bits(1);
    let half = FGi32::lit("0.5");
    assert_eq!(a.mul(half).to_bits(), 0);
    assert_eq!(FGi32::from_bits(-1).mul(half).to_bits(), -1);
    assert_eq!(FGi32::lit("1.5").mul(FGi32::lit("2")), FGi32::lit("3"));
}

#[test]
fn division_rounds_toward_zero() {
    assert_eq!(FGi32::from_bits(1).div(FGi32::lit("2")).to_bits(), 0);
    assert_eq!(FGi32::from_bits(-1).div(FGi32::lit("2")).to_bits(), 0);
    assert_eq!(FGi32::lit("7").div(FGi32::lit("2")), FGi32::lit("3.5"));
}

#[test]
fn floor_rounds_down() {
    assert_eq!(FGi32::lit("2.75").floor(), FGi32::lit("2"));
    assert_eq!(FGi32::lit("-2.25").floor(), FGi32::lit("-3"));
}

#[test]
fn wide_arithmetic_matches_the_fixed_crate() {
    let a = FGWide::from_fx(FGi32::lit("3"));
    let b = FGWide::from_fx(FGi32::lit("4"));
    assert_eq!(a.mul(b), FGWide::from_fx(FGi32::lit("12")));
    assert_eq!(b.div(a).to_fx(), FGi32::lit("1.3333282470703125"));
    assert_eq!(FGWide::from_fx(FGi32::lit("16")).sqrt(), FGWide::from_fx(FGi32::lit("4")));
    assert_eq!(FGWide::from_fx(FGi32::lit("2")).sqrt().bits, 6074000999);
}

#[test]
fn sin_cos_of_quarter_turn() {
    let (s, c) = FGi32::lit("1.5707963267948966").sin_cos();
    assert!((s.to_bits() - 65536).abs() <= 64);
    assert!(c.to_bits().abs() <= 64);
    let (s0, c0) = FGi32::zero().sin_cos();
    assert_eq!(s0.to_bits(), 0);
    assert!((c0.to_bits() - 65536).abs() <= 64);
}

#[test]
fn vector_length_and_distance() {
    let v = FGVec2::lit("3", "4");
    assert_eq!(v.length(), FGi32::lit("5"));
    assert_eq!(FGVec2::zero().distance(v), FGi32::lit("5"));
    assert_eq!(FGVec2::zero().normalize(), None);
    assert_eq!(FGVec2::zero().normalize_or_zero(), FGVec2::zero());
}

#[test]
fn vector3_normalizes_and_scales() {
    let v = FGVec3::lit("0", "0", "2");
    assert_eq!(v.normalized(), Some(FGVec3::lit("0", "0", "1")));
    assert_eq!(FGVec3::zero().normalized(), None);
    assert_eq!(v.scale(FGi32::lit("1.5")), FGVec3::lit("0", "0", "3"));
}

#[test]
fn a_pair_of_scalars_makes_a_vector() {
    let v = FGVec2::from((FGi32::lit("1.5"), FGi32::lit("-2")));
    assert_eq!(v, FGVec2::lit("1.5", "-2"));
}
