use std::cmp::Ordering;

use bounded_float::binary64::{clamp, eq, is_nan, lt, max, min, partial_cmp};
use bounded_float::unit::{BipolarFloat, UnipolarFloat};

fn u(v: f64) -> UnipolarFloat {
    UnipolarFloat::new(v.to_bits())
}

fn b(v: f64) -> BipolarFloat {
    BipolarFloat::new(v.to_bits())
}

fn num(bits: u64) -> f64 {
    f64::from_bits(bits)
}

#[test]
fn unipolar_new_keeps_values_in_range() {
    assert_eq!(num(u(0.3).val()), 0.3);
    assert_eq!(num(u(0.0).val()), 0.0);
    assert_eq!(num(u(1.0).val()), 1.0);
}

#[test]
fn unipolar_new_clamps_out_of_range() {
    assert_eq!(num(u(-0.2).val()), 0.0);
    assert_eq!(num(u(1.5).val()), 1.0);
    assert_eq!(num(u(f64::INFINITY).val()), 1.0);
    assert_eq!(num(u(f64::NEG_INFINITY).val()), 0.0);
}

#[test]
fn unipolar_new_maps_nan_to_zero() {
    assert_eq!(u(f64::NAN).val(), 0.0f64.to_bits());
}

#[test]
fn bipolar_new_keeps_values_in_range() {
    assert_eq!(num(b(-0.7).val()), -0.7);
    assert_eq!(num(b(-1.0).val()), -1.0);
    assert_eq!(num(b(1.0).val()), 1.0);
}

#[test]
fn bipolar_new_clamps_out_of_range() {
    assert_eq!(num(b(-3.0).val()), -1.0);
    assert_eq!(num(b(2.5).val()), 1.0);
    assert_eq!(num(b(f64::NEG_INFINITY).val()), -1.0);
}

#[test]
fn bipolar_new_maps_nan_to_lower_bound() {
    assert_eq!(num(b(f64::NAN).val()), -1.0);
}

#[test]
fn new_is_idempotent() {
    for v in [-2.0, -1.0, -0.4, -0.0, 0.0, 0.25, 0.999, 1.0, 7.5, f64::NAN] {
        let once = u(v);
        assert_eq!(UnipolarFloat::new(once.val()).val(), once.val());
        let once = b(v);
        assert_eq!(BipolarFloat::new(once.val()).val(), once.val());
    }
}

#[test]
fn bipolar_abs_is_unipolar() {
    assert!(b(-0.7).abs() == u(0.7));
    assert_eq!(num(b(0.25).abs().val()), 0.25);
    assert_eq!(num(b(-1.0).abs().val()), 1.0);
}

#[test]
fn bipolar_invert_negates() {
    assert_eq!(num(b(0.4).invert().val()), -0.4);
    assert_eq!(num(b(-1.0).invert().val()), 1.0);
    assert!(b(0.0).invert() == b(0.0));
}

#[test]
fn bipolar_invert_if_flips_only_when_asked() {
    assert!(b(0.4).invert_if(true) == b(-0.4));
    assert!(b(0.4).invert_if(false) == b(0.4));
    assert!(b(0.4).invert_if(true) != b(0.4));
}

#[test]
fn saturating_sum_clamps() {
    assert!(u(0.9 + 0.5) == u(1.0));
    assert_eq!(num(u(0.9 + 0.5).val()), 1.0);
}

#[test]
fn saturating_difference_clamps() {
    assert!(b(-0.9 - 0.5) == b(-1.0));
    assert!(u(0.2 - 0.5) == UnipolarFloat::zero());
}

#[test]
fn constants_and_default() {
    assert_eq!(num(UnipolarFloat::zero().val()), 0.0);
    assert_eq!(num(UnipolarFloat::one().val()), 1.0);
    assert_eq!(num(BipolarFloat::zero().val()), 0.0);
    assert_eq!(num(BipolarFloat::one().val()), 1.0);
    assert!(UnipolarFloat::default() == UnipolarFloat::zero());
    assert!(BipolarFloat::default() == BipolarFloat::zero());
}

#[test]
fn ordering_follows_the_numbers() {
    assert_eq!(u(0.2).partial_cmp(&u(0.7)), Some(Ordering::Less));
    assert_eq!(b(-0.2).partial_cmp(&b(-0.7)), Some(Ordering::Greater));
    assert_eq!(b(-0.0).partial_cmp(&b(0.0)), Some(Ordering::Equal));
    assert!(b(-0.5) < b(0.1));
    assert!(u(1.0) > u(0.99));
}

#[test]
fn encoding_comparisons_match_floats() {
    let vals = [
        f64::NEG_INFINITY,
        -3.5,
        -1.0,
        -1e-300,
        -0.0,
        0.0,
        5e-324,
        0.5,
        1.0,
        2.0,
        f64::INFINITY,
        f64::NAN,
    ];
    for x in vals {
        assert_eq!(is_nan(x.to_bits()), x.is_nan());
        for y in vals {
            assert_eq!(lt(x.to_bits(), y.to_bits()), x < y);
            assert_eq!(eq(x.to_bits(), y.to_bits()), x == y);
            assert_eq!(partial_cmp(x.to_bits(), y.to_bits()), x.partial_cmp(&y));
            let m = num(max(x.to_bits(), y.to_bits()));
            let n = num(min(x.to_bits(), y.to_bits()));
            if x.is_nan() && y.is_nan() {
                assert!(m.is_nan() && n.is_nan());
            } else {
                assert_eq!(m, x.max(y));
                assert_eq!(n, x.min(y));
            }
        }
    }
}

#[test]
fn clamp_saturates_to_bounds() {
    let lo = (-0.5f64).to_bits();
    let hi = 0.5f64.to_bits();
    assert_eq!(num(clamp(0.75f64.to_bits(), lo, hi)), 0.5);
    assert_eq!(num(clamp((-0.75f64).to_bits(), lo, hi)), -0.5);
    assert_eq!(num(clamp(0.125f64.to_bits(), lo, hi)), 0.125);
    assert_eq!(num(clamp(f64::NAN.to_bits(), lo, hi)), -0.5);
}
