//! The bit-pattern carriers: keys, classification, sign operations.
use real_float::ops::Signed;
use real_float::{
    Binary32, Binary64, Finite, InfiniteError, IsFinite, IsNan, NanError, NegativeError, NonNeg,
    Real, ToOrd,
};

fn b32(f: f32) -> Binary32 {
    Binary32::from_bits(f.to_bits())
}

fn b64(f: f64) -> Binary64 {
    Binary64::from_bits(f.to_bits())
}

#[test]
fn keys_of_known_binary32_values() {
    assert_eq!(b32(0.0).to_ord(), 0x8000_0000);
    assert_eq!(b32(-0.0).to_ord(), 0x8000_0000);
    assert_eq!(b32(1.0).to_ord(), 0xbf80_0000);
    assert_eq!(b32(-1.0).to_ord(), 0x407f_ffff);
    assert_eq!(b32(f32::INFINITY).to_ord(), 0xff80_0000);
    assert_eq!(b32(f32::NEG_INFINITY).to_ord(), 0x007f_ffff);
    assert_eq!(Binary32::from_bits(1).to_ord(), 0x8000_0001);
    assert_eq!(Binary32::from_bits(0x8000_0001).to_ord(), 0x7fff_fffe);
}

#[test]
fn keys_of_known_binary64_values() {
    assert_eq!(b64(0.0).to_ord(), 0x8000_0000_0000_0000);
    assert_eq!(b64(-0.0).to_ord(), 0x8000_0000_0000_0000);
    assert_eq!(b64(1.0).to_ord(), 0xbff0_0000_0000_0000);
    assert_eq!(b64(-1.0).to_ord(), 0x400f_ffff_ffff_ffff);
    assert_eq!(b64(f64::INFINITY).to_ord(), 0xfff0_0000_0000_0000);
    assert_eq!(b64(f64::NEG_INFINITY).to_ord(), 0x000f_ffff_ffff_ffff);
}

#[test]
fn keys_order_as_the_numbers_do() {
    let xs: [f32; 13] = [
        f32::NEG_INFINITY,
        f32::MIN,
        -1.0e30,
        -1.5,
        -1.0,
        -1.0e-40,
        0.0,
        1.0e-40,
        f32::MIN_POSITIVE,
        1.0,
        1.5,
        f32::MAX,
        f32::INFINITY,
    ];
    for a in xs {
        for b in xs {
            assert_eq!(b32(a).to_ord() < b32(b).to_ord(), a < b, "{a} < {b}");
            assert_eq!(b32(a).to_ord() == b32(b).to_ord(), a == b, "{a} == {b}");
            assert_eq!(b32(a).total_eq(b32(b)), a == b);
            let (a, b) = (a as f64, b as f64);
            assert_eq!(b64(a).to_ord() < b64(b).to_ord(), a < b, "{a} < {b}");
            assert_eq!(b64(a).total_eq(b64(b)), a == b);
        }
    }
    assert!(b64(f64::MIN).to_ord() < b64(-1.0e300).to_ord());
    assert!(b64(5.0e-324).to_ord() > b64(0.0).to_ord());
}

#[test]
fn zeros_share_one_key() {
    assert_eq!(b32(0.0).to_ord(), b32(-0.0).to_ord());
    assert_eq!(b64(0.0).to_ord(), b64(-0.0).to_ord());
    assert!(b32(0.0).total_eq(b32(-0.0)));
    assert!(b32(-0.0).total_eq(b32(0.0)));
    assert!(b64(0.0).total_eq(b64(-0.0)));
    assert!(!b32(0.0).total_eq(Binary32::from_bits(1)));
    assert!(!b64(-0.0).total_eq(Binary64::from_bits(0x8000_0000_0000_0001)));
}

#[test]
fn total_eq_is_key_equality_on_nan_patterns_too() {
    let a = Binary32::from_bits(0x7fc0_0000);
    let b = Binary32::from_bits(0x7fc0_0001);
    assert!(a.total_eq(a));
    assert!(!a.total_eq(b));
    assert_eq!(a.total_eq(b), a.to_ord() == b.to_ord());
}

#[test]
fn classification_follows_the_float() {
    let xs: [f32; 9] =
        [f32::NAN, -f32::NAN, f32::INFINITY, f32::NEG_INFINITY, 0.0, -0.0, 1.0, -1.0, 1.0e-40];
    for x in xs {
        assert_eq!(b32(x).is_nan(), x.is_nan());
        assert_eq!(b32(x).is_finite(), x.is_finite());
        assert_eq!(b32(x).is_sign_negative(), x.is_sign_negative());
        assert_eq!(b32(x).is_sign_positive(), x.is_sign_positive());
        let y = x as f64;
        assert_eq!(b64(y).is_nan(), y.is_nan());
        assert_eq!(b64(y).is_finite(), y.is_finite());
        assert_eq!(b64(y).is_sign_negative(), y.is_sign_negative());
        assert_eq!(b64(y).is_sign_positive(), y.is_sign_positive());
    }
}

#[test]
fn abs_and_signum_follow_the_float() {
    let xs: [f32; 7] = [f32::INFINITY, f32::NEG_INFINITY, 0.0, -0.0, 2.5, -2.5, 1.0e-40];
    for x in xs {
        assert_eq!(b32(x).abs().to_bits(), x.abs().to_bits());
        assert_eq!(b32(x).signum().to_bits(), x.signum().to_bits());
        let y = x as f64;
        assert_eq!(b64(y).abs().to_bits(), y.abs().to_bits());
        assert_eq!(b64(y).signum().to_bits(), y.signum().to_bits());
    }
    assert_eq!(b32(-2.5).abs().to_bits(), 0x4020_0000);
    assert_eq!(b32(-2.5).signum().to_bits(), 0xbf80_0000);
    assert_eq!(b64(2.5).signum().to_bits(), 0x3ff0_0000_0000_0000);
    assert!(b32(f32::NAN).signum().is_nan());
    assert!(b64(f64::NAN).signum().is_nan());
    assert!(b32(f32::NAN).abs().is_nan());
}

#[test]
fn nan_is_turned_down_by_every_rule() {
    for nan in [f32::NAN, -f32::NAN] {
        assert_eq!(Real::try_new(b32(nan)).unwrap_err(), NanError);
        assert_eq!(Finite::try_new(b32(nan)).unwrap_err(), InfiniteError);
        assert_eq!(NonNeg::try_new(b32(nan)).unwrap_err(), NegativeError);
    }
    assert!(Real::try_new(b64(f64::NAN)).is_err());
    assert!(Finite::try_new(b64(f64::NAN)).is_err());
    assert!(NonNeg::try_new(b64(f64::NAN)).is_err());
}

#[test]
fn infinities_under_each_rule() {
    assert!(Real::try_new(b32(f32::INFINITY)).is_ok());
    assert!(Real::try_new(b32(f32::NEG_INFINITY)).is_ok());
    assert_eq!(Finite::try_new(b32(f32::INFINITY)).unwrap_err(), InfiniteError);
    assert_eq!(Finite::try_new(b32(f32::NEG_INFINITY)).unwrap_err(), InfiniteError);
    assert!(NonNeg::try_new(b32(f32::INFINITY)).is_ok());
    assert_eq!(NonNeg::try_new(b32(f32::NEG_INFINITY)).unwrap_err(), NegativeError);
    assert!(Finite::try_new(b64(f64::INFINITY)).is_err());
    assert!(NonNeg::try_new(b64(f64::NEG_INFINITY)).is_err());
}

#[test]
fn minus_one_is_turned_down_by_non_neg_alone() {
    assert!(Real::try_new(b32(-1.0)).is_ok());
    assert!(Finite::try_new(b32(-1.0)).is_ok());
    assert_eq!(NonNeg::try_new(b32(-1.0)).unwrap_err(), NegativeError);
    assert!(NonNeg::try_new(b64(-1.0)).is_err());
    assert!(NonNeg::try_new(b32(-0.0)).is_err());
    assert!(NonNeg::try_new(b32(0.0)).is_ok());
}

#[test]
fn new_then_val_is_the_number() {
    for x in [0.0f32, -0.0, 1.0, -7.25, f32::MAX, f32::INFINITY] {
        assert_eq!(Real::new(b32(x)).val().to_bits(), x.to_bits());
        assert_eq!(Real::try_new(b32(x)).unwrap().val().to_bits(), x.to_bits());
    }
    for x in [0.0f64, 3.5, -3.5, f64::MIN_POSITIVE] {
        assert_eq!(Finite::new(b64(x)).val().to_bits(), x.to_bits());
    }
    for x in [0.0f64, 3.5, f64::INFINITY] {
        assert_eq!(NonNeg::new(b64(x)).val().to_bits(), x.to_bits());
    }
}

#[test]
fn sign_operations_stay_valid() {
    for x in [0.0f32, -0.0, 1.0, -7.25, f32::MAX, f32::MIN, 1.0e-40] {
        let v = Finite::new(b32(x));
        assert!(Finite::try_new(v.abs().val()).is_ok());
        assert!(Finite::try_new(v.signum().val()).is_ok());
        let v = Real::new(b32(x));
        assert!(Real::try_new(v.abs().val()).is_ok());
        assert!(Real::try_new(v.signum().val()).is_ok());
    }
    for x in [0.0f32, 1.0, f32::MAX, f32::INFINITY] {
        let v = NonNeg::new(b32(x));
        assert!(NonNeg::try_new(v.abs().val()).is_ok());
        assert!(NonNeg::try_new(v.signum().val()).is_ok());
        assert!(v.is_sign_positive());
        assert!(!v.is_sign_negative());
    }
}

#[test]
fn comparisons_of_bit_pattern_numbers() {
    let one = Real::new(b32(1.0));
    let two = Real::new(b32(2.0));
    assert!(one < two);
    assert!(two > one);
    assert!(one <= one);
    assert_eq!(one.cmp(&two), std::cmp::Ordering::Less);
    assert_eq!(two.cmp(&one), std::cmp::Ordering::Greater);
    assert_eq!(one.cmp(&one), std::cmp::Ordering::Equal);
    assert_eq!(one.partial_cmp(&b32(f32::NAN)), None);
    assert_eq!(one < b32(f32::NAN), false);
    assert_eq!(one >= b32(f32::NAN), false);
    assert_eq!(one.max(b32(2.0)).val().to_bits(), 2.0f32.to_bits());
    assert_eq!(one.max(b32(0.5)).val().to_bits(), 1.0f32.to_bits());
    assert_eq!(one.max(b32(f32::NAN)).val().to_bits(), 1.0f32.to_bits());
    assert_eq!(one.min(b32(0.5)).val().to_bits(), 0.5f32.to_bits());
    assert_eq!(one.min(b32(2.0)).val().to_bits(), 1.0f32.to_bits());
    assert_eq!(one.min(b32(f32::NAN)).val().to_bits(), 1.0f32.to_bits());
    // under Finite an infinite comparand is left out as NaN is
    let f = Finite::new(b32(1.0));
    assert_eq!(f.max(b32(f32::INFINITY)).val().to_bits(), 1.0f32.to_bits());
    assert_eq!(f.min(b32(f32::NEG_INFINITY)).val().to_bits(), 1.0f32.to_bits());
    assert_eq!(f < b32(f32::INFINITY), false);
}

#[test]
fn error_descriptions() {
    assert_eq!(NanError.description(), "encountered NaN unexpectedly");
    assert_eq!(InfiniteError.description(), "encountered infinity or NaN unexpectedly");
    assert_eq!(NegativeError.description(), "encountered a negative or NaN unexpectedly");
}

#[test]
fn negation_flips_the_sign_bit() {
    for x in [0.0f32, -0.0, 1.5, -1.5, f32::INFINITY, f32::MAX, 1.0e-40] {
        assert_eq!((-b32(x)).to_bits(), (-x).to_bits());
        assert_eq!((-(-b32(x))).to_bits(), x.to_bits());
        let y = x as f64;
        assert_eq!((-b64(y)).to_bits(), (-y).to_bits());
    }
    assert_eq!((-b32(1.0)).to_bits(), 0xbf80_0000);
    assert_eq!((-b64(1.0)).to_bits(), 0xbff0_0000_0000_0000);
    assert!((-b32(f32::NAN)).is_nan());
}

#[test]
fn negation_of_checked_bit_patterns() {
    let one = Real::new(b32(1.0));
    assert_eq!((-one).val().to_bits(), (-1.0f32).to_bits());
    assert_eq!(one.try_neg().unwrap().val().to_bits(), (-1.0f32).to_bits());
    assert!(-one < one);
    let two = Finite::new(b64(2.0));
    assert_eq!((-two).val().to_bits(), (-2.0f64).to_bits());
    assert!(-two < -Finite::new(b64(1.0)));
    assert!(-Finite::new(b64(0.0)) == Finite::new(b64(0.0)));
}

#[test]
fn default_pattern_is_positive_zero() {
    assert_eq!(Binary32::default().to_bits(), 0);
    assert_eq!(Binary64::default().to_bits(), 0);
    assert_eq!(Real::<Binary32>::default().val().to_bits(), 0.0f32.to_bits());
    assert!(NonNeg::try_new(Binary64::default()).is_ok());
}
