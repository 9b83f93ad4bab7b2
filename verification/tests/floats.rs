//! The checked types over a raw number that wraps `f32`.
use real_float::check::{Check, Checked};
use real_float::not_nan::NotNanRule;
use real_float::num::{
    finite_from_cast, finite_from_parsed, real_from_cast, real_from_parsed, real_is_nan,
};
use real_float::ops::{Exp, Pow, Round, Signed, Trig};
use real_float::{
    Binary32, Finite, FromStrError, InfiniteError, IntoInner, IsFinite, IsNan, NanError,
    NegativeError, NonNeg, Real, ToOrd, STRICT,
};
use std::f32::consts::{FRAC_1_SQRT_2, PI};
use std::ops::{Add, Div, Mul, Neg, Rem, Sub};

#[derive(Clone, Copy, Debug, Default)]
struct F(f32);

impl IsNan for F {
    fn is_nan_spec(self) -> bool {
        self.0.is_nan()
    }
    fn is_nan(self) -> bool {
        self.0.is_nan()
    }
}

impl IsFinite for F {
    fn is_finite_spec(self) -> bool {
        self.0.is_finite()
    }
    fn is_finite(self) -> bool {
        self.0.is_finite()
    }
}

impl ToOrd for F {
    fn ord_spec(self) -> u64 {
        Binary32::from_bits(self.0.to_bits()).to_ord()
    }
    fn to_ord(self) -> u64 {
        Binary32::from_bits(self.0.to_bits()).to_ord()
    }
    fn total_eq(self, rhs: Self) -> bool {
        Binary32::from_bits(self.0.to_bits()).total_eq(Binary32::from_bits(rhs.0.to_bits()))
    }
}

impl Signed for F {
    fn abs_spec(self) -> Self {
        F(self.0.abs())
    }
    fn signum_spec(self) -> Self {
        F(self.0.signum())
    }
    fn is_sign_negative_spec(self) -> bool {
        self.0.is_sign_negative()
    }
    fn abs(self) -> Self {
        F(self.0.abs())
    }
    fn signum(self) -> Self {
        F(self.0.signum())
    }
    fn is_sign_positive(self) -> bool {
        self.0.is_sign_positive()
    }
    fn is_sign_negative(self) -> bool {
        self.0.is_sign_negative()
    }
}

impl Round for F {
    fn floor_spec(self) -> Self {
        F(self.0.floor())
    }
    fn ceil_spec(self) -> Self {
        F(self.0.ceil())
    }
    fn round_spec(self) -> Self {
        F(self.0.round())
    }
    fn trunc_spec(self) -> Self {
        F(self.0.trunc())
    }
    fn fract_spec(self) -> Self {
        F(self.0.fract())
    }
    fn floor(self) -> Self {
        F(self.0.floor())
    }
    fn ceil(self) -> Self {
        F(self.0.ceil())
    }
    fn round(self) -> Self {
        F(self.0.round())
    }
    fn trunc(self) -> Self {
        F(self.0.trunc())
    }
    fn fract(self) -> Self {
        F(self.0.fract())
    }
}

impl Pow for F {
    fn powf_spec(self, n: Self) -> Self {
        F(self.0.powf(n.0))
    }
    fn powi_spec(self, n: i32) -> Self {
        F(self.0.powi(n))
    }
    fn recip_spec(self) -> Self {
        F(self.0.recip())
    }
    fn sqrt_spec(self) -> Self {
        F(self.0.sqrt())
    }
    fn cbrt_spec(self) -> Self {
        F(self.0.cbrt())
    }
    fn hypot_spec(self, other: Self) -> Self {
        F(self.0.hypot(other.0))
    }
    fn powf(self, n: Self) -> Self {
        F(self.0.powf(n.0))
    }
    fn powi(self, n: i32) -> Self {
        F(self.0.powi(n))
    }
    fn recip(self) -> Self {
        F(self.0.recip())
    }
    fn sqrt(self) -> Self {
        F(self.0.sqrt())
    }
    fn cbrt(self) -> Self {
        F(self.0.cbrt())
    }
    fn hypot(self, other: Self) -> Self {
        F(self.0.hypot(other.0))
    }
}

impl Exp for F {
    fn exp_spec(self) -> Self {
        F(self.0.exp())
    }
    fn exp2_spec(self) -> Self {
        F(self.0.exp2())
    }
    fn exp_m1_spec(self) -> Self {
        F(self.0.exp_m1())
    }
    fn log_spec(self, base: Self) -> Self {
        F(self.0.log(base.0))
    }
    fn ln_spec(self) -> Self {
        F(self.0.ln())
    }
    fn log2_spec(self) -> Self {
        F(self.0.log2())
    }
    fn log10_spec(self) -> Self {
        F(self.0.log10())
    }
    fn ln_1p_spec(self) -> Self {
        F(self.0.ln_1p())
    }
    fn exp(self) -> Self {
        F(self.0.exp())
    }
    fn exp2(self) -> Self {
        F(self.0.exp2())
    }
    fn exp_m1(self) -> Self {
        F(self.0.exp_m1())
    }
    fn log(self, base: Self) -> Self {
        F(self.0.log(base.0))
    }
    fn ln(self) -> Self {
        F(self.0.ln())
    }
    fn log2(self) -> Self {
        F(self.0.log2())
    }
    fn log10(self) -> Self {
        F(self.0.log10())
    }
    fn ln_1p(self) -> Self {
        F(self.0.ln_1p())
    }
}

impl Trig for F {
    fn sin_spec(self) -> Self {
        F(self.0.sin())
    }
    fn cos_spec(self) -> Self {
        F(self.0.cos())
    }
    fn sin_cos_spec(self) -> (Self, Self) {
        let (s, c) = self.0.sin_cos();
        (F(s), F(c))
    }
    fn tan_spec(self) -> Self {
        F(self.0.tan())
    }
    fn asin_spec(self) -> Self {
        F(self.0.asin())
    }
    fn acos_spec(self) -> Self {
        F(self.0.acos())
    }
    fn atan_spec(self) -> Self {
        F(self.0.atan())
    }
    fn atan2_spec(self, other: Self) -> Self {
        F(self.0.atan2(other.0))
    }
    fn sin(self) -> Self {
        F(self.0.sin())
    }
    fn cos(self) -> Self {
        F(self.0.cos())
    }
    fn sin_cos(self) -> (Self, Self) {
        let (s, c) = self.0.sin_cos();
        (F(s), F(c))
    }
    fn tan(self) -> Self {
        F(self.0.tan())
    }
    fn asin(self) -> Self {
        F(self.0.asin())
    }
    fn acos(self) -> Self {
        F(self.0.acos())
    }
    fn atan(self) -> Self {
        F(self.0.atan())
    }
    fn atan2(self, other: Self) -> Self {
        F(self.0.atan2(other.0))
    }
}

impl Add for F {
    type Output = F;
    fn add(self, rhs: Self) -> Self {
        F(self.0 + rhs.0)
    }
}

impl Sub for F {
    type Output = F;
    fn sub(self, rhs: Self) -> Self {
        F(self.0 - rhs.0)
    }
}

impl Mul for F {
    type Output = F;
    fn mul(self, rhs: Self) -> Self {
        F(self.0 * rhs.0)
    }
}

impl Div for F {
    type Output = F;
    fn div(self, rhs: Self) -> Self {
        F(self.0 / rhs.0)
    }
}

impl Rem for F {
    type Output = F;
    fn rem(self, rhs: Self) -> Self {
        F(self.0 % rhs.0)
    }
}

impl Neg for F {
    type Output = F;
    fn neg(self) -> Self {
        F(-self.0)
    }
}

fn re(f: f32) -> Real<F> {
    Real::new(F(f))
}

fn fin(f: f32) -> Finite<F> {
    Finite::new(F(f))
}

fn nn(f: f32) -> NonNeg<F> {
    NonNeg::new(F(f))
}

/// Whether two never-NaN numbers lie within `f32::EPSILON` of each other.
fn close_re<R: IntoInner<F>>(l: Real<F>, r: R) -> bool {
    (l - r).abs() <= F(f32::EPSILON)
}

/// Whether two finite numbers lie within `f32::EPSILON` of each other.
fn close_fin<R: IntoInner<F>>(l: Finite<F>, r: R) -> bool {
    (l - r).abs() <= F(f32::EPSILON)
}

/// Whether two non-negative numbers lie within `f32::EPSILON` of each other.
fn close_nn<R: IntoInner<F>>(l: NonNeg<F>, r: R) -> bool {
    (l - r).abs() <= F(f32::EPSILON)
}

// ---- Real ----

#[test]
fn real_unchecked() {
    let r = Real::unchecked_new(F(f32::NAN));
    assert!(r.val().0.is_nan());
}

#[test]
fn real_assert_nan() {
    assert!(re(f32::INFINITY).try_add(F(f32::NEG_INFINITY)).is_err());
    assert!(re(f32::INFINITY).try_sub(F(f32::INFINITY)).is_err());
    assert!(re(0.0f32).try_mul(F(f32::INFINITY)).is_err());
    assert!(re(0.0f32).try_div(F(0.0)).is_err());
    assert!(re(f32::INFINITY).try_rem(F(1.0)).is_err());
    assert!(re(1.0f32).try_rem(F(0.0)).is_err());

    assert!(re(-1.0f32).try_sqrt().is_err());

    assert!(re(-1.0f32).try_log(F(3.0)).is_err());
    assert!(re(-1.0f32).try_ln().is_err());
    assert!(re(-1.0f32).try_log2().is_err());
    assert!(re(-1.0f32).try_log10().is_err());

    assert!(re(f32::INFINITY).try_sin().is_err());
    assert!(re(f32::INFINITY).try_cos().is_err());
    assert!(re(f32::INFINITY).try_tan().is_err());
}

#[test]
fn real_assert_ops() {
    assert_eq!(re(2.0f32) + F(1.0), re(3.0));
    assert_eq!(re(2.0f32) - F(1.0), re(1.0));
    assert_eq!(re(5.0f32) * F(2.0), re(10.0));
    assert_eq!(re(8.0f32) / F(2.0), re(4.0));
    assert_eq!(-re(1.0f32), re(-1.0));
}

#[test]
fn real_assert_cmp_weird() {
    assert!(re(f32::NEG_INFINITY) < re(-1.0));
    assert!(re(-1.0f32) < re(0.0));

    assert_eq!(re(0.0f32), re(0.0));
    assert_eq!(re(0.0f32), re(-0.0));
    assert_eq!(re(-0.0f32), re(0.0));
    assert_eq!(re(-0.0f32), re(-0.0));

    assert!(re(0.0) < re(1.0));
    assert!(re(1.0) < re(f32::INFINITY));

    assert_eq!(re(1.0) < F(f32::NAN), false);
    assert_eq!(re(1.0) >= F(f32::NAN), false);
}

#[test]
fn real_assert_pow() {
    assert_eq!(re(1000.0f32).powf(F(1000.0)), re(f32::INFINITY));
    assert_eq!(re(4.0f32).powf(F(3.5)), re(128.0));
    assert_eq!(re(2.0f32).powi(8), re(256.0));
    assert_eq!(re(2.0f32).recip(), re(0.5));
    assert_eq!(re(4.0f32).sqrt(), re(2.0));
    assert_eq!(re(27.0f32).cbrt(), re(3.0));
}

#[test]
fn real_assert_exp() {
    assert!(close_re(re(2.0f32).exp(), re(7.389_056)));
    assert!(close_re(re(3.0f32).exp2(), re(8.0)));
    assert!(close_re(re(5.0f32).exp_m1(), re(147.413_16)));
    assert!(close_re(re(16.0f32).log(F(4.0)), re(2.0)));
    assert!(close_re(re(1.0f32).ln(), re(0.0)));
    assert!(close_re(re(8.0f32).log2(), re(3.0)));
    assert!(close_re(re(1000.0f32).log10(), re(3.0)));
    assert!(close_re(re(147.413_16f32).ln_1p(), re(5.0)));
}

#[test]
fn real_assert_trig() {
    assert!(close_re(re(0.0f32).sin(), re(0.0)));
    assert!(close_re(re(PI / 4.0).sin(), re(FRAC_1_SQRT_2)));
    assert!(close_re(re(PI / 2.0).sin(), re(1.0)));

    assert!(close_re(re(0.0f32).cos(), re(1.0)));
    assert!(close_re(re(PI / 4.0).cos(), re(FRAC_1_SQRT_2)));
    assert!(close_re(re(PI / 2.0).cos(), F(0.0)));

    assert!(close_re(re(0.0f32).tan(), re(0.0)));
    assert!(close_re(re(PI / 4.0).tan(), re(1.0)));
    assert!(re(PI / 2.0 - f32::EPSILON).tan() > re(2_000_000.0)); // its big

    assert!(close_re(re(0.0f32).asin(), re(0.0)));
    assert!(close_re(re(FRAC_1_SQRT_2).asin(), re(PI / 4.0)));
    assert!(close_re(re(1.0f32).asin(), re(PI / 2.0)));

    assert!(close_re(re(0.0f32).acos(), re(PI / 2.0)));
    assert!(close_re(re(FRAC_1_SQRT_2).acos(), re(PI / 4.0)));
    assert!(close_re(re(1.0f32).acos(), re(0.0)));

    assert!(close_re(re(0.0f32).atan(), re(0.0)));
    assert!(close_re(re(1.0f32).atan(), re(PI / 4.0)));
    assert!(close_re(re(f32::INFINITY).atan(), re(PI / 2.0)));
}

// ---- Finite ----

#[test]
fn finite_unchecked() {
    let finite = Finite::unchecked_new(F(f32::INFINITY));
    assert!(finite.val().0.is_infinite());
}

#[test]
fn finite_assert_nan() {
    assert!(fin(f32::MAX).try_add(F(f32::MAX)).is_err());
    assert!(fin(f32::MIN).try_sub(F(f32::MAX)).is_err());
    assert!(fin(f32::MAX).try_mul(F(f32::MAX)).is_err());
    assert!(fin(1.0f32).try_div(F(0.0)).is_err());
    assert!(fin(1.0f32).try_div(F(-0.0)).is_err());
    assert!(fin(1.0f32).try_rem(F(0.0)).is_err());

    assert!(fin(1000.0f32).try_powf(F(1000.0)).is_err()); // overflows to infinity

    assert!(fin(-1.0f32).try_sqrt().is_err());

    assert!(fin(-1.0f32).try_log(F(3.0)).is_err());
    assert!(fin(-1.0f32).try_ln().is_err());
    assert!(fin(-1.0f32).try_log2().is_err());
    assert!(fin(-1.0f32).try_log10().is_err());
}

#[test]
fn finite_assert_ops() {
    assert_eq!(fin(2.0f32) + F(1.0), fin(3.0));
    assert_eq!(fin(2.0f32) - F(1.0), fin(1.0));
    assert_eq!(fin(5.0f32) * F(2.0), fin(10.0));
    assert_eq!(fin(8.0f32) / F(2.0), fin(4.0));
    assert_eq!(-fin(1.0f32), fin(-1.0));
}

#[test]
fn finite_assert_cmp_weird() {
    assert!(fin(-1.0f32) < fin(0.0));

    assert_eq!(fin(0.0f32), fin(0.0));
    assert_eq!(fin(0.0f32), fin(-0.0));
    assert_eq!(fin(-0.0f32), fin(0.0));
    assert_eq!(fin(-0.0f32), fin(-0.0));

    assert!(fin(0.0) < fin(1.0));

    assert_eq!(fin(1.0) < F(f32::NAN), false);
    assert_eq!(fin(1.0) >= F(f32::NAN), false);
}

#[test]
fn finite_assert_pow() {
    assert_eq!(fin(4.0f32).powf(F(3.5)), fin(128.0));
    assert_eq!(fin(2.0f32).powi(8), fin(256.0));
    assert_eq!(fin(2.0f32).recip(), fin(0.5));
    assert_eq!(fin(4.0f32).sqrt(), fin(2.0));
    assert_eq!(fin(27.0f32).cbrt(), fin(3.0));
}

#[test]
fn finite_assert_exp() {
    assert!(close_fin(fin(2.0f32).exp(), fin(7.389_056)));
    assert!(close_fin(fin(3.0f32).exp2(), fin(8.0)));
    assert!(close_fin(fin(5.0f32).exp_m1(), fin(147.413_16)));
    assert!(close_fin(fin(16.0f32).log(F(4.0)), fin(2.0)));
    assert!(close_fin(fin(1.0f32).ln(), fin(0.0)));
    assert!(close_fin(fin(8.0f32).log2(), fin(3.0)));
    assert!(close_fin(fin(1000.0f32).log10(), fin(3.0)));
    assert!(close_fin(fin(147.413_16f32).ln_1p(), fin(5.0)));
}

#[test]
fn finite_assert_trig() {
    assert!(close_fin(fin(0.0f32).sin(), fin(0.0)));
    assert!(close_fin(fin(PI / 4.0).sin(), fin(FRAC_1_SQRT_2)));
    assert!(close_fin(fin(PI / 2.0).sin(), fin(1.0)));

    assert!(close_fin(fin(0.0f32).cos(), fin(1.0)));
    assert!(close_fin(fin(PI / 4.0).cos(), fin(FRAC_1_SQRT_2)));
    assert!(close_fin(fin(PI / 2.0).cos(), F(0.0)));

    assert!(close_fin(fin(0.0f32).tan(), fin(0.0)));
    assert!(close_fin(fin(PI / 4.0).tan(), fin(1.0)));

    assert!(close_fin(fin(0.0f32).asin(), fin(0.0)));
    assert!(close_fin(fin(FRAC_1_SQRT_2).asin(), fin(PI / 4.0)));
    assert!(close_fin(fin(1.0f32).asin(), fin(PI / 2.0)));

    assert!(close_fin(fin(0.0f32).acos(), fin(PI / 2.0)));
    assert!(close_fin(fin(FRAC_1_SQRT_2).acos(), fin(PI / 4.0)));
    assert!(close_fin(fin(1.0f32).acos(), fin(0.0)));

    assert!(close_fin(fin(0.0f32).atan(), fin(0.0)));
    assert!(close_fin(fin(1.0f32).atan(), fin(PI / 4.0)));
}

// ---- NonNeg ----

#[test]
fn non_neg_unchecked() {
    let finite = NonNeg::unchecked_new(F(f32::INFINITY));
    assert!(finite.val().0.is_infinite());
}

#[test]
fn non_neg_assert_nan() {
    assert!(nn(f32::INFINITY).try_add(F(f32::NEG_INFINITY)).is_err());
    assert!(nn(f32::INFINITY).try_sub(F(f32::INFINITY)).is_err());
    assert!(nn(1.0f32).try_add(F(-2.0)).is_err());
    assert!(nn(1.0f32).try_sub(F(2.0)).is_err());
    assert!(nn(1.0f32).try_mul(F(-1.0)).is_err());
    assert!(nn(1.0f32).try_rem(F(0.0)).is_err());

    assert!(nn(0.5f32).try_log(F(3.0)).is_err());
    assert!(nn(0.5f32).try_ln().is_err());
    assert!(nn(0.5f32).try_log2().is_err());
    assert!(nn(0.5f32).try_log10().is_err());
}

#[test]
fn non_neg_assert_ops() {
    assert_eq!(nn(2.0f32) + F(1.0), nn(3.0));
    assert_eq!(nn(2.0f32) - F(1.0), nn(1.0));
    assert_eq!(nn(5.0f32) * F(2.0), nn(10.0));
    assert_eq!(nn(8.0f32) / F(2.0), nn(4.0));
}

#[test]
fn non_neg_assert_cmp_weird() {
    assert_eq!(nn(0.0f32), nn(0.0));
    assert_eq!(nn(0.0f32), Finite::new(F(-0.0)));

    assert!(nn(0.0) < nn(1.0));

    assert_eq!(nn(1.0) < F(f32::NAN), false);
    assert_eq!(nn(1.0) >= F(f32::NAN), false);
}

#[test]
fn non_neg_assert_pow() {
    assert_eq!(nn(4.0f32).powf(F(3.5)), nn(128.0));
    assert_eq!(nn(2.0f32).powi(8), nn(256.0));
    assert_eq!(nn(2.0f32).recip(), nn(0.5));
    assert_eq!(nn(4.0f32).sqrt(), nn(2.0));
    assert_eq!(nn(27.0f32).cbrt(), nn(3.0));
}

#[test]
fn non_neg_assert_exp() {
    assert!(close_nn(nn(2.0f32).exp(), nn(7.389_056)));
    assert!(close_nn(nn(3.0f32).exp2(), nn(8.0)));
    assert!(close_nn(nn(5.0f32).exp_m1(), nn(147.413_16)));
    assert!(close_nn(nn(16.0f32).log(F(4.0)), nn(2.0)));
    assert!(close_nn(nn(1.0f32).ln(), nn(0.0)));
    assert!(close_nn(nn(8.0f32).log2(), nn(3.0)));
    assert!(close_nn(nn(1000.0f32).log10(), nn(3.0)));
    assert!(close_nn(nn(147.413_16f32).ln_1p(), nn(5.0)));
}

// ---- scenarios ----

#[test]
fn finite_from_infinity_fails_and_one_is_one() {
    assert_eq!(Finite::try_new(F(f32::INFINITY)).unwrap_err(), InfiniteError);
    assert_eq!(Finite::try_new(F(1.0)).unwrap(), Finite::try_new(F(1.0)).unwrap());
    assert_eq!(Finite::try_new(F(1.0)).unwrap().val().0, 1.0);
}

#[test]
fn finite_division_by_zero_fails() {
    assert_eq!(fin(1.0).try_div(F(0.0)).unwrap_err(), InfiniteError);
}

#[test]
fn non_neg_square_root_and_negative_input() {
    assert_eq!(nn(4.0).sqrt(), nn(2.0));
    assert_eq!(nn(4.0).sqrt().val().0, 2.0);
    assert_eq!(NonNeg::try_new(F(-1.0)).unwrap_err(), NegativeError);
}

#[test]
fn real_power_may_overflow_to_infinity() {
    let r = re(1000.0).try_powf(F(1000.0)).unwrap();
    assert_eq!(r, re(f32::INFINITY));
    assert_eq!(re(1000.0).powf(F(1000.0)).val().0, f32::INFINITY);
}

#[test]
fn comparing_with_raw_nan_is_false() {
    assert_eq!(re(1.0) < F(f32::NAN), false);
    assert_eq!(re(1.0) > F(f32::NAN), false);
    assert_eq!(re(1.0) <= F(f32::NAN), false);
    assert_eq!(re(1.0) >= F(f32::NAN), false);
    assert_eq!(re(1.0).partial_cmp(&F(f32::NAN)), None);
    assert_eq!(re(1.0).partial_cmp(&F(2.0)), Some(std::cmp::Ordering::Less));
}

// ---- the three rules on floats ----

#[test]
fn try_new_on_special_floats() {
    assert!(Real::try_new(F(f32::NAN)).is_err());
    assert!(Finite::try_new(F(f32::NAN)).is_err());
    assert!(NonNeg::try_new(F(f32::NAN)).is_err());
    assert!(Real::try_new(F(f32::INFINITY)).is_ok());
    assert!(Real::try_new(F(f32::NEG_INFINITY)).is_ok());
    assert!(Finite::try_new(F(f32::NEG_INFINITY)).is_err());
    assert!(NonNeg::try_new(F(f32::INFINITY)).is_ok());
    assert!(NonNeg::try_new(F(f32::NEG_INFINITY)).is_err());
    assert!(Real::try_new(F(-1.0)).is_ok());
    assert!(Finite::try_new(F(-1.0)).is_ok());
    assert!(NonNeg::try_new(F(-1.0)).is_err());
}

#[test]
fn new_keeps_the_number() {
    for x in [0.0f32, -0.0, 1.5, -1.5, f32::MAX] {
        assert_eq!(re(x).val().0.to_bits(), x.to_bits());
        assert_eq!(fin(x).val().0.to_bits(), x.to_bits());
        let inner: F = re(x).into_inner();
        assert_eq!(inner.0.to_bits(), x.to_bits());
    }
    assert_eq!(nn(1.5).val().0, 1.5);
}

#[test]
fn unchecked_operations_stay_valid_on_finite_numbers() {
    for x in [0.0f32, -0.0, 1.5, -1.5, 2.5, -2.5, f32::MAX, f32::MIN, 1.0e-40] {
        let v = fin(x);
        for r in [v.floor(), v.ceil(), v.round(), v.trunc(), v.fract(), v.abs(), v.signum()] {
            assert!(Finite::try_new(r.val()).is_ok());
        }
        assert!(Finite::try_new(v.sin().val()).is_ok());
        assert!(Finite::try_new(v.cos().val()).is_ok());
        let (s, c) = v.sin_cos();
        assert!(Finite::try_new(s.val()).is_ok());
        assert!(Finite::try_new(c.val()).is_ok());
        assert!(Real::try_new(re(x).cbrt().val()).is_ok());
        assert!(Real::try_new(re(x).recip().val()).is_ok());
    }
    for x in [0.0f32, 1.5, 2.5, f32::MAX, f32::INFINITY] {
        let v = nn(x);
        for r in [v.floor(), v.ceil(), v.round(), v.trunc(), v.abs(), v.signum()] {
            assert!(NonNeg::try_new(r.val()).is_ok());
        }
        assert!(NonNeg::try_new(v.sqrt().val()).is_ok());
        assert!(NonNeg::try_new(v.cbrt().val()).is_ok());
        assert!(NonNeg::try_new(v.recip().val()).is_ok());
    }
}

#[test]
fn rounding_values() {
    assert_eq!(re(2.5).floor(), re(2.0));
    assert_eq!(re(2.5).ceil(), re(3.0));
    assert_eq!(re(2.5).round(), re(3.0));
    assert_eq!(re(-2.5).trunc(), re(-2.0));
    assert_eq!(re(2.5).fract(), re(0.5));
    assert_eq!(re(-2.5).abs(), re(2.5));
    assert_eq!(re(-2.5).signum(), re(-1.0));
    assert!(re(-2.5).is_sign_negative());
    assert!(re(2.5).is_sign_positive());
}

#[test]
fn min_and_max_leave_invalid_comparands_out() {
    assert_eq!(re(1.0).max(F(2.0)), re(2.0));
    assert_eq!(re(1.0).max(F(0.5)), re(1.0));
    assert_eq!(re(1.0).max(F(f32::NAN)), re(1.0));
    assert_eq!(re(1.0).min(F(0.5)), re(0.5));
    assert_eq!(re(1.0).min(F(2.0)), re(1.0));
    assert_eq!(re(1.0).min(F(f32::NAN)), re(1.0));
    assert_eq!(re(1.0).max(re(3.0)), re(3.0));
    assert_eq!(nn(1.0).min(F(-1.0)), nn(1.0));
    assert_eq!(fin(1.0).max(F(f32::INFINITY)), fin(1.0));
}

#[test]
fn assigning_operations() {
    let mut x = re(2.0);
    x.add_assign(F(1.0));
    assert_eq!(x, re(3.0));
    x.sub_assign(F(0.5));
    assert_eq!(x, re(2.5));
    x.mul_assign(F(4.0));
    assert_eq!(x, re(10.0));
    x.div_assign(F(4.0));
    assert_eq!(x, re(2.5));
    x.rem_assign(F(2.0));
    assert_eq!(x, re(0.5));
    let mut y = fin(7.0);
    y.rem_assign(fin(4.0));
    assert_eq!(y, fin(3.0));
}

#[test]
fn more_operations_with_exact_results() {
    assert_eq!(re(3.0).hypot(F(4.0)), re(5.0));
    assert_eq!(fin(3.0).try_hypot(F(4.0)).unwrap(), fin(5.0));
    assert_eq!(fin(7.0) % F(4.0), fin(3.0));
    assert_eq!(fin(7.0) % fin(4.0), fin(3.0));
    assert_eq!(re(1.5) + re(2.0), re(3.5));
    assert_eq!(fin(2.0).try_neg().unwrap(), fin(-2.0));
    assert_eq!(fin(0.0).try_recip().unwrap_err(), InfiniteError);
    assert_eq!(re(0.0).recip(), re(f32::INFINITY));
    assert_eq!(re(0.0).try_atan2(F(1.0)).unwrap(), re(0.0));
    let (s, c) = re(0.0).try_sin_cos().unwrap();
    assert_eq!(s, re(0.0));
    assert_eq!(c, re(1.0));
    assert!(re(f32::INFINITY).try_sin_cos().is_err());
    assert_eq!(re(-2.0).try_sqrt().unwrap_err(), NanError);
}

// ---- the engine itself ----

#[test]
fn engine_checks_and_wraps() {
    type C = Checked<F, NotNanRule>;
    assert!(C::try_new(F(f32::NAN)).is_err());
    let x = C::try_new(F(2.0)).unwrap();
    assert_eq!(x.val().0, 2.0);
    assert_eq!(C::unchecked_new(F(2.0)).val().0, 2.0);
    assert_eq!(x.try_add(F(1.0)).unwrap().val().0, 3.0);
    assert!(C::new(F(f32::INFINITY)).try_sub(F(f32::INFINITY)).is_err());
    assert_eq!((x + F(1.0)).val().0, 3.0);
    assert_eq!((x - F(1.0)).val().0, 1.0);
    assert_eq!((x * F(4.0)).val().0, 8.0);
    assert_eq!((x / F(4.0)).val().0, 0.5);
    assert_eq!((x % F(1.5)).val().0, 0.5);
    assert_eq!((-x).val().0, -2.0);
    let mut y = x;
    y.mul_assign(F(3.0));
    assert_eq!(y.val().0, 6.0);
    assert!(x < y);
    assert!(x == C::new(F(2.0)));
    assert!(x == F(2.0));
    assert_eq!(x.cmp(&y), std::cmp::Ordering::Less);
    assert_eq!(x.partial_cmp(&F(f32::NAN)), None);
    assert_eq!(x.max(F(5.0)).val().0, 5.0);
    assert_eq!(x.max(F(f32::NAN)).val().0, 2.0);
    assert_eq!(x.min(F(f32::NAN)).val().0, 2.0);
    assert_eq!(x.min(F(1.0)).val().0, 1.0);
    assert_eq!(C::new(F(-2.5)).abs().val().0, 2.5);
    assert_eq!(C::new(F(-2.5)).floor().val().0, -3.0);
    assert_eq!(C::new(F(4.0)).sqrt().val().0, 2.0);
    assert!(C::new(F(-4.0)).try_sqrt().is_err());
    assert_eq!(C::new(F(8.0)).log2().val().0, 3.0);
    let (s, c) = C::new(F(0.0)).sin_cos();
    assert_eq!((s.val().0, c.val().0), (0.0, 1.0));
    assert_eq!(NotNanRule::check(F(1.0)).unwrap().0, 1.0);
    assert!(NotNanRule::check(F(f32::NAN)).is_err());
}

// ---- after a parse or a cast ----

#[test]
fn reading_passes_parse_errors_on_and_checks_numbers() {
    let bad: Result<F, &str> = Err("no digits");
    match real_from_parsed(bad) {
        Err(FromStrError::Parse(e)) => assert_eq!(e, "no digits"),
        _ => panic!("the parser's error must be passed on"),
    }
    let nan: Result<F, &str> = Ok(F(f32::NAN));
    match real_from_parsed(nan) {
        Err(FromStrError::Check(e)) => assert_eq!(e, NanError),
        _ => panic!("NaN must be turned down"),
    }
    let one: Result<F, &str> = Ok(F(1.0));
    assert_eq!(real_from_parsed(one).unwrap(), re(1.0));

    let inf: Result<F, &str> = Ok(F(f32::INFINITY));
    assert_eq!(real_from_parsed(inf).unwrap(), re(f32::INFINITY));
    match finite_from_parsed(inf) {
        Err(FromStrError::Check(e)) => assert_eq!(e, InfiniteError),
        _ => panic!("infinity must be turned down"),
    }
    assert_eq!(finite_from_parsed(one).unwrap(), fin(1.0));
    match finite_from_parsed(bad) {
        Err(FromStrError::Parse(e)) => assert_eq!(e, "no digits"),
        _ => panic!("the parser's error must be passed on"),
    }
}

#[test]
fn read_error_prefixes() {
    let parse: FromStrError<&str, NanError> = FromStrError::Parse("x");
    let check: FromStrError<&str, NanError> = FromStrError::Check(NanError);
    assert_eq!(parse.prefix(), "error parsing float: ");
    assert_eq!(check.prefix(), "error checking float: ");
    assert_eq!(
        format!("{}{}", check.prefix(), NanError.description()),
        "error checking float: encountered NaN unexpectedly"
    );
}

#[test]
fn casts_give_nothing_for_invalid_numbers() {
    assert_eq!(real_from_cast(Some(F(2.0))).unwrap(), re(2.0));
    assert!(real_from_cast(Some(F(f32::NAN))).is_none());
    assert!(real_from_cast::<F>(None).is_none());
    assert_eq!(real_from_cast(Some(F(f32::INFINITY))).unwrap(), re(f32::INFINITY));
    assert_eq!(finite_from_cast(Some(F(2.0))).unwrap(), fin(2.0));
    assert!(finite_from_cast(Some(F(f32::INFINITY))).is_none());
    assert!(finite_from_cast(Some(F(f32::NAN))).is_none());
    assert!(finite_from_cast::<F>(None).is_none());
}

#[test]
fn strict_mode_answers_is_nan_without_looking() {
    assert!(STRICT);
    assert!(!real_is_nan(re(1.0)));
    assert!(!real_is_nan(Real::unchecked_new(F(f32::NAN))));
}

/// A rule of the test's own: only numbers between zero and one.
#[derive(Clone, Copy, Debug)]
struct UnitInterval;

#[derive(Clone, Copy, Debug, PartialEq)]
struct OutsideUnitInterval;

impl Check<F> for UnitInterval {
    type Error = OutsideUnitInterval;

    fn valid(val: F) -> bool {
        0.0 <= val.0 && val.0 <= 1.0
    }
    fn reason() -> OutsideUnitInterval {
        OutsideUnitInterval
    }
    fn check(val: F) -> Result<F, OutsideUnitInterval> {
        if 0.0 <= val.0 && val.0 <= 1.0 {
            Ok(val)
        } else {
            Err(OutsideUnitInterval)
        }
    }
}

#[test]
fn engine_under_a_rule_of_the_caller() {
    type P = Checked<F, UnitInterval>;
    let half = P::try_new(F(0.5)).unwrap();
    assert_eq!(P::try_new(F(1.5)).unwrap_err(), OutsideUnitInterval);
    assert_eq!(P::try_new(F(f32::NAN)).unwrap_err(), OutsideUnitInterval);
    assert_eq!(half.try_add(F(0.25)).unwrap().val().0, 0.75);
    assert_eq!(half.try_add(F(0.75)).unwrap_err(), OutsideUnitInterval);
    assert_eq!(half.try_powi(2).unwrap().val().0, 0.25);
    assert_eq!(half.try_neg().unwrap_err(), OutsideUnitInterval);
    // a comparand outside the interval is left out
    assert_eq!(half.max(F(2.0)).val().0, 0.5);
    assert_eq!(half.max(F(1.0)).val().0, 1.0);
    assert_eq!(half.min(F(-1.0)).val().0, 0.5);
    assert_eq!(half.partial_cmp(&F(2.0)), None);
    // the unchecked operations wrap what they get
    assert_eq!(P::unchecked_new(F(2.5)).floor().val().0, 2.0);
}

#[test]
fn defaults_wrap_the_default_of_the_raw_type() {
    assert_eq!(Real::<F>::default(), re(0.0));
    assert_eq!(Finite::<F>::default(), fin(0.0));
    assert_eq!(NonNeg::<F>::default(), nn(0.0));
    assert_eq!(Real::<F>::default().val().0.to_bits(), 0);
    assert_eq!(Checked::<F, NotNanRule>::default().val().0.to_bits(), 0);
}
