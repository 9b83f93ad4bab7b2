//! The operations that the checked types need of a raw number.
//!
//! Every method names its result by a spec function of the same trait, so an
//! implementation must be a function of its arguments alone: the same
//! numbers in, the same number out. Nothing more is asked of the results:
//! whether one is valid is for the checked types to find out.
//!
//! [`Binary32`] and [`Binary64`] have the operations that the bit pattern
//! alone decides: the classification, the sign operations and negation.
use std::ops::Neg;
use vstd::prelude::*;
use vstd::std_specs::ops::NegSpecImpl;
use crate::bits::{Binary32, Binary64};
use crate::bits::{INF32, INF64, MAGNITUDE32, MAGNITUDE64, SIGN32, SIGN64};
use crate::bits::{magnitude32, magnitude64, nan32, nan64, negative32, negative64};
use crate::finite::IsFinite;
use crate::not_nan::IsNan;

verus! {

/// Rounding to whole numbers.
pub trait Round: Sized + Copy {
    /// The largest whole number at or below `self`.
    spec fn floor_spec(self) -> Self;

    /// The smallest whole number at or above `self`.
    spec fn ceil_spec(self) -> Self;

    /// The nearest whole number; halfway cases go away from zero.
    spec fn round_spec(self) -> Self;

    /// The whole-number part of `self`.
    spec fn trunc_spec(self) -> Self;

    /// The fractional part of `self`.
    spec fn fract_spec(self) -> Self;

    fn floor(self) -> (r: Self)
        ensures
            r == self.floor_spec(),
    ;

    fn ceil(self) -> (r: Self)
        ensures
            r == self.ceil_spec(),
    ;

    fn round(self) -> (r: Self)
        ensures
            r == self.round_spec(),
    ;

    fn trunc(self) -> (r: Self)
        ensures
            r == self.trunc_spec(),
    ;

    fn fract(self) -> (r: Self)
        ensures
            r == self.fract_spec(),
    ;
}

/// The sign of a number.
pub trait Signed: Sized + Copy {
    /// The magnitude of `self`.
    spec fn abs_spec(self) -> Self;

    /// One with the sign of `self`.
    spec fn signum_spec(self) -> Self;

    /// Whether `self` carries a negative sign; negative zero and negative
    /// infinity do.
    spec fn is_sign_negative_spec(self) -> bool;

    fn abs(self) -> (r: Self)
        ensures
            r == self.abs_spec(),
    ;

    fn signum(self) -> (r: Self)
        ensures
            r == self.signum_spec(),
    ;

    fn is_sign_positive(self) -> (r: bool)
        ensures
            r == !self.is_sign_negative_spec(),
    ;

    fn is_sign_negative(self) -> (r: bool)
        ensures
            r == self.is_sign_negative_spec(),
    ;
}

/// Raising to a power, and the inverse operations.
pub trait Pow: Sized + Copy {
    /// `self` raised to the power `n`.
    spec fn powf_spec(self, n: Self) -> Self;

    /// `self` raised to the whole power `n`.
    spec fn powi_spec(self, n: i32) -> Self;

    /// The reciprocal, `1 / self`.
    spec fn recip_spec(self) -> Self;

    /// The square root.
    spec fn sqrt_spec(self) -> Self;

    /// The cube root.
    spec fn cbrt_spec(self) -> Self;

    /// The length of the hypotenuse over legs `self` and `other`.
    spec fn hypot_spec(self, other: Self) -> Self;

    fn powf(self, n: Self) -> (r: Self)
        ensures
            r == self.powf_spec(n),
    ;

    fn powi(self, n: i32) -> (r: Self)
        ensures
            r == self.powi_spec(n),
    ;

    fn recip(self) -> (r: Self)
        ensures
            r == self.recip_spec(),
    ;

    fn sqrt(self) -> (r: Self)
        ensures
            r == self.sqrt_spec(),
    ;

    fn cbrt(self) -> (r: Self)
        ensures
            r == self.cbrt_spec(),
    ;

    fn hypot(self, other: Self) -> (r: Self)
        ensures
            r == self.hypot_spec(other),
    ;
}

/// Exponentials and logarithms.
pub trait Exp: Sized + Copy {
    /// `e` raised to the power `self`.
    spec fn exp_spec(self) -> Self;

    /// 2 raised to the power `self`.
    spec fn exp2_spec(self) -> Self;

    /// `e^self - 1`, accurate near zero.
    spec fn exp_m1_spec(self) -> Self;

    /// The logarithm of `self` to `base`.
    spec fn log_spec(self, base: Self) -> Self;

    /// The natural logarithm.
    spec fn ln_spec(self) -> Self;

    /// The logarithm to base 2.
    spec fn log2_spec(self) -> Self;

    /// The logarithm to base 10.
    spec fn log10_spec(self) -> Self;

    /// `ln(1 + self)`, accurate near zero.
    spec fn ln_1p_spec(self) -> Self;

    fn exp(self) -> (r: Self)
        ensures
            r == self.exp_spec(),
    ;

    fn exp2(self) -> (r: Self)
        ensures
            r == self.exp2_spec(),
    ;

    fn exp_m1(self) -> (r: Self)
        ensures
            r == self.exp_m1_spec(),
    ;

    fn log(self, base: Self) -> (r: Self)
        ensures
            r == self.log_spec(base),
    ;

    fn ln(self) -> (r: Self)
        ensures
            r == self.ln_spec(),
    ;

    fn log2(self) -> (r: Self)
        ensures
            r == self.log2_spec(),
    ;

    fn log10(self) -> (r: Self)
        ensures
            r == self.log10_spec(),
    ;

    fn ln_1p(self) -> (r: Self)
        ensures
            r == self.ln_1p_spec(),
    ;
}

/// Trigonometric functions and their inverses, in radians.
pub trait Trig: Sized + Copy {
    /// The sine.
    spec fn sin_spec(self) -> Self;

    /// The cosine.
    spec fn cos_spec(self) -> Self;

    /// The sine and the cosine, in that order.
    spec fn sin_cos_spec(self) -> (Self, Self);

    /// The tangent.
    spec fn tan_spec(self) -> Self;

    /// The arcsine.
    spec fn asin_spec(self) -> Self;

    /// The arccosine.
    spec fn acos_spec(self) -> Self;

    /// The arctangent.
    spec fn atan_spec(self) -> Self;

    /// The four-quadrant arctangent of `self` (y) and `other` (x).
    spec fn atan2_spec(self, other: Self) -> Self;

    fn sin(self) -> (r: Self)
        ensures
            r == self.sin_spec(),
    ;

    fn cos(self) -> (r: Self)
        ensures
            r == self.cos_spec(),
    ;

    fn sin_cos(self) -> (r: (Self, Self))
        ensures
            r == self.sin_cos_spec(),
    ;

    fn tan(self) -> (r: Self)
        ensures
            r == self.tan_spec(),
    ;

    fn asin(self) -> (r: Self)
        ensures
            r == self.asin_spec(),
    ;

    fn acos(self) -> (r: Self)
        ensures
            r == self.acos_spec(),
    ;

    fn atan(self) -> (r: Self)
        ensures
            r == self.atan_spec(),
    ;

    fn atan2(self, other: Self) -> (r: Self)
        ensures
            r == self.atan2_spec(other),
    ;
}

/// One in binary32.
pub const ONE32: u32 = 0x3f80_0000;

/// One in binary64.
pub const ONE64: u64 = 0x3ff0_0000_0000_0000;

/// The quiet NaN of binary32 with an empty payload.
pub const NAN32: u32 = 0x7fc0_0000;

/// The quiet NaN of binary64 with an empty payload.
pub const NAN64: u64 = 0x7ff8_0000_0000_0000;

impl IsNan for Binary32 {
    open spec fn is_nan_spec(self) -> bool {
        nan32(self.bits)
    }

    fn is_nan(self) -> (r: bool) {
        (self.bits & MAGNITUDE32) > INF32
    }
}

impl IsNan for Binary64 {
    open spec fn is_nan_spec(self) -> bool {
        nan64(self.bits)
    }

    fn is_nan(self) -> (r: bool) {
        (self.bits & MAGNITUDE64) > INF64
    }
}

impl IsFinite for Binary32 {
    open spec fn is_finite_spec(self) -> bool {
        magnitude32(self.bits) < 0x7f80_0000u32
    }

    fn is_finite(self) -> (r: bool) {
        (self.bits & MAGNITUDE32) < INF32
    }
}

impl IsFinite for Binary64 {
    open spec fn is_finite_spec(self) -> bool {
        magnitude64(self.bits) < 0x7ff0_0000_0000_0000u64
    }

    fn is_finite(self) -> (r: bool) {
        (self.bits & MAGNITUDE64) < INF64
    }
}

impl Signed for Binary32 {
    /// The pattern with its sign bit cleared.
    open spec fn abs_spec(self) -> Self {
        Binary32 { bits: magnitude32(self.bits) }
    }

    /// NaN for NaN; for every other pattern, one under the pattern's sign.
    open spec fn signum_spec(self) -> Self {
        if nan32(self.bits) {
            Binary32 { bits: 0x7fc0_0000u32 }
        } else {
            Binary32 { bits: 0x3f80_0000u32 | (self.bits & 0x8000_0000u32) }
        }
    }

    open spec fn is_sign_negative_spec(self) -> bool {
        negative32(self.bits)
    }

    fn abs(self) -> (r: Self) {
        Binary32 { bits: self.bits & MAGNITUDE32 }
    }

    fn signum(self) -> (r: Self) {
        if self.is_nan() {
            Binary32 { bits: NAN32 }
        } else {
            Binary32 { bits: ONE32 | (self.bits & SIGN32) }
        }
    }

    fn is_sign_positive(self) -> (r: bool) {
        self.bits & SIGN32 == 0
    }

    fn is_sign_negative(self) -> (r: bool) {
        self.bits & SIGN32 != 0
    }
}

impl Signed for Binary64 {
    /// The pattern with its sign bit cleared.
    open spec fn abs_spec(self) -> Self {
        Binary64 { bits: magnitude64(self.bits) }
    }

    /// NaN for NaN; for every other pattern, one under the pattern's sign.
    open spec fn signum_spec(self) -> Self {
        if nan64(self.bits) {
            Binary64 { bits: 0x7ff8_0000_0000_0000u64 }
        } else {
            Binary64 { bits: 0x3ff0_0000_0000_0000u64 | (self.bits & 0x8000_0000_0000_0000u64) }
        }
    }

    open spec fn is_sign_negative_spec(self) -> bool {
        negative64(self.bits)
    }

    fn abs(self) -> (r: Self) {
        Binary64 { bits: self.bits & MAGNITUDE64 }
    }

    fn signum(self) -> (r: Self) {
        if self.is_nan() {
            Binary64 { bits: NAN64 }
        } else {
            Binary64 { bits: ONE64 | (self.bits & SIGN64) }
        }
    }

    fn is_sign_positive(self) -> (r: bool) {
        self.bits & SIGN64 == 0
    }

    fn is_sign_negative(self) -> (r: bool) {
        self.bits & SIGN64 != 0
    }
}

impl Neg for Binary32 {
    type Output = Binary32;

    /// The number with its sign bit flipped.
    fn neg(self) -> (r: Binary32) {
        Binary32 { bits: self.bits ^ SIGN32 }
    }
}

impl NegSpecImpl for Binary32 {
    open spec fn obeys_neg_spec() -> bool {
        true
    }

    open spec fn neg_req(self) -> bool {
        true
    }

    open spec fn neg_spec(self) -> Binary32 {
        Binary32 { bits: self.bits ^ 0x8000_0000u32 }
    }
}

impl Neg for Binary64 {
    type Output = Binary64;

    /// The number with its sign bit flipped.
    fn neg(self) -> (r: Binary64) {
        Binary64 { bits: self.bits ^ SIGN64 }
    }
}

impl NegSpecImpl for Binary64 {
    open spec fn obeys_neg_spec() -> bool {
        true
    }

    open spec fn neg_req(self) -> bool {
        true
    }

    open spec fn neg_spec(self) -> Binary64 {
        Binary64 { bits: self.bits ^ 0x8000_0000_0000_0000u64 }
    }
}

} // verus!
