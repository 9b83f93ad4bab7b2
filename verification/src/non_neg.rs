//! Numbers that are never NaN and never carry a negative sign.
use std::cmp::Ordering;
use std::ops::{Add, Div, Mul, Rem, Sub};
use vstd::prelude::*;
use vstd::std_specs::cmp::{PartialEqSpecImpl, PartialOrdSpecImpl};
use vstd::std_specs::ops::{AddSpec, DivSpec, MulSpec, RemSpec, SubSpec};
use vstd::std_specs::ops::{
    AddSpecImpl, DivSpecImpl, MulSpecImpl, RemSpecImpl, SubSpecImpl,
};
use crate::bits::ToOrd;
use crate::check::{key_order, Check, Checked, STRICT};
use crate::ops::{Exp, Pow, Round, Signed};
use crate::IntoInner;
use crate::not_nan::IsNan;

verus! {

/// The error given when a negative number or NaN is met.
#[derive(Debug, Clone, Copy, PartialEq, Eq, Structural)]
pub struct NegativeError;

impl NegativeError {
    /// What went wrong, in words.
    pub fn description(&self) -> (text: &'static str)
        ensures
            text@ == "encountered a negative or NaN unexpectedly"@,
    {
        "encountered a negative or NaN unexpectedly"
    }
}

/// A raw number that can say whether it is NaN and which sign it carries.
/// Every type with both abilities has this one.
pub trait IsNegative: Signed + IsNan {

}

impl<T: Signed + IsNan> IsNegative for T {

}

/// The rule of [`NonNeg`]: any number that is not NaN and carries no
/// negative sign. Negative zero carries one.
#[derive(Debug, Clone, Copy)]
pub struct NonNegativeRule;

impl<F: IsNegative> Check<F> for NonNegativeRule {
    type Error = NegativeError;

    open spec fn valid(val: F) -> bool {
        !val.is_sign_negative_spec() && !val.is_nan_spec()
    }

    open spec fn reason() -> NegativeError {
        NegativeError
    }

    fn check(val: F) -> (r: Result<F, NegativeError>) {
        if val.is_sign_negative() || val.is_nan() {
            Err(NegativeError)
        } else {
            Ok(val)
        }
    }
}

/// A number that is not NaN and carries no negative sign.
///
/// A value made by `try_new`, or in strict mode by `new` or by an operation
/// that checks its result, is well formed. One made by `unchecked_new`, or by
/// an operation that wraps without a check, is well formed only if the
/// caller, or the raw type, saw to it: no contract says so.
#[derive(Debug)]
pub struct NonNeg<F: IsNegative>(Checked<F, NonNegativeRule>);

impl<F: IsNegative> View for NonNeg<F> {
    type V = F;

    closed spec fn view(&self) -> F {
        self.0@
    }
}

impl<F: IsNegative> Clone for NonNeg<F> {
    fn clone(&self) -> (r: Self)
        ensures
            r == *self,
    {
        *self
    }
}

impl<F: IsNegative> Copy for NonNeg<F> {

}

impl<F: IsNegative + Default> Default for NonNeg<F> {
    /// The default of the raw type, wrapped without a check.
    fn default() -> (r: Self)
        ensures
            call_ensures(F::default, (), r@),
    {
        NonNeg(Checked::default())
    }
}

impl<F: IsNegative> NonNeg<F> {
    /// The numbers that this type is meant to hold: those that are not NaN and
    /// carry no negative sign.
    pub open spec fn valid(val: F) -> bool {
        !val.is_sign_negative_spec() && !val.is_nan_spec()
    }

    /// Whether the number held is one of them.
    pub open spec fn wf(self) -> bool {
        Self::valid(self@)
    }

    /// The wrapper that holds `val`.
    pub closed spec fn of(val: F) -> Self {
        NonNeg(Checked::of(val))
    }

    /// A wrapper is known by the number it holds.
    pub proof fn lemma_of_view(self)
        ensures
            self == Self::of(self@),
            Self::of(self@)@ == self@,
    {
        self.0.lemma_of_view();
    }

    /// Whether `r` is the checked form of `val`: `val` wrapped where it is
    /// valid, the error where it is not.
    pub open spec fn admits(val: F, r: Result<Self, NegativeError>) -> bool {
        match r {
            Ok(v) => Self::valid(val) && v@ == val,
            Err(_) => !Self::valid(val),
        }
    }

    fn lift(checked: Result<Checked<F, NonNegativeRule>, NegativeError>) -> (r: Result<
        Self,
        NegativeError,
    >)
        ensures
            match checked {
                Ok(c) => r is Ok && r->Ok_0@ == c@,
                Err(_) => r is Err,
            },
    {
        match checked {
            Ok(c) => Ok(NonNeg(c)),
            Err(e) => Err(e),
        }
    }

    /// Wraps `val`, or gives the error if it is NaN or negative.
    pub fn try_new(val: F) -> (r: Result<Self, NegativeError>)
        ensures
            Self::admits(val, r),
    {
        Self::lift(Checked::try_new(val))
    }

    /// Wraps `val`. In strict mode it must not be NaN or negative; in lenient
    /// mode
    /// it is not looked at.
    pub fn new(val: F) -> (r: Self)
        requires
            STRICT ==> Self::valid(val),
        ensures
            r@ == val,
            STRICT ==> r.wf(),
    {
        NonNeg(Checked::new(val))
    }

    /// Wraps `val` without looking at it. The caller answers for it not
    /// being NaN or negative: what the comparisons say of such a number is not
    /// defined.
    pub fn unchecked_new(val: F) -> (r: Self)
        ensures
            r@ == val,
    {
        NonNeg(Checked::unchecked_new(val))
    }

    /// The number held.
    pub fn val(self) -> (r: F)
        ensures
            r == self@,
    {
        self.0.val()
    }
}

impl<F: IsNegative> IntoInner<F> for NonNeg<F> {
    open spec fn inner_spec(self) -> F {
        self@
    }

    fn into_inner(self) -> (r: F) {
        self.val()
    }
}

impl<F: IsNegative + ToOrd, Rhs: IntoInner<F> + Copy> PartialEq<Rhs> for NonNeg<F> {
    /// Whether the two numbers stand on one key of the total order.
    fn eq(&self, rhs: &Rhs) -> (r: bool) {
        let rhs = (*rhs).into_inner();
        self.0.val().total_eq(rhs)
    }
}

impl<F: IsNegative + ToOrd, Rhs: IntoInner<F> + Copy> PartialEqSpecImpl<Rhs> for NonNeg<F> {
    open spec fn obeys_eq_spec() -> bool {
        true
    }

    open spec fn eq_spec(&self, rhs: &Rhs) -> bool {
        self@.ord_spec() == (*rhs).inner_spec().ord_spec()
    }
}

impl<F: IsNegative + ToOrd, Rhs: IntoInner<F> + Copy> PartialOrd<Rhs> for NonNeg<F> {
    /// How this number compares with `rhs`. A `rhs` that is NaN or negative
    /// compares with nothing.
    fn partial_cmp(&self, rhs: &Rhs) -> (r: Option<Ordering>) {
        let rhs = (*rhs).into_inner();
        self.0.partial_cmp(&rhs)
    }
}

impl<F: IsNegative + ToOrd, Rhs: IntoInner<F> + Copy> PartialOrdSpecImpl<Rhs> for NonNeg<F> {
    open spec fn obeys_partial_cmp_spec() -> bool {
        true
    }

    open spec fn partial_cmp_spec(&self, rhs: &Rhs) -> Option<Ordering> {
        if Self::valid((*rhs).inner_spec()) {
            Some(key_order(self@.ord_spec(), (*rhs).inner_spec().ord_spec()))
        } else {
            None
        }
    }
}

impl<F: IsNegative + ToOrd> NonNeg<F> {
    /// How the two numbers compare: as their keys do.
    pub fn cmp(&self, rhs: &Self) -> (r: Ordering)
        ensures
            r == key_order(self@.ord_spec(), rhs@.ord_spec()),
    {
        self.0.cmp(&rhs.0)
    }

    /// The larger of this number and `other`. An `other` that is NaN or
    /// negative
    /// is left out, and so is one that is not larger.
    pub fn max<R: IntoInner<F>>(self, other: R) -> (r: Self)
        ensures
            r@ == if Self::valid(other.inner_spec()) && self@.ord_spec()
                < other.inner_spec().ord_spec() {
                other.inner_spec()
            } else {
                self@
            },
            self.wf() ==> r.wf(),
    {
        NonNeg(self.0.max(other.into_inner()))
    }

    /// The smaller of this number and `other`. An `other` that is NaN or
    /// negative
    /// is left out; one on the same key is taken.
    pub fn min<R: IntoInner<F>>(self, other: R) -> (r: Self)
        ensures
            r@ == if Self::valid(other.inner_spec()) && other.inner_spec().ord_spec()
                <= self@.ord_spec() {
                other.inner_spec()
            } else {
                self@
            },
            self.wf() ==> r.wf(),
    {
        NonNeg(self.0.min(other.into_inner()))
    }
}

impl<F: IsNegative + Round> NonNeg<F> {
    /// The largest whole number at or below `self`. It is wrapped without a
    /// check.
    pub fn floor(self) -> (r: Self)
        ensures
            r@ == self@.floor_spec(),
    {
        NonNeg(self.0.floor())
    }

    /// The smallest whole number at or above `self`. It is wrapped without a
    /// check.
    pub fn ceil(self) -> (r: Self)
        ensures
            r@ == self@.ceil_spec(),
    {
        NonNeg(self.0.ceil())
    }

    /// The nearest whole number; halfway cases go away from zero. It is
    /// wrapped without a check.
    pub fn round(self) -> (r: Self)
        ensures
            r@ == self@.round_spec(),
    {
        NonNeg(self.0.round())
    }

    /// The whole-number part of `self`. It is wrapped without a check.
    pub fn trunc(self) -> (r: Self)
        ensures
            r@ == self@.trunc_spec(),
    {
        NonNeg(self.0.trunc())
    }

    /// The fractional part of `self`. It is wrapped without a check.
    pub fn fract(self) -> (r: Self)
        ensures
            r@ == self@.fract_spec(),
    {
        NonNeg(self.0.fract())
    }
}

impl<F: IsNegative> NonNeg<F> {
    /// The magnitude. It is wrapped without a check.
    pub fn abs(self) -> (r: Self)
        ensures
            r@ == self@.abs_spec(),
    {
        NonNeg(self.0.abs())
    }

    /// One with the sign of this number. It is wrapped without a check.
    pub fn signum(self) -> (r: Self)
        ensures
            r@ == self@.signum_spec(),
    {
        NonNeg(self.0.signum())
    }

    /// Whether this number carries a negative sign; negative zero and
    /// negative infinity do.
    pub fn is_sign_negative(self) -> (r: bool)
        ensures
            r == self@.is_sign_negative_spec(),
    {
        self.0.is_sign_negative()
    }

    /// Whether this number carries a positive sign; positive zero and
    /// positive infinity do.
    pub fn is_sign_positive(self) -> (r: bool)
        ensures
            r == !self@.is_sign_negative_spec(),
    {
        self.0.is_sign_positive()
    }
}

impl<F: IsNegative + Add<Output = F>> NonNeg<F> {
    /// The sum, or the error if it is NaN or negative.
    pub fn try_add<R: IntoInner<F>>(self, rhs: R) -> (r: Result<Self, NegativeError>)
        requires
            self@.add_req(rhs.inner_spec()),
        ensures
            F::obeys_add_spec() ==> Self::admits(self@.add_spec(rhs.inner_spec()), r),
            r is Ok ==> r->Ok_0.wf(),
    {
        Self::lift(self.0.try_add(rhs.into_inner()))
    }

    /// Replaces this number by the sum. In strict mode it must not be NaN or
    /// negative.
    pub fn add_assign<R: IntoInner<F>>(&mut self, rhs: R)
        requires
            old(self)@.add_req(rhs.inner_spec()),
            STRICT ==> F::obeys_add_spec() && Self::valid(old(self)@.add_spec(rhs.inner_spec())),
        ensures
            F::obeys_add_spec() ==> final(self)@ == old(self)@.add_spec(rhs.inner_spec()),
            STRICT ==> final(self).wf(),
    {
        self.0.add_assign(rhs.into_inner());
    }
}

impl<F: IsNegative + Add<Output = F>, Rhs: IntoInner<F>> Add<Rhs> for NonNeg<F> {
    type Output = Self;

    /// The sum. In strict mode it must not be NaN or negative.
    fn add(self, rhs: Rhs) -> (r: Self)
        ensures
            F::obeys_add_spec() ==> r@ == self@.add_spec(rhs.inner_spec()),
            STRICT ==> r.wf(),
    {
        NonNeg(self.0.add(rhs.into_inner()))
    }
}

impl<F: IsNegative + Add<Output = F>, Rhs: IntoInner<F>> AddSpecImpl<Rhs> for NonNeg<F> {
    open spec fn obeys_add_spec() -> bool {
        F::obeys_add_spec()
    }

    open spec fn add_req(self, rhs: Rhs) -> bool {
        &&& self@.add_req(rhs.inner_spec())
        &&& STRICT ==> F::obeys_add_spec() && Self::valid(self@.add_spec(rhs.inner_spec()))
    }

    open spec fn add_spec(self, rhs: Rhs) -> Self {
        Self::of(self@.add_spec(rhs.inner_spec()))
    }
}

impl<F: IsNegative + Sub<Output = F>> NonNeg<F> {
    /// The difference, or the error if it is NaN or negative.
    pub fn try_sub<R: IntoInner<F>>(self, rhs: R) -> (r: Result<Self, NegativeError>)
        requires
            self@.sub_req(rhs.inner_spec()),
        ensures
            F::obeys_sub_spec() ==> Self::admits(self@.sub_spec(rhs.inner_spec()), r),
            r is Ok ==> r->Ok_0.wf(),
    {
        Self::lift(self.0.try_sub(rhs.into_inner()))
    }

    /// Replaces this number by the difference. In strict mode it must not be
    /// NaN or negative.
    pub fn sub_assign<R: IntoInner<F>>(&mut self, rhs: R)
        requires
            old(self)@.sub_req(rhs.inner_spec()),
            STRICT ==> F::obeys_sub_spec() && Self::valid(old(self)@.sub_spec(rhs.inner_spec())),
        ensures
            F::obeys_sub_spec() ==> final(self)@ == old(self)@.sub_spec(rhs.inner_spec()),
            STRICT ==> final(self).wf(),
    {
        self.0.sub_assign(rhs.into_inner());
    }
}

impl<F: IsNegative + Sub<Output = F>, Rhs: IntoInner<F>> Sub<Rhs> for NonNeg<F> {
    type Output = Self;

    /// The difference. In strict mode it must not be NaN or negative.
    fn sub(self, rhs: Rhs) -> (r: Self)
        ensures
            F::obeys_sub_spec() ==> r@ == self@.sub_spec(rhs.inner_spec()),
            STRICT ==> r.wf(),
    {
        NonNeg(self.0.sub(rhs.into_inner()))
    }
}

impl<F: IsNegative + Sub<Output = F>, Rhs: IntoInner<F>> SubSpecImpl<Rhs> for NonNeg<F> {
    open spec fn obeys_sub_spec() -> bool {
        F::obeys_sub_spec()
    }

    open spec fn sub_req(self, rhs: Rhs) -> bool {
        &&& self@.sub_req(rhs.inner_spec())
        &&& STRICT ==> F::obeys_sub_spec() && Self::valid(self@.sub_spec(rhs.inner_spec()))
    }

    open spec fn sub_spec(self, rhs: Rhs) -> Self {
        Self::of(self@.sub_spec(rhs.inner_spec()))
    }
}

impl<F: IsNegative + Mul<Output = F>> NonNeg<F> {
    /// The product, or the error if it is NaN or negative.
    pub fn try_mul<R: IntoInner<F>>(self, rhs: R) -> (r: Result<Self, NegativeError>)
        requires
            self@.mul_req(rhs.inner_spec()),
        ensures
            F::obeys_mul_spec() ==> Self::admits(self@.mul_spec(rhs.inner_spec()), r),
            r is Ok ==> r->Ok_0.wf(),
    {
        Self::lift(self.0.try_mul(rhs.into_inner()))
    }

    /// Replaces this number by the product. In strict mode it must not be NaN
    /// or negative.
    pub fn mul_assign<R: IntoInner<F>>(&mut self, rhs: R)
        requires
            old(self)@.mul_req(rhs.inner_spec()),
            STRICT ==> F::obeys_mul_spec() && Self::valid(old(self)@.mul_spec(rhs.inner_spec())),
        ensures
            F::obeys_mul_spec() ==> final(self)@ == old(self)@.mul_spec(rhs.inner_spec()),
            STRICT ==> final(self).wf(),
    {
        self.0.mul_assign(rhs.into_inner());
    }
}

impl<F: IsNegative + Mul<Output = F>, Rhs: IntoInner<F>> Mul<Rhs> for NonNeg<F> {
    type Output = Self;

    /// The product. In strict mode it must not be NaN or negative.
    fn mul(self, rhs: Rhs) -> (r: Self)
        ensures
            F::obeys_mul_spec() ==> r@ == self@.mul_spec(rhs.inner_spec()),
            STRICT ==> r.wf(),
    {
        NonNeg(self.0.mul(rhs.into_inner()))
    }
}

impl<F: IsNegative + Mul<Output = F>, Rhs: IntoInner<F>> MulSpecImpl<Rhs> for NonNeg<F> {
    open spec fn obeys_mul_spec() -> bool {
        F::obeys_mul_spec()
    }

    open spec fn mul_req(self, rhs: Rhs) -> bool {
        &&& self@.mul_req(rhs.inner_spec())
        &&& STRICT ==> F::obeys_mul_spec() && Self::valid(self@.mul_spec(rhs.inner_spec()))
    }

    open spec fn mul_spec(self, rhs: Rhs) -> Self {
        Self::of(self@.mul_spec(rhs.inner_spec()))
    }
}

impl<F: IsNegative + Div<Output = F>> NonNeg<F> {
    /// The quotient, or the error if it is NaN or negative.
    pub fn try_div<R: IntoInner<F>>(self, rhs: R) -> (r: Result<Self, NegativeError>)
        requires
            self@.div_req(rhs.inner_spec()),
        ensures
            F::obeys_div_spec() ==> Self::admits(self@.div_spec(rhs.inner_spec()), r),
            r is Ok ==> r->Ok_0.wf(),
    {
        Self::lift(self.0.try_div(rhs.into_inner()))
    }

    /// Replaces this number by the quotient. In strict mode it must not be NaN
    /// or negative.
    pub fn div_assign<R: IntoInner<F>>(&mut self, rhs: R)
        requires
            old(self)@.div_req(rhs.inner_spec()),
            STRICT ==> F::obeys_div_spec() && Self::valid(old(self)@.div_spec(rhs.inner_spec())),
        ensures
            F::obeys_div_spec() ==> final(self)@ == old(self)@.div_spec(rhs.inner_spec()),
            STRICT ==> final(self).wf(),
    {
        self.0.div_assign(rhs.into_inner());
    }
}

impl<F: IsNegative + Div<Output = F>, Rhs: IntoInner<F>> Div<Rhs> for NonNeg<F> {
    type Output = Self;

    /// The quotient. In strict mode it must not be NaN or negative.
    fn div(self, rhs: Rhs) -> (r: Self)
        ensures
            F::obeys_div_spec() ==> r@ == self@.div_spec(rhs.inner_spec()),
            STRICT ==> r.wf(),
    {
        NonNeg(self.0.div(rhs.into_inner()))
    }
}

impl<F: IsNegative + Div<Output = F>, Rhs: IntoInner<F>> DivSpecImpl<Rhs> for NonNeg<F> {
    open spec fn obeys_div_spec() -> bool {
        F::obeys_div_spec()
    }

    open spec fn div_req(self, rhs: Rhs) -> bool {
        &&& self@.div_req(rhs.inner_spec())
        &&& STRICT ==> F::obeys_div_spec() && Self::valid(self@.div_spec(rhs.inner_spec()))
    }

    open spec fn div_spec(self, rhs: Rhs) -> Self {
        Self::of(self@.div_spec(rhs.inner_spec()))
    }
}

impl<F: IsNegative + Rem<Output = F>> NonNeg<F> {
    /// The remainder of the division, or the error if it is NaN or negative.
    pub fn try_rem<R: IntoInner<F>>(self, rhs: R) -> (r: Result<Self, NegativeError>)
        requires
            self@.rem_req(rhs.inner_spec()),
        ensures
            F::obeys_rem_spec() ==> Self::admits(self@.rem_spec(rhs.inner_spec()), r),
            r is Ok ==> r->Ok_0.wf(),
    {
        Self::lift(self.0.try_rem(rhs.into_inner()))
    }

    /// Replaces this number by the remainder of the division. In strict mode
    /// it must not be NaN or negative.
    pub fn rem_assign<R: IntoInner<F>>(&mut self, rhs: R)
        requires
            old(self)@.rem_req(rhs.inner_spec()),
            STRICT ==> F::obeys_rem_spec() && Self::valid(old(self)@.rem_spec(rhs.inner_spec())),
        ensures
            F::obeys_rem_spec() ==> final(self)@ == old(self)@.rem_spec(rhs.inner_spec()),
            STRICT ==> final(self).wf(),
    {
        self.0.rem_assign(rhs.into_inner());
    }
}

impl<F: IsNegative + Rem<Output = F>, Rhs: IntoInner<F>> Rem<Rhs> for NonNeg<F> {
    type Output = Self;

    /// The remainder of the division. In strict mode it must not be NaN or
    /// negative.
    fn rem(self, rhs: Rhs) -> (r: Self)
        ensures
            F::obeys_rem_spec() ==> r@ == self@.rem_spec(rhs.inner_spec()),
            STRICT ==> r.wf(),
    {
        NonNeg(self.0.rem(rhs.into_inner()))
    }
}

impl<F: IsNegative + Rem<Output = F>, Rhs: IntoInner<F>> RemSpecImpl<Rhs> for NonNeg<F> {
    open spec fn obeys_rem_spec() -> bool {
        F::obeys_rem_spec()
    }

    open spec fn rem_req(self, rhs: Rhs) -> bool {
        &&& self@.rem_req(rhs.inner_spec())
        &&& STRICT ==> F::obeys_rem_spec() && Self::valid(self@.rem_spec(rhs.inner_spec()))
    }

    open spec fn rem_spec(self, rhs: Rhs) -> Self {
        Self::of(self@.rem_spec(rhs.inner_spec()))
    }
}

impl<F: IsNegative + Pow> NonNeg<F> {
    /// `self` raised to the power `n`, or the error if it is NaN or negative.
    pub fn try_powf<R: IntoInner<F>>(self, n: R) -> (r: Result<Self, NegativeError>)
        ensures
            Self::admits(self@.powf_spec(n.inner_spec()), r),
    {
        Self::lift(self.0.try_powf(n.into_inner()))
    }

    /// `self` raised to the power `n`. In strict mode it must not be NaN or
    /// negative.
    pub fn powf<R: IntoInner<F>>(self, n: R) -> (r: Self)
        requires
            STRICT ==> Self::valid(self@.powf_spec(n.inner_spec())),
        ensures
            r@ == self@.powf_spec(n.inner_spec()),
            STRICT ==> r.wf(),
    {
        NonNeg(self.0.powf(n.into_inner()))
    }

    /// `self` raised to the whole power `n`, or the error if it is NaN or
    /// negative.
    pub fn try_powi(self, n: i32) -> (r: Result<Self, NegativeError>)
        ensures
            Self::admits(self@.powi_spec(n), r),
    {
        Self::lift(self.0.try_powi(n))
    }

    /// `self` raised to the whole power `n`. In strict mode it must not be NaN
    /// or negative.
    pub fn powi(self, n: i32) -> (r: Self)
        requires
            STRICT ==> Self::valid(self@.powi_spec(n)),
        ensures
            r@ == self@.powi_spec(n),
            STRICT ==> r.wf(),
    {
        NonNeg(self.0.powi(n))
    }

    /// The reciprocal, `1 / self`. It is wrapped without a check, on the
    /// ground that the reciprocal keeps the sign.
    pub fn recip(self) -> (r: Self)
        ensures
            r@ == self@.recip_spec(),
    {
        NonNeg(Checked::unchecked_new(self.0.val().recip()))
    }

    /// The square root. It is wrapped without a check, on the ground that a
    /// number that is not negative has a square root, which is not negative.
    pub fn sqrt(self) -> (r: Self)
        ensures
            r@ == self@.sqrt_spec(),
    {
        NonNeg(Checked::unchecked_new(self.0.val().sqrt()))
    }

    /// The cube root. It is wrapped without a check, on the ground that the
    /// cube root keeps the sign.
    pub fn cbrt(self) -> (r: Self)
        ensures
            r@ == self@.cbrt_spec(),
    {
        NonNeg(Checked::unchecked_new(self.0.val().cbrt()))
    }

    /// The length of the hypotenuse over legs `self` and `other`, or the error
    /// if it is NaN or negative.
    pub fn try_hypot<R: IntoInner<F>>(self, other: R) -> (r: Result<Self, NegativeError>)
        ensures
            Self::admits(self@.hypot_spec(other.inner_spec()), r),
    {
        Self::lift(self.0.try_hypot(other.into_inner()))
    }

    /// The length of the hypotenuse over legs `self` and `other`. In strict
    /// mode it must not be NaN or negative.
    pub fn hypot<R: IntoInner<F>>(self, other: R) -> (r: Self)
        requires
            STRICT ==> Self::valid(self@.hypot_spec(other.inner_spec())),
        ensures
            r@ == self@.hypot_spec(other.inner_spec()),
            STRICT ==> r.wf(),
    {
        NonNeg(self.0.hypot(other.into_inner()))
    }
}

impl<F: IsNegative + Exp> NonNeg<F> {
    /// `e` raised to the power `self`, or the error if it is NaN or negative.
    pub fn try_exp(self) -> (r: Result<Self, NegativeError>)
        ensures
            Self::admits(self@.exp_spec(), r),
    {
        Self::lift(self.0.try_exp())
    }

    /// 2 raised to the power `self`, or the error if it is NaN or negative.
    pub fn try_exp2(self) -> (r: Result<Self, NegativeError>)
        ensures
            Self::admits(self@.exp2_spec(), r),
    {
        Self::lift(self.0.try_exp2())
    }

    /// `e^self - 1`, accurate near zero, or the error if it is NaN or
    /// negative.
    pub fn try_exp_m1(self) -> (r: Result<Self, NegativeError>)
        ensures
            Self::admits(self@.exp_m1_spec(), r),
    {
        Self::lift(self.0.try_exp_m1())
    }

    /// The logarithm of `self` to `base`, or the error if it is NaN or
    /// negative.
    pub fn try_log<R: IntoInner<F>>(self, base: R) -> (r: Result<Self, NegativeError>)
        ensures
            Self::admits(self@.log_spec(base.inner_spec()), r),
    {
        Self::lift(self.0.try_log(base.into_inner()))
    }

    /// The natural logarithm, or the error if it is NaN or negative.
    pub fn try_ln(self) -> (r: Result<Self, NegativeError>)
        ensures
            Self::admits(self@.ln_spec(), r),
    {
        Self::lift(self.0.try_ln())
    }

    /// The logarithm to base 2, or the error if it is NaN or negative.
    pub fn try_log2(self) -> (r: Result<Self, NegativeError>)
        ensures
            Self::admits(self@.log2_spec(), r),
    {
        Self::lift(self.0.try_log2())
    }

    /// The logarithm to base 10, or the error if it is NaN or negative.
    pub fn try_log10(self) -> (r: Result<Self, NegativeError>)
        ensures
            Self::admits(self@.log10_spec(), r),
    {
        Self::lift(self.0.try_log10())
    }

    /// `ln(1 + self)`, accurate near zero, or the error if it is NaN or
    /// negative.
    pub fn try_ln_1p(self) -> (r: Result<Self, NegativeError>)
        ensures
            Self::admits(self@.ln_1p_spec(), r),
    {
        Self::lift(self.0.try_ln_1p())
    }

    /// `e` raised to the power `self`. In strict mode it must not be NaN or
    /// negative.
    pub fn exp(self) -> (r: Self)
        requires
            STRICT ==> Self::valid(self@.exp_spec()),
        ensures
            r@ == self@.exp_spec(),
            STRICT ==> r.wf(),
    {
        NonNeg(self.0.exp())
    }

    /// 2 raised to the power `self`. In strict mode it must not be NaN or
    /// negative.
    pub fn exp2(self) -> (r: Self)
        requires
            STRICT ==> Self::valid(self@.exp2_spec()),
        ensures
            r@ == self@.exp2_spec(),
            STRICT ==> r.wf(),
    {
        NonNeg(self.0.exp2())
    }

    /// `e^self - 1`, accurate near zero. In strict mode it must not be NaN or
    /// negative.
    pub fn exp_m1(self) -> (r: Self)
        requires
            STRICT ==> Self::valid(self@.exp_m1_spec()),
        ensures
            r@ == self@.exp_m1_spec(),
            STRICT ==> r.wf(),
    {
        NonNeg(self.0.exp_m1())
    }

    /// The logarithm of `self` to `base`. In strict mode it must not be NaN or
    /// negative.
    pub fn log<R: IntoInner<F>>(self, base: R) -> (r: Self)
        requires
            STRICT ==> Self::valid(self@.log_spec(base.inner_spec())),
        ensures
            r@ == self@.log_spec(base.inner_spec()),
            STRICT ==> r.wf(),
    {
        NonNeg(self.0.log(base.into_inner()))
    }

    /// The natural logarithm. In strict mode it must not be NaN or negative.
    pub fn ln(self) -> (r: Self)
        requires
            STRICT ==> Self::valid(self@.ln_spec()),
        ensures
            r@ == self@.ln_spec(),
            STRICT ==> r.wf(),
    {
        NonNeg(self.0.ln())
    }

    /// The logarithm to base 2. In strict mode it must not be NaN or negative.
    pub fn log2(self) -> (r: Self)
        requires
            STRICT ==> Self::valid(self@.log2_spec()),
        ensures
            r@ == self@.log2_spec(),
            STRICT ==> r.wf(),
    {
        NonNeg(self.0.log2())
    }

    /// The logarithm to base 10. In strict mode it must not be NaN or
    /// negative.
    pub fn log10(self) -> (r: Self)
        requires
            STRICT ==> Self::valid(self@.log10_spec()),
        ensures
            r@ == self@.log10_spec(),
            STRICT ==> r.wf(),
    {
        NonNeg(self.0.log10())
    }

    /// `ln(1 + self)`, accurate near zero. In strict mode it must not be NaN
    /// or negative.
    pub fn ln_1p(self) -> (r: Self)
        requires
            STRICT ==> Self::valid(self@.ln_1p_spec()),
        ensures
            r@ == self@.ln_1p_spec(),
            STRICT ==> r.wf(),
    {
        NonNeg(self.0.ln_1p())
    }
}

} // verus!
