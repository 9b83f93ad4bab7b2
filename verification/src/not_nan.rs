//! Numbers that are never NaN.
use std::cmp::Ordering;
use std::ops::{Add, Div, Mul, Neg, Rem, Sub};
use vstd::prelude::*;
use vstd::std_specs::cmp::{PartialEqSpecImpl, PartialOrdSpecImpl};
use vstd::std_specs::ops::{AddSpec, DivSpec, MulSpec, NegSpec, RemSpec, SubSpec};
use vstd::std_specs::ops::{
    AddSpecImpl, DivSpecImpl, MulSpecImpl, NegSpecImpl, RemSpecImpl, SubSpecImpl,
};
use crate::bits::ToOrd;
use crate::check::{key_order, Check, Checked, STRICT};
use crate::ops::{Exp, Pow, Round, Signed, Trig};
use crate::IntoInner;

verus! {

/// The error given when NaN is met.
#[derive(Debug, Clone, Copy, PartialEq, Eq, Structural)]
pub struct NanError;

impl NanError {
    /// What went wrong, in words.
    pub fn description(&self) -> (text: &'static str)
        ensures
            text@ == "encountered NaN unexpectedly"@,
    {
        "encountered NaN unexpectedly"
    }
}

/// A raw number that can say whether it is NaN (not a number).
pub trait IsNan: Sized + Copy {
    /// Whether `self` is NaN.
    spec fn is_nan_spec(self) -> bool;

    fn is_nan(self) -> (r: bool)
        ensures
            r == self.is_nan_spec(),
    ;
}

/// The rule of [`Real`]: any number but NaN.
#[derive(Debug, Clone, Copy)]
pub struct NotNanRule;

impl<F: IsNan> Check<F> for NotNanRule {
    type Error = NanError;

    open spec fn valid(val: F) -> bool {
        !val.is_nan_spec()
    }

    open spec fn reason() -> NanError {
        NanError
    }

    fn check(val: F) -> (r: Result<F, NanError>) {
        if val.is_nan() {
            Err(NanError)
        } else {
            Ok(val)
        }
    }
}

/// A number that is not NaN.
///
/// A value made by `try_new`, or in strict mode by `new` or by an operation
/// that checks its result, is well formed. One made by `unchecked_new`, or by
/// an operation that wraps without a check, is well formed only if the
/// caller, or the raw type, saw to it: no contract says so.
#[derive(Debug)]
pub struct Real<F: IsNan>(Checked<F, NotNanRule>);

impl<F: IsNan> View for Real<F> {
    type V = F;

    closed spec fn view(&self) -> F {
        self.0@
    }
}

impl<F: IsNan> Clone for Real<F> {
    fn clone(&self) -> (r: Self)
        ensures
            r == *self,
    {
        *self
    }
}

impl<F: IsNan> Copy for Real<F> {

}

impl<F: IsNan + Default> Default for Real<F> {
    /// The default of the raw type, wrapped without a check.
    fn default() -> (r: Self)
        ensures
            call_ensures(F::default, (), r@),
    {
        Real(Checked::default())
    }
}

impl<F: IsNan> Real<F> {
    /// The numbers that this type is meant to hold: all but NaN.
    pub open spec fn valid(val: F) -> bool {
        !val.is_nan_spec()
    }

    /// Whether the number held is one of them.
    pub open spec fn wf(self) -> bool {
        Self::valid(self@)
    }

    /// The wrapper that holds `val`.
    pub closed spec fn of(val: F) -> Self {
        Real(Checked::of(val))
    }

    /// A wrapper is known by the number it holds.
    pub proof fn lemma_of_view(self)
        ensures
            self == Self::of(self@),
            Self::of(self@)@ == self@,
    {
        self.0.lemma_of_view();
    }

    /// Whether `r` is the checked form of `val`: `val` wrapped where it is
    /// valid, the error where it is not.
    pub open spec fn admits(val: F, r: Result<Self, NanError>) -> bool {
        match r {
            Ok(v) => Self::valid(val) && v@ == val,
            Err(_) => !Self::valid(val),
        }
    }

    fn lift(checked: Result<Checked<F, NotNanRule>, NanError>) -> (r: Result<
        Self,
        NanError,
    >)
        ensures
            match checked {
                Ok(c) => r is Ok && r->Ok_0@ == c@,
                Err(_) => r is Err,
            },
    {
        match checked {
            Ok(c) => Ok(Real(c)),
            Err(e) => Err(e),
        }
    }

    /// Wraps `val`, or gives the error if it is NaN.
    pub fn try_new(val: F) -> (r: Result<Self, NanError>)
        ensures
            Self::admits(val, r),
    {
        Self::lift(Checked::try_new(val))
    }

    /// Wraps `val`. In strict mode it must not be NaN; in lenient mode
    /// it is not looked at.
    pub fn new(val: F) -> (r: Self)
        requires
            STRICT ==> Self::valid(val),
        ensures
            r@ == val,
            STRICT ==> r.wf(),
    {
        Real(Checked::new(val))
    }

    /// Wraps `val` without looking at it. The caller answers for it not
    /// being NaN: what the comparisons say of such a number is not
    /// defined.
    pub fn unchecked_new(val: F) -> (r: Self)
        ensures
            r@ == val,
    {
        Real(Checked::unchecked_new(val))
    }

    /// The number held.
    pub fn val(self) -> (r: F)
        ensures
            r == self@,
    {
        self.0.val()
    }
}

impl<F: IsNan> IntoInner<F> for Real<F> {
    open spec fn inner_spec(self) -> F {
        self@
    }

    fn into_inner(self) -> (r: F) {
        self.val()
    }
}

impl<F: IsNan + ToOrd, Rhs: IntoInner<F> + Copy> PartialEq<Rhs> for Real<F> {
    /// Whether the two numbers stand on one key of the total order.
    fn eq(&self, rhs: &Rhs) -> (r: bool) {
        let rhs = (*rhs).into_inner();
        self.0.val().total_eq(rhs)
    }
}

impl<F: IsNan + ToOrd, Rhs: IntoInner<F> + Copy> PartialEqSpecImpl<Rhs> for Real<F> {
    open spec fn obeys_eq_spec() -> bool {
        true
    }

    open spec fn eq_spec(&self, rhs: &Rhs) -> bool {
        self@.ord_spec() == (*rhs).inner_spec().ord_spec()
    }
}

impl<F: IsNan + ToOrd, Rhs: IntoInner<F> + Copy> PartialOrd<Rhs> for Real<F> {
    /// How this number compares with `rhs`. A `rhs` that is NaN
    /// compares with nothing.
    fn partial_cmp(&self, rhs: &Rhs) -> (r: Option<Ordering>) {
        let rhs = (*rhs).into_inner();
        self.0.partial_cmp(&rhs)
    }
}

impl<F: IsNan + ToOrd, Rhs: IntoInner<F> + Copy> PartialOrdSpecImpl<Rhs> for Real<F> {
    open spec fn obeys_partial_cmp_spec() -> bool {
        true
    }

    open spec fn partial_cmp_spec(&self, rhs: &Rhs) -> Option<Ordering> {
        if Self::valid((*rhs).inner_spec()) {
            Some(key_order(self@.ord_spec(), (*rhs).inner_spec().ord_spec()))
        } else {
            None
        }
    }
}

impl<F: IsNan + ToOrd> Real<F> {
    /// How the two numbers compare: as their keys do.
    pub fn cmp(&self, rhs: &Self) -> (r: Ordering)
        ensures
            r == key_order(self@.ord_spec(), rhs@.ord_spec()),
    {
        self.0.cmp(&rhs.0)
    }

    /// The larger of this number and `other`. An `other` that is NaN
    /// is left out, and so is one that is not larger.
    pub fn max<R: IntoInner<F>>(self, other: R) -> (r: Self)
        ensures
            r@ == if Self::valid(other.inner_spec()) && self@.ord_spec()
                < other.inner_spec().ord_spec() {
                other.inner_spec()
            } else {
                self@
            },
            self.wf() ==> r.wf(),
    {
        Real(self.0.max(other.into_inner()))
    }

    /// The smaller of this number and `other`. An `other` that is NaN
    /// is left out; one on the same key is taken.
    pub fn min<R: IntoInner<F>>(self, other: R) -> (r: Self)
        ensures
            r@ == if Self::valid(other.inner_spec()) && other.inner_spec().ord_spec()
                <= self@.ord_spec() {
                other.inner_spec()
            } else {
                self@
            },
            self.wf() ==> r.wf(),
    {
        Real(self.0.min(other.into_inner()))
    }
}

impl<F: IsNan + Round> Real<F> {
    /// The largest whole number at or below `self`. It is wrapped without a
    /// check.
    pub fn floor(self) -> (r: Self)
        ensures
            r@ == self@.floor_spec(),
    {
        Real(self.0.floor())
    }

    /// The smallest whole number at or above `self`. It is wrapped without a
    /// check.
    pub fn ceil(self) -> (r: Self)
        ensures
            r@ == self@.ceil_spec(),
    {
        Real(self.0.ceil())
    }

    /// The nearest whole number; halfway cases go away from zero. It is
    /// wrapped without a check.
    pub fn round(self) -> (r: Self)
        ensures
            r@ == self@.round_spec(),
    {
        Real(self.0.round())
    }

    /// The whole-number part of `self`. It is wrapped without a check.
    pub fn trunc(self) -> (r: Self)
        ensures
            r@ == self@.trunc_spec(),
    {
        Real(self.0.trunc())
    }

    /// The fractional part of `self`. It is wrapped without a check.
    pub fn fract(self) -> (r: Self)
        ensures
            r@ == self@.fract_spec(),
    {
        Real(self.0.fract())
    }
}

impl<F: IsNan + Signed> Real<F> {
    /// The magnitude. It is wrapped without a check.
    pub fn abs(self) -> (r: Self)
        ensures
            r@ == self@.abs_spec(),
    {
        Real(self.0.abs())
    }

    /// One with the sign of this number. It is wrapped without a check.
    pub fn signum(self) -> (r: Self)
        ensures
            r@ == self@.signum_spec(),
    {
        Real(self.0.signum())
    }

    /// Whether this number carries a negative sign; negative zero and
    /// negative infinity do.
    pub fn is_sign_negative(self) -> (r: bool)
        ensures
            r == self@.is_sign_negative_spec(),
    {
        self.0.is_sign_negative()
    }

    /// Whether this number carries a positive sign; positive zero and
    /// positive infinity do.
    pub fn is_sign_positive(self) -> (r: bool)
        ensures
            r == !self@.is_sign_negative_spec(),
    {
        self.0.is_sign_positive()
    }
}

impl<F: IsNan + Add<Output = F>> Real<F> {
    /// The sum, or the error if it is NaN.
    pub fn try_add<R: IntoInner<F>>(self, rhs: R) -> (r: Result<Self, NanError>)
        requires
            self@.add_req(rhs.inner_spec()),
        ensures
            F::obeys_add_spec() ==> Self::admits(self@.add_spec(rhs.inner_spec()), r),
            r is Ok ==> r->Ok_0.wf(),
    {
        Self::lift(self.0.try_add(rhs.into_inner()))
    }

    /// Replaces this number by the sum. In strict mode it must not be NaN.
    pub fn add_assign<R: IntoInner<F>>(&mut self, rhs: R)
        requires
            old(self)@.add_req(rhs.inner_spec()),
            STRICT ==> F::obeys_add_spec() && Self::valid(old(self)@.add_spec(rhs.inner_spec())),
        ensures
            F::obeys_add_spec() ==> final(self)@ == old(self)@.add_spec(rhs.inner_spec()),
            STRICT ==> final(self).wf(),
    {
        self.0.add_assign(rhs.into_inner());
    }
}

impl<F: IsNan + Add<Output = F>, Rhs: IntoInner<F>> Add<Rhs> for Real<F> {
    type Output = Self;

    /// The sum. In strict mode it must not be NaN.
    fn add(self, rhs: Rhs) -> (r: Self)
        ensures
            F::obeys_add_spec() ==> r@ == self@.add_spec(rhs.inner_spec()),
            STRICT ==> r.wf(),
    {
        Real(self.0.add(rhs.into_inner()))
    }
}

impl<F: IsNan + Add<Output = F>, Rhs: IntoInner<F>> AddSpecImpl<Rhs> for Real<F> {
    open spec fn obeys_add_spec() -> bool {
        F::obeys_add_spec()
    }

    open spec fn add_req(self, rhs: Rhs) -> bool {
        &&& self@.add_req(rhs.inner_spec())
        &&& STRICT ==> F::obeys_add_spec() && Self::valid(self@.add_spec(rhs.inner_spec()))
    }

    open spec fn add_spec(self, rhs: Rhs) -> Self {
        Self::of(self@.add_spec(rhs.inner_spec()))
    }
}

impl<F: IsNan + Sub<Output = F>> Real<F> {
    /// The difference, or the error if it is NaN.
    pub fn try_sub<R: IntoInner<F>>(self, rhs: R) -> (r: Result<Self, NanError>)
        requires
            self@.sub_req(rhs.inner_spec()),
        ensures
            F::obeys_sub_spec() ==> Self::admits(self@.sub_spec(rhs.inner_spec()), r),
            r is Ok ==> r->Ok_0.wf(),
    {
        Self::lift(self.0.try_sub(rhs.into_inner()))
    }

    /// Replaces this number by the difference. In strict mode it must not be
    /// NaN.
    pub fn sub_assign<R: IntoInner<F>>(&mut self, rhs: R)
        requires
            old(self)@.sub_req(rhs.inner_spec()),
            STRICT ==> F::obeys_sub_spec() && Self::valid(old(self)@.sub_spec(rhs.inner_spec())),
        ensures
            F::obeys_sub_spec() ==> final(self)@ == old(self)@.sub_spec(rhs.inner_spec()),
            STRICT ==> final(self).wf(),
    {
        self.0.sub_assign(rhs.into_inner());
    }
}

impl<F: IsNan + Sub<Output = F>, Rhs: IntoInner<F>> Sub<Rhs> for Real<F> {
    type Output = Self;

    /// The difference. In strict mode it must not be NaN.
    fn sub(self, rhs: Rhs) -> (r: Self)
        ensures
            F::obeys_sub_spec() ==> r@ == self@.sub_spec(rhs.inner_spec()),
            STRICT ==> r.wf(),
    {
        Real(self.0.sub(rhs.into_inner()))
    }
}

impl<F: IsNan + Sub<Output = F>, Rhs: IntoInner<F>> SubSpecImpl<Rhs> for Real<F> {
    open spec fn obeys_sub_spec() -> bool {
        F::obeys_sub_spec()
    }

    open spec fn sub_req(self, rhs: Rhs) -> bool {
        &&& self@.sub_req(rhs.inner_spec())
        &&& STRICT ==> F::obeys_sub_spec() && Self::valid(self@.sub_spec(rhs.inner_spec()))
    }

    open spec fn sub_spec(self, rhs: Rhs) -> Self {
        Self::of(self@.sub_spec(rhs.inner_spec()))
    }
}

impl<F: IsNan + Neg<Output = F>> Real<F> {
    /// The number with its sign flipped, or the error if it is NaN.
    pub fn try_neg(self) -> (r: Result<Self, NanError>)
        requires
            self@.neg_req(),
        ensures
            F::obeys_neg_spec() ==> Self::admits(self@.neg_spec(), r),
            r is Ok ==> r->Ok_0.wf(),
    {
        Self::lift(self.0.try_neg())
    }
}

impl<F: IsNan + Neg<Output = F>> Neg for Real<F> {
    type Output = Self;

    /// The number with its sign flipped. In strict mode it must not be NaN.
    fn neg(self) -> (r: Self)
        ensures
            F::obeys_neg_spec() ==> r@ == self@.neg_spec(),
            STRICT ==> r.wf(),
    {
        Real(self.0.neg())
    }
}

impl<F: IsNan + Neg<Output = F>> NegSpecImpl for Real<F> {
    open spec fn obeys_neg_spec() -> bool {
        F::obeys_neg_spec()
    }

    open spec fn neg_req(self) -> bool {
        &&& self@.neg_req()
        &&& STRICT ==> F::obeys_neg_spec() && Self::valid(self@.neg_spec())
    }

    open spec fn neg_spec(self) -> Self {
        Self::of(self@.neg_spec())
    }
}

impl<F: IsNan + Mul<Output = F>> Real<F> {
    /// The product, or the error if it is NaN.
    pub fn try_mul<R: IntoInner<F>>(self, rhs: R) -> (r: Result<Self, NanError>)
        requires
            self@.mul_req(rhs.inner_spec()),
        ensures
            F::obeys_mul_spec() ==> Self::admits(self@.mul_spec(rhs.inner_spec()), r),
            r is Ok ==> r->Ok_0.wf(),
    {
        Self::lift(self.0.try_mul(rhs.into_inner()))
    }

    /// Replaces this number by the product. In strict mode it must not be NaN.
    pub fn mul_assign<R: IntoInner<F>>(&mut self, rhs: R)
        requires
            old(self)@.mul_req(rhs.inner_spec()),
            STRICT ==> F::obeys_mul_spec() && Self::valid(old(self)@.mul_spec(rhs.inner_spec())),
        ensures
            F::obeys_mul_spec() ==> final(self)@ == old(self)@.mul_spec(rhs.inner_spec()),
            STRICT ==> final(self).wf(),
    {
        self.0.mul_assign(rhs.into_inner());
    }
}

impl<F: IsNan + Mul<Output = F>, Rhs: IntoInner<F>> Mul<Rhs> for Real<F> {
    type Output = Self;

    /// The product. In strict mode it must not be NaN.
    fn mul(self, rhs: Rhs) -> (r: Self)
        ensures
            F::obeys_mul_spec() ==> r@ == self@.mul_spec(rhs.inner_spec()),
            STRICT ==> r.wf(),
    {
        Real(self.0.mul(rhs.into_inner()))
    }
}

impl<F: IsNan + Mul<Output = F>, Rhs: IntoInner<F>> MulSpecImpl<Rhs> for Real<F> {
    open spec fn obeys_mul_spec() -> bool {
        F::obeys_mul_spec()
    }

    open spec fn mul_req(self, rhs: Rhs) -> bool {
        &&& self@.mul_req(rhs.inner_spec())
        &&& STRICT ==> F::obeys_mul_spec() && Self::valid(self@.mul_spec(rhs.inner_spec()))
    }

    open spec fn mul_spec(self, rhs: Rhs) -> Self {
        Self::of(self@.mul_spec(rhs.inner_spec()))
    }
}

impl<F: IsNan + Div<Output = F>> Real<F> {
    /// The quotient, or the error if it is NaN.
    pub fn try_div<R: IntoInner<F>>(self, rhs: R) -> (r: Result<Self, NanError>)
        requires
            self@.div_req(rhs.inner_spec()),
        ensures
            F::obeys_div_spec() ==> Self::admits(self@.div_spec(rhs.inner_spec()), r),
            r is Ok ==> r->Ok_0.wf(),
    {
        Self::lift(self.0.try_div(rhs.into_inner()))
    }

    /// Replaces this number by the quotient. In strict mode it must not be
    /// NaN.
    pub fn div_assign<R: IntoInner<F>>(&mut self, rhs: R)
        requires
            old(self)@.div_req(rhs.inner_spec()),
            STRICT ==> F::obeys_div_spec() && Self::valid(old(self)@.div_spec(rhs.inner_spec())),
        ensures
            F::obeys_div_spec() ==> final(self)@ == old(self)@.div_spec(rhs.inner_spec()),
            STRICT ==> final(self).wf(),
    {
        self.0.div_assign(rhs.into_inner());
    }
}

impl<F: IsNan + Div<Output = F>, Rhs: IntoInner<F>> Div<Rhs> for Real<F> {
    type Output = Self;

    /// The quotient. In strict mode it must not be NaN.
    fn div(self, rhs: Rhs) -> (r: Self)
        ensures
            F::obeys_div_spec() ==> r@ == self@.div_spec(rhs.inner_spec()),
            STRICT ==> r.wf(),
    {
        Real(self.0.div(rhs.into_inner()))
    }
}

impl<F: IsNan + Div<Output = F>, Rhs: IntoInner<F>> DivSpecImpl<Rhs> for Real<F> {
    open spec fn obeys_div_spec() -> bool {
        F::obeys_div_spec()
    }

    open spec fn div_req(self, rhs: Rhs) -> bool {
        &&& self@.div_req(rhs.inner_spec())
        &&& STRICT ==> F::obeys_div_spec() && Self::valid(self@.div_spec(rhs.inner_spec()))
    }

    open spec fn div_spec(self, rhs: Rhs) -> Self {
        Self::of(self@.div_spec(rhs.inner_spec()))
    }
}

impl<F: IsNan + Rem<Output = F>> Real<F> {
    /// The remainder of the division, or the error if it is NaN.
    pub fn try_rem<R: IntoInner<F>>(self, rhs: R) -> (r: Result<Self, NanError>)
        requires
            self@.rem_req(rhs.inner_spec()),
        ensures
            F::obeys_rem_spec() ==> Self::admits(self@.rem_spec(rhs.inner_spec()), r),
            r is Ok ==> r->Ok_0.wf(),
    {
        Self::lift(self.0.try_rem(rhs.into_inner()))
    }

    /// Replaces this number by the remainder of the division. In strict mode
    /// it must not be NaN.
    pub fn rem_assign<R: IntoInner<F>>(&mut self, rhs: R)
        requires
            old(self)@.rem_req(rhs.inner_spec()),
            STRICT ==> F::obeys_rem_spec() && Self::valid(old(self)@.rem_spec(rhs.inner_spec())),
        ensures
            F::obeys_rem_spec() ==> final(self)@ == old(self)@.rem_spec(rhs.inner_spec()),
            STRICT ==> final(self).wf(),
    {
        self.0.rem_assign(rhs.into_inner());
    }
}

impl<F: IsNan + Rem<Output = F>, Rhs: IntoInner<F>> Rem<Rhs> for Real<F> {
    type Output = Self;

    /// The remainder of the division. In strict mode it must not be NaN.
    fn rem(self, rhs: Rhs) -> (r: Self)
        ensures
            F::obeys_rem_spec() ==> r@ == self@.rem_spec(rhs.inner_spec()),
            STRICT ==> r.wf(),
    {
        Real(self.0.rem(rhs.into_inner()))
    }
}

impl<F: IsNan + Rem<Output = F>, Rhs: IntoInner<F>> RemSpecImpl<Rhs> for Real<F> {
    open spec fn obeys_rem_spec() -> bool {
        F::obeys_rem_spec()
    }

    open spec fn rem_req(self, rhs: Rhs) -> bool {
        &&& self@.rem_req(rhs.inner_spec())
        &&& STRICT ==> F::obeys_rem_spec() && Self::valid(self@.rem_spec(rhs.inner_spec()))
    }

    open spec fn rem_spec(self, rhs: Rhs) -> Self {
        Self::of(self@.rem_spec(rhs.inner_spec()))
    }
}

impl<F: IsNan + Pow> Real<F> {
    /// `self` raised to the power `n`, or the error if it is NaN.
    pub fn try_powf<R: IntoInner<F>>(self, n: R) -> (r: Result<Self, NanError>)
        ensures
            Self::admits(self@.powf_spec(n.inner_spec()), r),
    {
        Self::lift(self.0.try_powf(n.into_inner()))
    }

    /// `self` raised to the power `n`. In strict mode it must not be NaN.
    pub fn powf<R: IntoInner<F>>(self, n: R) -> (r: Self)
        requires
            STRICT ==> Self::valid(self@.powf_spec(n.inner_spec())),
        ensures
            r@ == self@.powf_spec(n.inner_spec()),
            STRICT ==> r.wf(),
    {
        Real(self.0.powf(n.into_inner()))
    }

    /// `self` raised to the whole power `n`, or the error if it is NaN.
    pub fn try_powi(self, n: i32) -> (r: Result<Self, NanError>)
        ensures
            Self::admits(self@.powi_spec(n), r),
    {
        Self::lift(self.0.try_powi(n))
    }

    /// `self` raised to the whole power `n`. In strict mode it must not be
    /// NaN.
    pub fn powi(self, n: i32) -> (r: Self)
        requires
            STRICT ==> Self::valid(self@.powi_spec(n)),
        ensures
            r@ == self@.powi_spec(n),
            STRICT ==> r.wf(),
    {
        Real(self.0.powi(n))
    }

    /// The reciprocal, `1 / self`. It is wrapped without a check, on the
    /// ground that the reciprocal of a number is a number, if an infinite one.
    pub fn recip(self) -> (r: Self)
        ensures
            r@ == self@.recip_spec(),
    {
        Real(Checked::unchecked_new(self.0.val().recip()))
    }

    /// The square root, or the error if it is NaN.
    pub fn try_sqrt(self) -> (r: Result<Self, NanError>)
        ensures
            Self::admits(self@.sqrt_spec(), r),
    {
        Self::lift(self.0.try_sqrt())
    }

    /// The square root. In strict mode it must not be NaN.
    pub fn sqrt(self) -> (r: Self)
        requires
            STRICT ==> Self::valid(self@.sqrt_spec()),
        ensures
            r@ == self@.sqrt_spec(),
            STRICT ==> r.wf(),
    {
        Real(self.0.sqrt())
    }

    /// The cube root. It is wrapped without a check, on the ground that every
    /// number has a cube root.
    pub fn cbrt(self) -> (r: Self)
        ensures
            r@ == self@.cbrt_spec(),
    {
        Real(Checked::unchecked_new(self.0.val().cbrt()))
    }

    /// The length of the hypotenuse over legs `self` and `other`, or the error
    /// if it is NaN.
    pub fn try_hypot<R: IntoInner<F>>(self, other: R) -> (r: Result<Self, NanError>)
        ensures
            Self::admits(self@.hypot_spec(other.inner_spec()), r),
    {
        Self::lift(self.0.try_hypot(other.into_inner()))
    }

    /// The length of the hypotenuse over legs `self` and `other`. In strict
    /// mode it must not be NaN.
    pub fn hypot<R: IntoInner<F>>(self, other: R) -> (r: Self)
        requires
            STRICT ==> Self::valid(self@.hypot_spec(other.inner_spec())),
        ensures
            r@ == self@.hypot_spec(other.inner_spec()),
            STRICT ==> r.wf(),
    {
        Real(self.0.hypot(other.into_inner()))
    }
}

impl<F: IsNan + Exp> Real<F> {
    /// `e` raised to the power `self`, or the error if it is NaN.
    pub fn try_exp(self) -> (r: Result<Self, NanError>)
        ensures
            Self::admits(self@.exp_spec(), r),
    {
        Self::lift(self.0.try_exp())
    }

    /// 2 raised to the power `self`, or the error if it is NaN.
    pub fn try_exp2(self) -> (r: Result<Self, NanError>)
        ensures
            Self::admits(self@.exp2_spec(), r),
    {
        Self::lift(self.0.try_exp2())
    }

    /// `e^self - 1`, accurate near zero, or the error if it is NaN.
    pub fn try_exp_m1(self) -> (r: Result<Self, NanError>)
        ensures
            Self::admits(self@.exp_m1_spec(), r),
    {
        Self::lift(self.0.try_exp_m1())
    }

    /// The logarithm of `self` to `base`, or the error if it is NaN.
    pub fn try_log<R: IntoInner<F>>(self, base: R) -> (r: Result<Self, NanError>)
        ensures
            Self::admits(self@.log_spec(base.inner_spec()), r),
    {
        Self::lift(self.0.try_log(base.into_inner()))
    }

    /// The natural logarithm, or the error if it is NaN.
    pub fn try_ln(self) -> (r: Result<Self, NanError>)
        ensures
            Self::admits(self@.ln_spec(), r),
    {
        Self::lift(self.0.try_ln())
    }

    /// The logarithm to base 2, or the error if it is NaN.
    pub fn try_log2(self) -> (r: Result<Self, NanError>)
        ensures
            Self::admits(self@.log2_spec(), r),
    {
        Self::lift(self.0.try_log2())
    }

    /// The logarithm to base 10, or the error if it is NaN.
    pub fn try_log10(self) -> (r: Result<Self, NanError>)
        ensures
            Self::admits(self@.log10_spec(), r),
    {
        Self::lift(self.0.try_log10())
    }

    /// `ln(1 + self)`, accurate near zero, or the error if it is NaN.
    pub fn try_ln_1p(self) -> (r: Result<Self, NanError>)
        ensures
            Self::admits(self@.ln_1p_spec(), r),
    {
        Self::lift(self.0.try_ln_1p())
    }

    /// `e` raised to the power `self`. In strict mode it must not be NaN.
    pub fn exp(self) -> (r: Self)
        requires
            STRICT ==> Self::valid(self@.exp_spec()),
        ensures
            r@ == self@.exp_spec(),
            STRICT ==> r.wf(),
    {
        Real(self.0.exp())
    }

    /// 2 raised to the power `self`. In strict mode it must not be NaN.
    pub fn exp2(self) -> (r: Self)
        requires
            STRICT ==> Self::valid(self@.exp2_spec()),
        ensures
            r@ == self@.exp2_spec(),
            STRICT ==> r.wf(),
    {
        Real(self.0.exp2())
    }

    /// `e^self - 1`, accurate near zero. In strict mode it must not be NaN.
    pub fn exp_m1(self) -> (r: Self)
        requires
            STRICT ==> Self::valid(self@.exp_m1_spec()),
        ensures
            r@ == self@.exp_m1_spec(),
            STRICT ==> r.wf(),
    {
        Real(self.0.exp_m1())
    }

    /// The logarithm of `self` to `base`. In strict mode it must not be NaN.
    pub fn log<R: IntoInner<F>>(self, base: R) -> (r: Self)
        requires
            STRICT ==> Self::valid(self@.log_spec(base.inner_spec())),
        ensures
            r@ == self@.log_spec(base.inner_spec()),
            STRICT ==> r.wf(),
    {
        Real(self.0.log(base.into_inner()))
    }

    /// The natural logarithm. In strict mode it must not be NaN.
    pub fn ln(self) -> (r: Self)
        requires
            STRICT ==> Self::valid(self@.ln_spec()),
        ensures
            r@ == self@.ln_spec(),
            STRICT ==> r.wf(),
    {
        Real(self.0.ln())
    }

    /// The logarithm to base 2. In strict mode it must not be NaN.
    pub fn log2(self) -> (r: Self)
        requires
            STRICT ==> Self::valid(self@.log2_spec()),
        ensures
            r@ == self@.log2_spec(),
            STRICT ==> r.wf(),
    {
        Real(self.0.log2())
    }

    /// The logarithm to base 10. In strict mode it must not be NaN.
    pub fn log10(self) -> (r: Self)
        requires
            STRICT ==> Self::valid(self@.log10_spec()),
        ensures
            r@ == self@.log10_spec(),
            STRICT ==> r.wf(),
    {
        Real(self.0.log10())
    }

    /// `ln(1 + self)`, accurate near zero. In strict mode it must not be NaN.
    pub fn ln_1p(self) -> (r: Self)
        requires
            STRICT ==> Self::valid(self@.ln_1p_spec()),
        ensures
            r@ == self@.ln_1p_spec(),
            STRICT ==> r.wf(),
    {
        Real(self.0.ln_1p())
    }
}

impl<F: IsNan + Trig> Real<F> {
    /// The sine, or the error if it is NaN.
    pub fn try_sin(self) -> (r: Result<Self, NanError>)
        ensures
            Self::admits(self@.sin_spec(), r),
    {
        Self::lift(self.0.try_sin())
    }

    /// The sine. In strict mode it must not be NaN.
    pub fn sin(self) -> (r: Self)
        requires
            STRICT ==> Self::valid(self@.sin_spec()),
        ensures
            r@ == self@.sin_spec(),
            STRICT ==> r.wf(),
    {
        Real(self.0.sin())
    }

    /// The cosine, or the error if it is NaN.
    pub fn try_cos(self) -> (r: Result<Self, NanError>)
        ensures
            Self::admits(self@.cos_spec(), r),
    {
        Self::lift(self.0.try_cos())
    }

    /// The cosine. In strict mode it must not be NaN.
    pub fn cos(self) -> (r: Self)
        requires
            STRICT ==> Self::valid(self@.cos_spec()),
        ensures
            r@ == self@.cos_spec(),
            STRICT ==> r.wf(),
    {
        Real(self.0.cos())
    }

    /// The sine and the cosine, or the error if one of them is NaN.
    pub fn try_sin_cos(self) -> (r: Result<(Self, Self), NanError>)
        ensures
            match r {
                Ok(p) => Self::valid(self@.sin_cos_spec().0) && Self::valid(self@.sin_cos_spec().1)
                    && p.0@ == self@.sin_cos_spec().0 && p.1@ == self@.sin_cos_spec().1,
                Err(_) => !(Self::valid(self@.sin_cos_spec().0) && Self::valid(
                    self@.sin_cos_spec().1,
                )),
            },
    {
        match self.0.try_sin_cos() {
            Ok((s, c)) => Ok((Real(s), Real(c))),
            Err(e) => Err(e),
        }
    }

    /// The sine and the cosine. In strict mode neither may be NaN.
    pub fn sin_cos(self) -> (r: (Self, Self))
        requires
            STRICT ==> Self::valid(self@.sin_cos_spec().0) && Self::valid(self@.sin_cos_spec().1),
        ensures
            r.0@ == self@.sin_cos_spec().0,
            r.1@ == self@.sin_cos_spec().1,
            STRICT ==> r.0.wf() && r.1.wf(),
    {
        let (s, c) = self.0.sin_cos();
        (Real(s), Real(c))
    }

    /// The tangent, or the error if it is NaN.
    pub fn try_tan(self) -> (r: Result<Self, NanError>)
        ensures
            Self::admits(self@.tan_spec(), r),
    {
        Self::lift(self.0.try_tan())
    }

    /// The tangent. In strict mode it must not be NaN.
    pub fn tan(self) -> (r: Self)
        requires
            STRICT ==> Self::valid(self@.tan_spec()),
        ensures
            r@ == self@.tan_spec(),
            STRICT ==> r.wf(),
    {
        Real(self.0.tan())
    }

    /// The arcsine, or the error if it is NaN.
    pub fn try_asin(self) -> (r: Result<Self, NanError>)
        ensures
            Self::admits(self@.asin_spec(), r),
    {
        Self::lift(self.0.try_asin())
    }

    /// The arcsine. In strict mode it must not be NaN.
    pub fn asin(self) -> (r: Self)
        requires
            STRICT ==> Self::valid(self@.asin_spec()),
        ensures
            r@ == self@.asin_spec(),
            STRICT ==> r.wf(),
    {
        Real(self.0.asin())
    }

    /// The arccosine, or the error if it is NaN.
    pub fn try_acos(self) -> (r: Result<Self, NanError>)
        ensures
            Self::admits(self@.acos_spec(), r),
    {
        Self::lift(self.0.try_acos())
    }

    /// The arccosine. In strict mode it must not be NaN.
    pub fn acos(self) -> (r: Self)
        requires
            STRICT ==> Self::valid(self@.acos_spec()),
        ensures
            r@ == self@.acos_spec(),
            STRICT ==> r.wf(),
    {
        Real(self.0.acos())
    }

    /// The arctangent, or the error if it is NaN.
    pub fn try_atan(self) -> (r: Result<Self, NanError>)
        ensures
            Self::admits(self@.atan_spec(), r),
    {
        Self::lift(self.0.try_atan())
    }

    /// The arctangent. In strict mode it must not be NaN.
    pub fn atan(self) -> (r: Self)
        requires
            STRICT ==> Self::valid(self@.atan_spec()),
        ensures
            r@ == self@.atan_spec(),
            STRICT ==> r.wf(),
    {
        Real(self.0.atan())
    }

    /// The four-quadrant arctangent of `self` (y) and `other` (x), or the
    /// error if it is NaN.
    pub fn try_atan2<R: IntoInner<F>>(self, other: R) -> (r: Result<Self, NanError>)
        ensures
            Self::admits(self@.atan2_spec(other.inner_spec()), r),
    {
        Self::lift(self.0.try_atan2(other.into_inner()))
    }

    /// The four-quadrant arctangent of `self` (y) and `other` (x). In strict
    /// mode it must not be NaN.
    pub fn atan2<R: IntoInner<F>>(self, other: R) -> (r: Self)
        requires
            STRICT ==> Self::valid(self@.atan2_spec(other.inner_spec())),
        ensures
            r@ == self@.atan2_spec(other.inner_spec()),
            STRICT ==> r.wf(),
    {
        Real(self.0.atan2(other.into_inner()))
    }
}

} // verus!
