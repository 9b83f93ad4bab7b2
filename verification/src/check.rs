//! The engine behind every checked type: one raw number under one rule.
//!
//! Every operation comes in two forms. `try_op` computes on the raw numbers
//! and asks the rule about the result. `op` does the same in strict mode,
//! where the rule must accept the result, and wraps the result unasked in
//! lenient mode. The rounding and sign operations have one form only, which
//! never asks.
//!
//! `+`, `-`, `*`, `/`, `%` and unary `-` are the operators of the raw type.
//! An operator may have a precondition of its own (`add_req`); it is passed
//! on to the caller. What it returns is known where the raw type obeys its
//! specification (`obeys_add_spec`), and is then `add_spec` of the operands.
//! Verified callers write unary minus as a call, `x.neg()`.
use std::cmp::Ordering;
use std::marker::PhantomData;
use std::ops::{Add, Div, Mul, Neg, Rem, Sub};
use vstd::prelude::*;
use vstd::std_specs::cmp::{PartialEqSpecImpl, PartialOrdSpecImpl};
use vstd::std_specs::ops::{AddSpec, DivSpec, MulSpec, NegSpec, RemSpec, SubSpec};
use vstd::std_specs::ops::{
    AddSpecImpl, DivSpecImpl, MulSpecImpl, NegSpecImpl, RemSpecImpl, SubSpecImpl,
};
use crate::bits::ToOrd;
use crate::ops::{Exp, Pow, Round, Signed, Trig};

verus! {

/// Whether the constructors and operations that cannot report a failure
/// refuse an invalid value. It is fixed when the crate is built: `true` is
/// strict mode, `false` lenient mode, in which those entry points wrap what
/// they get. The fallible entry points ask the rule in either mode.
pub const STRICT: bool = true;

/// A validity rule on raw numbers of type `F`, with the one reason it gives
/// for every number that it turns down.
pub trait Check<F>: Sized + Copy {
    type Error;

    /// The numbers that the rule accepts.
    spec fn valid(val: F) -> bool;

    /// The reason given for every other number.
    spec fn reason() -> Self::Error;

    /// Hands an accepted number back; gives the reason for any other.
    fn check(val: F) -> (r: Result<F, Self::Error>)
        ensures
            Self::valid(val) ==> r == Ok::<F, Self::Error>(val),
            !Self::valid(val) ==> r == Err::<F, Self::Error>(Self::reason()),
    ;
}

/// The value of a result that the caller has shown to be a success.
pub fn unwrap_display<T, E>(res: Result<T, E>) -> (val: T)
    requires
        res is Ok,
    ensures
        res == Ok::<T, E>(val),
{
    match res {
        Ok(val) => val,
        Err(_) => vstd::pervasive::unreached(),
    }
}

/// One raw number under the rule `C`.
///
/// A value made by `try_new`, or in strict mode by `new` or by an operation
/// that asks the rule, is well formed: the rule accepts the number it holds.
/// One made by `unchecked_new`, or by an operation that wraps without asking,
/// is well formed only if the caller, or the raw type, saw to it: no contract
/// says so.
#[derive(Debug)]
pub struct Checked<F, C: Check<F>>(F, PhantomData<C>);

impl<F, C: Check<F>> View for Checked<F, C> {
    type V = F;

    closed spec fn view(&self) -> F {
        self.0
    }
}

impl<F: Copy, C: Check<F>> Clone for Checked<F, C> {
    fn clone(&self) -> (r: Self)
        ensures
            r == *self,
    {
        *self
    }
}

impl<F: Copy, C: Check<F>> Copy for Checked<F, C> {

}

impl<F: Copy + Default, C: Check<F>> Default for Checked<F, C> {
    /// The default of the raw type, wrapped without asking the rule.
    fn default() -> (r: Self)
        ensures
            call_ensures(F::default, (), r@),
    {
        Checked(F::default(), PhantomData)
    }
}

impl<F: Copy, C: Check<F>> Checked<F, C> {
    /// Whether the rule accepts the number held.
    pub open spec fn wf(self) -> bool {
        C::valid(self@)
    }

    /// Whether `r` is the answer of the rule on `val`: `val` wrapped where
    /// the rule accepts it, the rule's reason where it does not.
    pub open spec fn admits(val: F, r: Result<Self, C::Error>) -> bool {
        match r {
            Ok(c) => C::valid(val) && c@ == val,
            Err(e) => !C::valid(val) && e == C::reason(),
        }
    }

    /// Whether `r` is the answer of the rule on a pair: both wrapped where
    /// the rule accepts both, the rule's reason where it turns one down.
    pub open spec fn admits_pair(val: (F, F), r: Result<(Self, Self), C::Error>) -> bool {
        match r {
            Ok(p) => C::valid(val.0) && C::valid(val.1) && p.0@ == val.0 && p.1@ == val.1,
            Err(e) => !(C::valid(val.0) && C::valid(val.1)) && e == C::reason(),
        }
    }

    /// The wrapper that holds `val`.
    pub closed spec fn of(val: F) -> Self {
        Checked(val, PhantomData)
    }

    /// A wrapper is known by the number it holds.
    pub proof fn lemma_of_view(self)
        ensures
            self == Self::of(self@),
            Self::of(self@)@ == self@,
    {
    }

    /// Wraps `val` if the rule accepts it, and gives the rule's reason if not.
    pub fn try_new(val: F) -> (r: Result<Self, C::Error>)
        ensures
            Self::admits(val, r),
    {
        match C::check(val) {
            Ok(val) => Ok(Checked(val, PhantomData)),
            Err(e) => Err(e),
        }
    }

    /// Wraps `val`. In strict mode the rule must accept it; in lenient mode
    /// the rule is not asked.
    pub fn new(val: F) -> (r: Self)
        requires
            STRICT ==> C::valid(val),
        ensures
            r@ == val,
            STRICT ==> r.wf(),
    {
        if STRICT {
            unwrap_display(Self::try_new(val))
        } else {
            Checked(val, PhantomData)
        }
    }

    /// Wraps `val` without asking the rule. The caller answers for it: what
    /// the comparisons say of a number that the rule turns down is not
    /// defined.
    pub fn unchecked_new(val: F) -> (r: Self)
        ensures
            r@ == val,
    {
        Checked(val, PhantomData)
    }

    /// The number held.
    pub fn val(self) -> (r: F)
        ensures
            r == self@,
    {
        self.0
    }
}

/// How two keys compare as integers.
pub open spec fn key_order(lhs: u64, rhs: u64) -> Ordering {
    if lhs < rhs {
        Ordering::Less
    } else if lhs == rhs {
        Ordering::Equal
    } else {
        Ordering::Greater
    }
}

/// Compares two keys as integers.
pub fn compare_keys(lhs: u64, rhs: u64) -> (r: Ordering)
    ensures
        r == key_order(lhs, rhs),
{
    if lhs < rhs {
        Ordering::Less
    } else if lhs == rhs {
        Ordering::Equal
    } else {
        Ordering::Greater
    }
}

impl<F: ToOrd, C: Check<F>> PartialEq<F> for Checked<F, C> {
    /// Whether the number held and the raw number stand on one key.
    fn eq(&self, rhs: &F) -> (r: bool) {
        self.0.total_eq(*rhs)
    }
}

impl<F: ToOrd, C: Check<F>> PartialEqSpecImpl<F> for Checked<F, C> {
    open spec fn obeys_eq_spec() -> bool {
        true
    }

    open spec fn eq_spec(&self, rhs: &F) -> bool {
        self@.ord_spec() == rhs.ord_spec()
    }
}

impl<F: ToOrd, C: Check<F>> PartialEq for Checked<F, C> {
    /// Whether the two numbers held stand on one key.
    fn eq(&self, rhs: &Self) -> (r: bool) {
        self.0.total_eq(rhs.0)
    }
}

impl<F: ToOrd, C: Check<F>> PartialEqSpecImpl for Checked<F, C> {
    open spec fn obeys_eq_spec() -> bool {
        true
    }

    open spec fn eq_spec(&self, rhs: &Self) -> bool {
        self@.ord_spec() == rhs@.ord_spec()
    }
}

impl<F: ToOrd, C: Check<F>> PartialOrd<F> for Checked<F, C> {
    /// How the number held compares with a raw number. A raw number that
    /// the rule turns down compares with nothing.
    fn partial_cmp(&self, rhs: &F) -> (r: Option<Ordering>) {
        match C::check(*rhs) {
            Ok(rhs) => Some(compare_keys(self.0.to_ord(), rhs.to_ord())),
            Err(_) => None,
        }
    }
}

impl<F: ToOrd, C: Check<F>> PartialOrdSpecImpl<F> for Checked<F, C> {
    open spec fn obeys_partial_cmp_spec() -> bool {
        true
    }

    open spec fn partial_cmp_spec(&self, rhs: &F) -> Option<Ordering> {
        if C::valid(*rhs) {
            Some(key_order(self@.ord_spec(), rhs.ord_spec()))
        } else {
            None
        }
    }
}

impl<F: ToOrd, C: Check<F>> PartialOrd for Checked<F, C> {
    /// How the two numbers held compare.
    fn partial_cmp(&self, rhs: &Self) -> (r: Option<Ordering>) {
        Some(self.cmp(rhs))
    }
}

impl<F: ToOrd, C: Check<F>> PartialOrdSpecImpl for Checked<F, C> {
    open spec fn obeys_partial_cmp_spec() -> bool {
        true
    }

    open spec fn partial_cmp_spec(&self, rhs: &Self) -> Option<Ordering> {
        Some(key_order(self@.ord_spec(), rhs@.ord_spec()))
    }
}

impl<F: Copy + ToOrd, C: Check<F>> Checked<F, C> {
    /// How the two numbers held compare: as their keys do.
    pub fn cmp(&self, rhs: &Self) -> (r: Ordering)
        ensures
            r == key_order(self@.ord_spec(), rhs@.ord_spec()),
    {
        let lhs = self.0.to_ord();
        let rhs = rhs.0.to_ord();
        compare_keys(lhs, rhs)
    }

    /// The larger of the number held and `other`. An `other` that the rule
    /// turns down is left out, and so is one that is not larger.
    pub fn max(self, other: F) -> (r: Self)
        ensures
            r@ == if C::valid(other) && self@.ord_spec() < other.ord_spec() {
                other
            } else {
                self@
            },
            self.wf() ==> r.wf(),
    {
        match self.partial_cmp(&other) {
            Some(Ordering::Less) => Checked(other, PhantomData),
            _ => self,
        }
    }

    /// The smaller of the number held and `other`. An `other` that the rule
    /// turns down is left out; one on the same key is taken.
    pub fn min(self, other: F) -> (r: Self)
        ensures
            r@ == if C::valid(other) && other.ord_spec() <= self@.ord_spec() {
                other
            } else {
                self@
            },
            self.wf() ==> r.wf(),
    {
        match self.partial_cmp(&other) {
            Some(Ordering::Less) => self,
            None => self,
            _ => Checked(other, PhantomData),
        }
    }
}

impl<F: Copy + Signed, C: Check<F>> Checked<F, C> {
    /// The magnitude, wrapped without asking the rule.
    pub fn abs(self) -> (r: Self)
        ensures
            r@ == self@.abs_spec(),
    {
        Checked(self.0.abs(), PhantomData)
    }

    /// One with the sign of the number held, wrapped without asking the rule.
    pub fn signum(self) -> (r: Self)
        ensures
            r@ == self@.signum_spec(),
    {
        Checked(self.0.signum(), PhantomData)
    }

    /// Whether the number held carries a positive sign.
    pub fn is_sign_positive(self) -> (r: bool)
        ensures
            r == !self@.is_sign_negative_spec(),
    {
        self.0.is_sign_positive()
    }

    /// Whether the number held carries a negative sign.
    pub fn is_sign_negative(self) -> (r: bool)
        ensures
            r == self@.is_sign_negative_spec(),
    {
        self.0.is_sign_negative()
    }
}

impl<F: Copy + Round, C: Check<F>> Checked<F, C> {
    /// The largest whole number at or below `self`, wrapped without asking the
    /// rule.
    pub fn floor(self) -> (r: Self)
        ensures
            r@ == self@.floor_spec(),
    {
        Checked(self.0.floor(), PhantomData)
    }

    /// The smallest whole number at or above `self`, wrapped without asking
    /// the rule.
    pub fn ceil(self) -> (r: Self)
        ensures
            r@ == self@.ceil_spec(),
    {
        Checked(self.0.ceil(), PhantomData)
    }

    /// The nearest whole number; halfway cases go away from zero, wrapped
    /// without asking the rule.
    pub fn round(self) -> (r: Self)
        ensures
            r@ == self@.round_spec(),
    {
        Checked(self.0.round(), PhantomData)
    }

    /// The whole-number part of `self`, wrapped without asking the rule.
    pub fn trunc(self) -> (r: Self)
        ensures
            r@ == self@.trunc_spec(),
    {
        Checked(self.0.trunc(), PhantomData)
    }

    /// The fractional part of `self`, wrapped without asking the rule.
    pub fn fract(self) -> (r: Self)
        ensures
            r@ == self@.fract_spec(),
    {
        Checked(self.0.fract(), PhantomData)
    }
}

impl<F: Copy + Add<Output = F>, C: Check<F>> Checked<F, C> {
    /// The sum, if the rule accepts it; the rule's reason if not.
    pub fn try_add(self, rhs: F) -> (r: Result<Self, C::Error>)
        requires
            self@.add_req(rhs),
        ensures
            F::obeys_add_spec() ==> Self::admits(self@.add_spec(rhs), r),
            r is Ok ==> r->Ok_0.wf(),
            r is Err ==> r->Err_0 == C::reason(),
    {
        let output = self.0.add(rhs);
        Self::try_new(output)
    }

    /// Replaces the number held by the sum. In strict mode the rule must
    /// accept it.
    pub fn add_assign(&mut self, rhs: F)
        requires
            old(self)@.add_req(rhs),
            STRICT ==> F::obeys_add_spec() && C::valid(old(self)@.add_spec(rhs)),
        ensures
            F::obeys_add_spec() ==> final(self)@ == old(self)@.add_spec(rhs),
            STRICT ==> final(self).wf(),
    {
        self.0 = self.0.add(rhs);
        if STRICT {
            let _ = unwrap_display(C::check(self.0));
        }
    }
}

impl<F: Copy + Add<Output = F>, C: Check<F>> Add<F> for Checked<F, C> {
    type Output = Self;

    /// The sum. In strict mode the rule must accept it.
    fn add(self, rhs: F) -> (r: Self)
        ensures
            F::obeys_add_spec() ==> r@ == self@.add_spec(rhs),
            STRICT ==> r.wf(),
    {
        if STRICT {
            unwrap_display(self.try_add(rhs))
        } else {
            Checked(self.0.add(rhs), PhantomData)
        }
    }
}

impl<F: Copy + Add<Output = F>, C: Check<F>> AddSpecImpl<F> for Checked<F, C> {
    open spec fn obeys_add_spec() -> bool {
        F::obeys_add_spec()
    }

    open spec fn add_req(self, rhs: F) -> bool {
        &&& self@.add_req(rhs)
        &&& STRICT ==> F::obeys_add_spec() && C::valid(self@.add_spec(rhs))
    }

    open spec fn add_spec(self, rhs: F) -> Self {
        Self::of(self@.add_spec(rhs))
    }
}

impl<F: Copy + Sub<Output = F>, C: Check<F>> Checked<F, C> {
    /// The difference, if the rule accepts it; the rule's reason if not.
    pub fn try_sub(self, rhs: F) -> (r: Result<Self, C::Error>)
        requires
            self@.sub_req(rhs),
        ensures
            F::obeys_sub_spec() ==> Self::admits(self@.sub_spec(rhs), r),
            r is Ok ==> r->Ok_0.wf(),
            r is Err ==> r->Err_0 == C::reason(),
    {
        let output = self.0.sub(rhs);
        Self::try_new(output)
    }

    /// Replaces the number held by the difference. In strict mode the rule
    /// must accept it.
    pub fn sub_assign(&mut self, rhs: F)
        requires
            old(self)@.sub_req(rhs),
            STRICT ==> F::obeys_sub_spec() && C::valid(old(self)@.sub_spec(rhs)),
        ensures
            F::obeys_sub_spec() ==> final(self)@ == old(self)@.sub_spec(rhs),
            STRICT ==> final(self).wf(),
    {
        self.0 = self.0.sub(rhs);
        if STRICT {
            let _ = unwrap_display(C::check(self.0));
        }
    }
}

impl<F: Copy + Sub<Output = F>, C: Check<F>> Sub<F> for Checked<F, C> {
    type Output = Self;

    /// The difference. In strict mode the rule must accept it.
    fn sub(self, rhs: F) -> (r: Self)
        ensures
            F::obeys_sub_spec() ==> r@ == self@.sub_spec(rhs),
            STRICT ==> r.wf(),
    {
        if STRICT {
            unwrap_display(self.try_sub(rhs))
        } else {
            Checked(self.0.sub(rhs), PhantomData)
        }
    }
}

impl<F: Copy + Sub<Output = F>, C: Check<F>> SubSpecImpl<F> for Checked<F, C> {
    open spec fn obeys_sub_spec() -> bool {
        F::obeys_sub_spec()
    }

    open spec fn sub_req(self, rhs: F) -> bool {
        &&& self@.sub_req(rhs)
        &&& STRICT ==> F::obeys_sub_spec() && C::valid(self@.sub_spec(rhs))
    }

    open spec fn sub_spec(self, rhs: F) -> Self {
        Self::of(self@.sub_spec(rhs))
    }
}

impl<F: Copy + Neg<Output = F>, C: Check<F>> Checked<F, C> {
    /// The number with its sign flipped, if the rule accepts it; the rule's
    /// reason if not.
    pub fn try_neg(self) -> (r: Result<Self, C::Error>)
        requires
            self@.neg_req(),
        ensures
            F::obeys_neg_spec() ==> Self::admits(self@.neg_spec(), r),
            r is Ok ==> r->Ok_0.wf(),
            r is Err ==> r->Err_0 == C::reason(),
    {
        let output = self.0.neg();
        Self::try_new(output)
    }
}

impl<F: Copy + Neg<Output = F>, C: Check<F>> Neg for Checked<F, C> {
    type Output = Self;

    /// The number with its sign flipped. In strict mode the rule must accept
    /// it.
    fn neg(self) -> (r: Self)
        ensures
            F::obeys_neg_spec() ==> r@ == self@.neg_spec(),
            STRICT ==> r.wf(),
    {
        if STRICT {
            unwrap_display(self.try_neg())
        } else {
            Checked(self.0.neg(), PhantomData)
        }
    }
}

impl<F: Copy + Neg<Output = F>, C: Check<F>> NegSpecImpl for Checked<F, C> {
    open spec fn obeys_neg_spec() -> bool {
        F::obeys_neg_spec()
    }

    open spec fn neg_req(self) -> bool {
        &&& self@.neg_req()
        &&& STRICT ==> F::obeys_neg_spec() && C::valid(self@.neg_spec())
    }

    open spec fn neg_spec(self) -> Self {
        Self::of(self@.neg_spec())
    }
}

impl<F: Copy + Mul<Output = F>, C: Check<F>> Checked<F, C> {
    /// The product, if the rule accepts it; the rule's reason if not.
    pub fn try_mul(self, rhs: F) -> (r: Result<Self, C::Error>)
        requires
            self@.mul_req(rhs),
        ensures
            F::obeys_mul_spec() ==> Self::admits(self@.mul_spec(rhs), r),
            r is Ok ==> r->Ok_0.wf(),
            r is Err ==> r->Err_0 == C::reason(),
    {
        let output = self.0.mul(rhs);
        Self::try_new(output)
    }

    /// Replaces the number held by the product. In strict mode the rule must
    /// accept it.
    pub fn mul_assign(&mut self, rhs: F)
        requires
            old(self)@.mul_req(rhs),
            STRICT ==> F::obeys_mul_spec() && C::valid(old(self)@.mul_spec(rhs)),
        ensures
            F::obeys_mul_spec() ==> final(self)@ == old(self)@.mul_spec(rhs),
            STRICT ==> final(self).wf(),
    {
        self.0 = self.0.mul(rhs);
        if STRICT {
            let _ = unwrap_display(C::check(self.0));
        }
    }
}

impl<F: Copy + Mul<Output = F>, C: Check<F>> Mul<F> for Checked<F, C> {
    type Output = Self;

    /// The product. In strict mode the rule must accept it.
    fn mul(self, rhs: F) -> (r: Self)
        ensures
            F::obeys_mul_spec() ==> r@ == self@.mul_spec(rhs),
            STRICT ==> r.wf(),
    {
        if STRICT {
            unwrap_display(self.try_mul(rhs))
        } else {
            Checked(self.0.mul(rhs), PhantomData)
        }
    }
}

impl<F: Copy + Mul<Output = F>, C: Check<F>> MulSpecImpl<F> for Checked<F, C> {
    open spec fn obeys_mul_spec() -> bool {
        F::obeys_mul_spec()
    }

    open spec fn mul_req(self, rhs: F) -> bool {
        &&& self@.mul_req(rhs)
        &&& STRICT ==> F::obeys_mul_spec() && C::valid(self@.mul_spec(rhs))
    }

    open spec fn mul_spec(self, rhs: F) -> Self {
        Self::of(self@.mul_spec(rhs))
    }
}

impl<F: Copy + Div<Output = F>, C: Check<F>> Checked<F, C> {
    /// The quotient, if the rule accepts it; the rule's reason if not.
    pub fn try_div(self, rhs: F) -> (r: Result<Self, C::Error>)
        requires
            self@.div_req(rhs),
        ensures
            F::obeys_div_spec() ==> Self::admits(self@.div_spec(rhs), r),
            r is Ok ==> r->Ok_0.wf(),
            r is Err ==> r->Err_0 == C::reason(),
    {
        let output = self.0.div(rhs);
        Self::try_new(output)
    }

    /// Replaces the number held by the quotient. In strict mode the rule must
    /// accept it.
    pub fn div_assign(&mut self, rhs: F)
        requires
            old(self)@.div_req(rhs),
            STRICT ==> F::obeys_div_spec() && C::valid(old(self)@.div_spec(rhs)),
        ensures
            F::obeys_div_spec() ==> final(self)@ == old(self)@.div_spec(rhs),
            STRICT ==> final(self).wf(),
    {
        self.0 = self.0.div(rhs);
        if STRICT {
            let _ = unwrap_display(C::check(self.0));
        }
    }
}

impl<F: Copy + Div<Output = F>, C: Check<F>> Div<F> for Checked<F, C> {
    type Output = Self;

    /// The quotient. In strict mode the rule must accept it.
    fn div(self, rhs: F) -> (r: Self)
        ensures
            F::obeys_div_spec() ==> r@ == self@.div_spec(rhs),
            STRICT ==> r.wf(),
    {
        if STRICT {
            unwrap_display(self.try_div(rhs))
        } else {
            Checked(self.0.div(rhs), PhantomData)
        }
    }
}

impl<F: Copy + Div<Output = F>, C: Check<F>> DivSpecImpl<F> for Checked<F, C> {
    open spec fn obeys_div_spec() -> bool {
        F::obeys_div_spec()
    }

    open spec fn div_req(self, rhs: F) -> bool {
        &&& self@.div_req(rhs)
        &&& STRICT ==> F::obeys_div_spec() && C::valid(self@.div_spec(rhs))
    }

    open spec fn div_spec(self, rhs: F) -> Self {
        Self::of(self@.div_spec(rhs))
    }
}

impl<F: Copy + Rem<Output = F>, C: Check<F>> Checked<F, C> {
    /// The remainder of the division, if the rule accepts it; the rule's
    /// reason if not.
    pub fn try_rem(self, rhs: F) -> (r: Result<Self, C::Error>)
        requires
            self@.rem_req(rhs),
        ensures
            F::obeys_rem_spec() ==> Self::admits(self@.rem_spec(rhs), r),
            r is Ok ==> r->Ok_0.wf(),
            r is Err ==> r->Err_0 == C::reason(),
    {
        let output = self.0.rem(rhs);
        Self::try_new(output)
    }

    /// Replaces the number held by the remainder of the division. In strict
    /// mode the rule must accept it.
    pub fn rem_assign(&mut self, rhs: F)
        requires
            old(self)@.rem_req(rhs),
            STRICT ==> F::obeys_rem_spec() && C::valid(old(self)@.rem_spec(rhs)),
        ensures
            F::obeys_rem_spec() ==> final(self)@ == old(self)@.rem_spec(rhs),
            STRICT ==> final(self).wf(),
    {
        self.0 = self.0.rem(rhs);
        if STRICT {
            let _ = unwrap_display(C::check(self.0));
        }
    }
}

impl<F: Copy + Rem<Output = F>, C: Check<F>> Rem<F> for Checked<F, C> {
    type Output = Self;

    /// The remainder of the division. In strict mode the rule must accept it.
    fn rem(self, rhs: F) -> (r: Self)
        ensures
            F::obeys_rem_spec() ==> r@ == self@.rem_spec(rhs),
            STRICT ==> r.wf(),
    {
        if STRICT {
            unwrap_display(self.try_rem(rhs))
        } else {
            Checked(self.0.rem(rhs), PhantomData)
        }
    }
}

impl<F: Copy + Rem<Output = F>, C: Check<F>> RemSpecImpl<F> for Checked<F, C> {
    open spec fn obeys_rem_spec() -> bool {
        F::obeys_rem_spec()
    }

    open spec fn rem_req(self, rhs: F) -> bool {
        &&& self@.rem_req(rhs)
        &&& STRICT ==> F::obeys_rem_spec() && C::valid(self@.rem_spec(rhs))
    }

    open spec fn rem_spec(self, rhs: F) -> Self {
        Self::of(self@.rem_spec(rhs))
    }
}

impl<F: Copy + Pow, C: Check<F>> Checked<F, C> {
    /// `self` raised to the power `n`, if the rule accepts it; the rule's
    /// reason if not.
    pub fn try_powf(self, n: F) -> (r: Result<Self, C::Error>)
        ensures
            Self::admits(self@.powf_spec(n), r),
    {
        let output = self.0.powf(n);
        Self::try_new(output)
    }

    /// `self` raised to the whole power `n`, if the rule accepts it; the
    /// rule's reason if not.
    pub fn try_powi(self, n: i32) -> (r: Result<Self, C::Error>)
        ensures
            Self::admits(self@.powi_spec(n), r),
    {
        let output = self.0.powi(n);
        Self::try_new(output)
    }

    /// The reciprocal, `1 / self`, if the rule accepts it; the rule's reason
    /// if not.
    pub fn try_recip(self) -> (r: Result<Self, C::Error>)
        ensures
            Self::admits(self@.recip_spec(), r),
    {
        let output = self.0.recip();
        Self::try_new(output)
    }

    /// The square root, if the rule accepts it; the rule's reason if not.
    pub fn try_sqrt(self) -> (r: Result<Self, C::Error>)
        ensures
            Self::admits(self@.sqrt_spec(), r),
    {
        let output = self.0.sqrt();
        Self::try_new(output)
    }

    /// The cube root, if the rule accepts it; the rule's reason if not.
    pub fn try_cbrt(self) -> (r: Result<Self, C::Error>)
        ensures
            Self::admits(self@.cbrt_spec(), r),
    {
        let output = self.0.cbrt();
        Self::try_new(output)
    }

    /// The length of the hypotenuse over legs `self` and `other`, if the rule
    /// accepts it; the rule's reason if not.
    pub fn try_hypot(self, other: F) -> (r: Result<Self, C::Error>)
        ensures
            Self::admits(self@.hypot_spec(other), r),
    {
        let output = self.0.hypot(other);
        Self::try_new(output)
    }

    /// `self` raised to the power `n`. In strict mode the rule must accept it.
    pub fn powf(self, n: F) -> (r: Self)
        requires
            STRICT ==> C::valid(self@.powf_spec(n)),
        ensures
            r@ == self@.powf_spec(n),
            STRICT ==> r.wf(),
    {
        if STRICT {
            unwrap_display(self.try_powf(n))
        } else {
            Checked(self.0.powf(n), PhantomData)
        }
    }

    /// `self` raised to the whole power `n`. In strict mode the rule must
    /// accept it.
    pub fn powi(self, n: i32) -> (r: Self)
        requires
            STRICT ==> C::valid(self@.powi_spec(n)),
        ensures
            r@ == self@.powi_spec(n),
            STRICT ==> r.wf(),
    {
        if STRICT {
            unwrap_display(self.try_powi(n))
        } else {
            Checked(self.0.powi(n), PhantomData)
        }
    }

    /// The reciprocal, `1 / self`. In strict mode the rule must accept it.
    pub fn recip(self) -> (r: Self)
        requires
            STRICT ==> C::valid(self@.recip_spec()),
        ensures
            r@ == self@.recip_spec(),
            STRICT ==> r.wf(),
    {
        if STRICT {
            unwrap_display(self.try_recip())
        } else {
            Checked(self.0.recip(), PhantomData)
        }
    }

    /// The square root. In strict mode the rule must accept it.
    pub fn sqrt(self) -> (r: Self)
        requires
            STRICT ==> C::valid(self@.sqrt_spec()),
        ensures
            r@ == self@.sqrt_spec(),
            STRICT ==> r.wf(),
    {
        if STRICT {
            unwrap_display(self.try_sqrt())
        } else {
            Checked(self.0.sqrt(), PhantomData)
        }
    }

    /// The cube root. In strict mode the rule must accept it.
    pub fn cbrt(self) -> (r: Self)
        requires
            STRICT ==> C::valid(self@.cbrt_spec()),
        ensures
            r@ == self@.cbrt_spec(),
            STRICT ==> r.wf(),
    {
        if STRICT {
            unwrap_display(self.try_cbrt())
        } else {
            Checked(self.0.cbrt(), PhantomData)
        }
    }

    /// The length of the hypotenuse over legs `self` and `other`. In strict
    /// mode the rule must accept it.
    pub fn hypot(self, other: F) -> (r: Self)
        requires
            STRICT ==> C::valid(self@.hypot_spec(other)),
        ensures
            r@ == self@.hypot_spec(other),
            STRICT ==> r.wf(),
    {
        if STRICT {
            unwrap_display(self.try_hypot(other))
        } else {
            Checked(self.0.hypot(other), PhantomData)
        }
    }
}

impl<F: Copy + Exp, C: Check<F>> Checked<F, C> {
    /// `e` raised to the power `self`, if the rule accepts it; the rule's
    /// reason if not.
    pub fn try_exp(self) -> (r: Result<Self, C::Error>)
        ensures
            Self::admits(self@.exp_spec(), r),
    {
        let output = self.0.exp();
        Self::try_new(output)
    }

    /// 2 raised to the power `self`, if the rule accepts it; the rule's reason
    /// if not.
    pub fn try_exp2(self) -> (r: Result<Self, C::Error>)
        ensures
            Self::admits(self@.exp2_spec(), r),
    {
        let output = self.0.exp2();
        Self::try_new(output)
    }

    /// `e^self - 1`, accurate near zero, if the rule accepts it; the rule's
    /// reason if not.
    pub fn try_exp_m1(self) -> (r: Result<Self, C::Error>)
        ensures
            Self::admits(self@.exp_m1_spec(), r),
    {
        let output = self.0.exp_m1();
        Self::try_new(output)
    }

    /// The logarithm of `self` to `base`, if the rule accepts it; the rule's
    /// reason if not.
    pub fn try_log(self, base: F) -> (r: Result<Self, C::Error>)
        ensures
            Self::admits(self@.log_spec(base), r),
    {
        let output = self.0.log(base);
        Self::try_new(output)
    }

    /// The natural logarithm, if the rule accepts it; the rule's reason if
    /// not.
    pub fn try_ln(self) -> (r: Result<Self, C::Error>)
        ensures
            Self::admits(self@.ln_spec(), r),
    {
        let output = self.0.ln();
        Self::try_new(output)
    }

    /// The logarithm to base 2, if the rule accepts it; the rule's reason if
    /// not.
    pub fn try_log2(self) -> (r: Result<Self, C::Error>)
        ensures
            Self::admits(self@.log2_spec(), r),
    {
        let output = self.0.log2();
        Self::try_new(output)
    }

    /// The logarithm to base 10, if the rule accepts it; the rule's reason if
    /// not.
    pub fn try_log10(self) -> (r: Result<Self, C::Error>)
        ensures
            Self::admits(self@.log10_spec(), r),
    {
        let output = self.0.log10();
        Self::try_new(output)
    }

    /// `ln(1 + self)`, accurate near zero, if the rule accepts it; the rule's
    /// reason if not.
    pub fn try_ln_1p(self) -> (r: Result<Self, C::Error>)
        ensures
            Self::admits(self@.ln_1p_spec(), r),
    {
        let output = self.0.ln_1p();
        Self::try_new(output)
    }

    /// `e` raised to the power `self`. In strict mode the rule must accept it.
    pub fn exp(self) -> (r: Self)
        requires
            STRICT ==> C::valid(self@.exp_spec()),
        ensures
            r@ == self@.exp_spec(),
            STRICT ==> r.wf(),
    {
        if STRICT {
            unwrap_display(self.try_exp())
        } else {
            Checked(self.0.exp(), PhantomData)
        }
    }

    /// 2 raised to the power `self`. In strict mode the rule must accept it.
    pub fn exp2(self) -> (r: Self)
        requires
            STRICT ==> C::valid(self@.exp2_spec()),
        ensures
            r@ == self@.exp2_spec(),
            STRICT ==> r.wf(),
    {
        if STRICT {
            unwrap_display(self.try_exp2())
        } else {
            Checked(self.0.exp2(), PhantomData)
        }
    }

    /// `e^self - 1`, accurate near zero. In strict mode the rule must accept
    /// it.
    pub fn exp_m1(self) -> (r: Self)
        requires
            STRICT ==> C::valid(self@.exp_m1_spec()),
        ensures
            r@ == self@.exp_m1_spec(),
            STRICT ==> r.wf(),
    {
        if STRICT {
            unwrap_display(self.try_exp_m1())
        } else {
            Checked(self.0.exp_m1(), PhantomData)
        }
    }

    /// The logarithm of `self` to `base`. In strict mode the rule must accept
    /// it.
    pub fn log(self, base: F) -> (r: Self)
        requires
            STRICT ==> C::valid(self@.log_spec(base)),
        ensures
            r@ == self@.log_spec(base),
            STRICT ==> r.wf(),
    {
        if STRICT {
            unwrap_display(self.try_log(base))
        } else {
            Checked(self.0.log(base), PhantomData)
        }
    }

    /// The natural logarithm. In strict mode the rule must accept it.
    pub fn ln(self) -> (r: Self)
        requires
            STRICT ==> C::valid(self@.ln_spec()),
        ensures
            r@ == self@.ln_spec(),
            STRICT ==> r.wf(),
    {
        if STRICT {
            unwrap_display(self.try_ln())
        } else {
            Checked(self.0.ln(), PhantomData)
        }
    }

    /// The logarithm to base 2. In strict mode the rule must accept it.
    pub fn log2(self) -> (r: Self)
        requires
            STRICT ==> C::valid(self@.log2_spec()),
        ensures
            r@ == self@.log2_spec(),
            STRICT ==> r.wf(),
    {
        if STRICT {
            unwrap_display(self.try_log2())
        } else {
            Checked(self.0.log2(), PhantomData)
        }
    }

    /// The logarithm to base 10. In strict mode the rule must accept it.
    pub fn log10(self) -> (r: Self)
        requires
            STRICT ==> C::valid(self@.log10_spec()),
        ensures
            r@ == self@.log10_spec(),
            STRICT ==> r.wf(),
    {
        if STRICT {
            unwrap_display(self.try_log10())
        } else {
            Checked(self.0.log10(), PhantomData)
        }
    }

    /// `ln(1 + self)`, accurate near zero. In strict mode the rule must accept
    /// it.
    pub fn ln_1p(self) -> (r: Self)
        requires
            STRICT ==> C::valid(self@.ln_1p_spec()),
        ensures
            r@ == self@.ln_1p_spec(),
            STRICT ==> r.wf(),
    {
        if STRICT {
            unwrap_display(self.try_ln_1p())
        } else {
            Checked(self.0.ln_1p(), PhantomData)
        }
    }
}

impl<F: Copy + Trig, C: Check<F>> Checked<F, C> {
    /// The sine, if the rule accepts it; the rule's reason if not.
    pub fn try_sin(self) -> (r: Result<Self, C::Error>)
        ensures
            Self::admits(self@.sin_spec(), r),
    {
        let output = self.0.sin();
        Self::try_new(output)
    }

    /// The cosine, if the rule accepts it; the rule's reason if not.
    pub fn try_cos(self) -> (r: Result<Self, C::Error>)
        ensures
            Self::admits(self@.cos_spec(), r),
    {
        let output = self.0.cos();
        Self::try_new(output)
    }

    /// The sine and the cosine, if the rule accepts both; the rule's reason if
    /// not.
    pub fn try_sin_cos(self) -> (r: Result<(Self, Self), C::Error>)
        ensures
            Self::admits_pair(self@.sin_cos_spec(), r),
    {
        let (s, c) = self.0.sin_cos();
        match Self::try_new(s) {
            Ok(s) => match Self::try_new(c) {
                Ok(c) => Ok((s, c)),
                Err(e) => Err(e),
            },
            Err(e) => Err(e),
        }
    }

    /// The tangent, if the rule accepts it; the rule's reason if not.
    pub fn try_tan(self) -> (r: Result<Self, C::Error>)
        ensures
            Self::admits(self@.tan_spec(), r),
    {
        let output = self.0.tan();
        Self::try_new(output)
    }

    /// The arcsine, if the rule accepts it; the rule's reason if not.
    pub fn try_asin(self) -> (r: Result<Self, C::Error>)
        ensures
            Self::admits(self@.asin_spec(), r),
    {
        let output = self.0.asin();
        Self::try_new(output)
    }

    /// The arccosine, if the rule accepts it; the rule's reason if not.
    pub fn try_acos(self) -> (r: Result<Self, C::Error>)
        ensures
            Self::admits(self@.acos_spec(), r),
    {
        let output = self.0.acos();
        Self::try_new(output)
    }

    /// The arctangent, if the rule accepts it; the rule's reason if not.
    pub fn try_atan(self) -> (r: Result<Self, C::Error>)
        ensures
            Self::admits(self@.atan_spec(), r),
    {
        let output = self.0.atan();
        Self::try_new(output)
    }

    /// The four-quadrant arctangent of `self` (y) and `other` (x), if the rule
    /// accepts it; the rule's reason if not.
    pub fn try_atan2(self, other: F) -> (r: Result<Self, C::Error>)
        ensures
            Self::admits(self@.atan2_spec(other), r),
    {
        let output = self.0.atan2(other);
        Self::try_new(output)
    }

    /// The sine. In strict mode the rule must accept it.
    pub fn sin(self) -> (r: Self)
        requires
            STRICT ==> C::valid(self@.sin_spec()),
        ensures
            r@ == self@.sin_spec(),
            STRICT ==> r.wf(),
    {
        if STRICT {
            unwrap_display(self.try_sin())
        } else {
            Checked(self.0.sin(), PhantomData)
        }
    }

    /// The cosine. In strict mode the rule must accept it.
    pub fn cos(self) -> (r: Self)
        requires
            STRICT ==> C::valid(self@.cos_spec()),
        ensures
            r@ == self@.cos_spec(),
            STRICT ==> r.wf(),
    {
        if STRICT {
            unwrap_display(self.try_cos())
        } else {
            Checked(self.0.cos(), PhantomData)
        }
    }

    /// The sine and the cosine. In strict mode the rule must accept both.
    pub fn sin_cos(self) -> (r: (Self, Self))
        requires
            STRICT ==> C::valid(self@.sin_cos_spec().0) && C::valid(self@.sin_cos_spec().1),
        ensures
            r.0@ == self@.sin_cos_spec().0,
            r.1@ == self@.sin_cos_spec().1,
            STRICT ==> r.0.wf() && r.1.wf(),
    {
        if STRICT {
            unwrap_display(self.try_sin_cos())
        } else {
            let (s, c) = self.0.sin_cos();
            (Checked(s, PhantomData), Checked(c, PhantomData))
        }
    }

    /// The tangent. In strict mode the rule must accept it.
    pub fn tan(self) -> (r: Self)
        requires
            STRICT ==> C::valid(self@.tan_spec()),
        ensures
            r@ == self@.tan_spec(),
            STRICT ==> r.wf(),
    {
        if STRICT {
            unwrap_display(self.try_tan())
        } else {
            Checked(self.0.tan(), PhantomData)
        }
    }

    /// The arcsine. In strict mode the rule must accept it.
    pub fn asin(self) -> (r: Self)
        requires
            STRICT ==> C::valid(self@.asin_spec()),
        ensures
            r@ == self@.asin_spec(),
            STRICT ==> r.wf(),
    {
        if STRICT {
            unwrap_display(self.try_asin())
        } else {
            Checked(self.0.asin(), PhantomData)
        }
    }

    /// The arccosine. In strict mode the rule must accept it.
    pub fn acos(self) -> (r: Self)
        requires
            STRICT ==> C::valid(self@.acos_spec()),
        ensures
            r@ == self@.acos_spec(),
            STRICT ==> r.wf(),
    {
        if STRICT {
            unwrap_display(self.try_acos())
        } else {
            Checked(self.0.acos(), PhantomData)
        }
    }

    /// The arctangent. In strict mode the rule must accept it.
    pub fn atan(self) -> (r: Self)
        requires
            STRICT ==> C::valid(self@.atan_spec()),
        ensures
            r@ == self@.atan_spec(),
            STRICT ==> r.wf(),
    {
        if STRICT {
            unwrap_display(self.try_atan())
        } else {
            Checked(self.0.atan(), PhantomData)
        }
    }

    /// The four-quadrant arctangent of `self` (y) and `other` (x). In strict
    /// mode the rule must accept it.
    pub fn atan2(self, other: F) -> (r: Self)
        requires
            STRICT ==> C::valid(self@.atan2_spec(other)),
        ensures
            r@ == self@.atan2_spec(other),
            STRICT ==> r.wf(),
    {
        if STRICT {
            unwrap_display(self.try_atan2(other))
        } else {
            Checked(self.0.atan2(other), PhantomData)
        }
    }
}


} // verus!
