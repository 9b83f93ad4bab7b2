//! What holds of the rules and the checked types, whatever the numbers.
use std::cmp::Ordering;
use vstd::prelude::*;
use vstd::std_specs::cmp::{PartialEqSpec, PartialOrdSpec};
use vstd::std_specs::ops::NegSpec;
use crate::bits::{ieee_eq32, ieee_eq64, ieee_lt32, ieee_lt64};
use crate::bits::{value32, value64};
use crate::bits::{infinite32, infinite64, nan32, nan64, negative32, negative64};
use crate::bits::{lemma_binary32_total_order, lemma_binary64_total_order};
use crate::bits::{lemma_key32_injective, lemma_key64_injective};
use crate::bits::{Binary32, Binary64, ToOrd};
use crate::check::{key_order, Check, Checked};
use crate::finite::{Finite, InfiniteError, IsFinite};
use crate::non_neg::{IsNegative, NegativeError, NonNeg};
use crate::not_nan::{IsNan, NanError, Real};
use crate::ops::Signed;

verus! {

/// A number that the rule accepts is wrapped as it is: `try_new` succeeds,
/// the wrapper is well formed, and `val` hands the number back.
pub proof fn lemma_valid_is_kept<F: Copy, C: Check<F>>(
    val: F,
    r: Result<Checked<F, C>, C::Error>,
)
    requires
        C::valid(val),
        Checked::<F, C>::admits(val, r),
    ensures
        r is Ok,
        r->Ok_0@ == val,
        r->Ok_0.wf(),
{
}

/// A number that the rule turns down is never wrapped by `try_new`: the
/// answer is the rule's reason.
pub proof fn lemma_invalid_is_refused<F: Copy, C: Check<F>>(
    val: F,
    r: Result<Checked<F, C>, C::Error>,
)
    requires
        !C::valid(val),
        Checked::<F, C>::admits(val, r),
    ensures
        r == Err::<Checked<F, C>, C::Error>(C::reason()),
{
}

/// A [`Real`] made from a number that is not NaN holds that number.
pub proof fn lemma_real_keeps_value<F: IsNan>(val: F, r: Result<Real<F>, NanError>)
    requires
        !val.is_nan_spec(),
        Real::<F>::admits(val, r),
    ensures
        r is Ok,
        r->Ok_0@ == val,
        r->Ok_0.wf(),
{
}

/// A [`Finite`] made from a finite number holds that number.
pub proof fn lemma_finite_keeps_value<F: IsFinite>(val: F, r: Result<Finite<F>, InfiniteError>)
    requires
        val.is_finite_spec(),
        Finite::<F>::admits(val, r),
    ensures
        r is Ok,
        r->Ok_0@ == val,
        r->Ok_0.wf(),
{
}

/// A [`NonNeg`] made from a number that is not NaN and carries no negative
/// sign holds that number.
pub proof fn lemma_non_neg_keeps_value<F: IsNegative>(val: F, r: Result<NonNeg<F>, NegativeError>)
    requires
        !val.is_nan_spec(),
        !val.is_sign_negative_spec(),
        NonNeg::<F>::admits(val, r),
    ensures
        r is Ok,
        r->Ok_0@ == val,
        r->Ok_0.wf(),
{
}

/// Whatever [`NonNeg`] accepts, [`Real`] accepts.
pub proof fn lemma_non_neg_is_real<F: IsNegative>(val: F)
    requires
        NonNeg::<F>::valid(val),
    ensures
        Real::<F>::valid(val),
{
}

/// The three rules on binary32 numbers. NaN is turned down by all of them.
/// An infinity is accepted by [`Real`] and turned down by [`Finite`];
/// [`NonNeg`] turns down the negative one only. Minus one, like every
/// finite number under a negative sign, is turned down by [`NonNeg`] alone.
pub proof fn lemma_rules_on_binary32(v: Binary32)
    ensures
        nan32(v.bits) ==> (!Real::<Binary32>::valid(v) && !Finite::<Binary32>::valid(v)
            && !NonNeg::<Binary32>::valid(v)),
        infinite32(v.bits) ==> (Real::<Binary32>::valid(v) && !Finite::<Binary32>::valid(v)
            && (NonNeg::<Binary32>::valid(v) <==> !negative32(v.bits))),
        Finite::<Binary32>::valid(v) ==> (Real::<Binary32>::valid(v)),
        Finite::<Binary32>::valid(v) && negative32(v.bits) ==> !(NonNeg::<Binary32>::valid(v)),
        v.bits == 0xbf80_0000u32 ==> Finite::<Binary32>::valid(v) && negative32(v.bits),
{
    assert(0xbf80_0000u32 & 0x7fff_ffffu32 < 0x7f80_0000u32) by (bit_vector);
    assert(0xbf80_0000u32 & 0x8000_0000u32 != 0) by (bit_vector);
}

/// The three rules on binary64 numbers; see [`lemma_rules_on_binary32`].
pub proof fn lemma_rules_on_binary64(v: Binary64)
    ensures
        nan64(v.bits) ==> (!Real::<Binary64>::valid(v) && !Finite::<Binary64>::valid(v)
            && !NonNeg::<Binary64>::valid(v)),
        infinite64(v.bits) ==> (Real::<Binary64>::valid(v) && !Finite::<Binary64>::valid(v)
            && (NonNeg::<Binary64>::valid(v) <==> !negative64(v.bits))),
        Finite::<Binary64>::valid(v) ==> (Real::<Binary64>::valid(v)),
        Finite::<Binary64>::valid(v) && negative64(v.bits) ==> !(NonNeg::<Binary64>::valid(v)),
        v.bits == 0xbff0_0000_0000_0000u64 ==> Finite::<Binary64>::valid(v) && negative64(v.bits),
{
    assert(0xbff0_0000_0000_0000u64 & 0x7fff_ffff_ffff_ffffu64 < 0x7ff0_0000_0000_0000u64)
        by (bit_vector);
    assert(0xbff0_0000_0000_0000u64 & 0x8000_0000_0000_0000u64 != 0) by (bit_vector);
}

/// `abs` and `signum` never leave a rule: of a binary32 number that a rule
/// accepts, the rule accepts the magnitude and the sign. So the two may be
/// wrapped without a check.
pub proof fn lemma_sign_ops_stay_valid32(v: Binary32)
    ensures
        Real::<Binary32>::valid(v) ==> (Real::<Binary32>::valid(v.abs_spec())
            && Real::<Binary32>::valid(v.signum_spec())),
        Finite::<Binary32>::valid(v) ==> (Finite::<Binary32>::valid(v.abs_spec())
            && Finite::<Binary32>::valid(v.signum_spec())),
        NonNeg::<Binary32>::valid(v) ==> (NonNeg::<Binary32>::valid(v.abs_spec())
            && NonNeg::<Binary32>::valid(v.signum_spec())),
{
    let b = v.bits;
    let m = b & 0x7fff_ffffu32;
    let s = 0x3f80_0000u32 | (b & 0x8000_0000u32);
    assert(m & 0x7fff_ffffu32 == m && m & 0x8000_0000u32 == 0) by (bit_vector)
        requires
            m == b & 0x7fff_ffffu32,
    ;
    assert(s & 0x7fff_ffffu32 == 0x3f80_0000u32 && (s & 0x8000_0000u32) == (b & 0x8000_0000u32))
        by (bit_vector)
        requires
            s == 0x3f80_0000u32 | (b & 0x8000_0000u32),
    ;
}

/// `abs` and `signum` never leave a rule, on binary64 numbers; see
/// [`lemma_sign_ops_stay_valid32`].
pub proof fn lemma_sign_ops_stay_valid64(v: Binary64)
    ensures
        Real::<Binary64>::valid(v) ==> (Real::<Binary64>::valid(v.abs_spec())
            && Real::<Binary64>::valid(v.signum_spec())),
        Finite::<Binary64>::valid(v) ==> (Finite::<Binary64>::valid(v.abs_spec())
            && Finite::<Binary64>::valid(v.signum_spec())),
        NonNeg::<Binary64>::valid(v) ==> (NonNeg::<Binary64>::valid(v.abs_spec())
            && NonNeg::<Binary64>::valid(v.signum_spec())),
{
    let b = v.bits;
    let m = b & 0x7fff_ffff_ffff_ffffu64;
    let s = 0x3ff0_0000_0000_0000u64 | (b & 0x8000_0000_0000_0000u64);
    assert(m & 0x7fff_ffff_ffff_ffffu64 == m && m & 0x8000_0000_0000_0000u64 == 0)
        by (bit_vector)
        requires
            m == b & 0x7fff_ffff_ffff_ffffu64,
    ;
    assert(s & 0x7fff_ffff_ffff_ffffu64 == 0x3ff0_0000_0000_0000u64 && (s
        & 0x8000_0000_0000_0000u64) == (b & 0x8000_0000_0000_0000u64)) by (bit_vector)
        requires
            s == 0x3ff0_0000_0000_0000u64 | (b & 0x8000_0000_0000_0000u64),
    ;
}

/// Negation of binary32 numbers: twice is the number itself; NaN stays NaN
/// and nothing else becomes NaN, so [`Real`] and [`Finite`] both keep what
/// they accept; the number it stands for changes its sign, so the order of
/// two numbers turns round.
pub proof fn lemma_negation32(a: Binary32, b: Binary32)
    ensures
        a.neg_spec().neg_spec() == a,
        Real::<Binary32>::valid(a.neg_spec()) == Real::<Binary32>::valid(a),
        Finite::<Binary32>::valid(a.neg_spec()) == Finite::<Binary32>::valid(a),
        value32(a.neg_spec().bits) == -value32(a.bits),
        ieee_lt32(a.bits, b.bits) <==> ieee_lt32(b.neg_spec().bits, a.neg_spec().bits),
{
    lemma_sign_flip32(a.bits);
    lemma_sign_flip32(b.bits);
}

/// Flipping the sign bit leaves the magnitude alone.
proof fn lemma_sign_flip32(x: u32)
    ensures
        (x ^ 0x8000_0000u32) ^ 0x8000_0000u32 == x,
        (x ^ 0x8000_0000u32) & 0x7fff_ffffu32 == x & 0x7fff_ffffu32,
        (x ^ 0x8000_0000u32) & 0x8000_0000u32 != 0 <==> x & 0x8000_0000u32 == 0,
{
    let y = x ^ 0x8000_0000u32;
    assert(y ^ 0x8000_0000u32 == x) by (bit_vector)
        requires
            y == x ^ 0x8000_0000u32,
    ;
    assert(y & 0x7fff_ffffu32 == x & 0x7fff_ffffu32) by (bit_vector)
        requires
            y == x ^ 0x8000_0000u32,
    ;
    assert(y & 0x8000_0000u32 != 0 <==> x & 0x8000_0000u32 == 0) by (bit_vector)
        requires
            y == x ^ 0x8000_0000u32,
    ;
}

/// Negation of binary64 numbers: twice is the number itself; NaN stays NaN
/// and nothing else becomes NaN, so [`Real`] and [`Finite`] both keep what
/// they accept; the number it stands for changes its sign, so the order of
/// two numbers turns round.
pub proof fn lemma_negation64(a: Binary64, b: Binary64)
    ensures
        a.neg_spec().neg_spec() == a,
        Real::<Binary64>::valid(a.neg_spec()) == Real::<Binary64>::valid(a),
        Finite::<Binary64>::valid(a.neg_spec()) == Finite::<Binary64>::valid(a),
        value64(a.neg_spec().bits) == -value64(a.bits),
        ieee_lt64(a.bits, b.bits) <==> ieee_lt64(b.neg_spec().bits, a.neg_spec().bits),
{
    lemma_sign_flip64(a.bits);
    lemma_sign_flip64(b.bits);
}

/// Flipping the sign bit leaves the magnitude alone.
proof fn lemma_sign_flip64(x: u64)
    ensures
        (x ^ 0x8000_0000_0000_0000u64) ^ 0x8000_0000_0000_0000u64 == x,
        (x ^ 0x8000_0000_0000_0000u64) & 0x7fff_ffff_ffff_ffffu64 == x & 0x7fff_ffff_ffff_ffffu64,
        (x ^ 0x8000_0000_0000_0000u64) & 0x8000_0000_0000_0000u64 != 0 <==> x
            & 0x8000_0000_0000_0000u64 == 0,
{
    let y = x ^ 0x8000_0000_0000_0000u64;
    assert(y ^ 0x8000_0000_0000_0000u64 == x) by (bit_vector)
        requires
            y == x ^ 0x8000_0000_0000_0000u64,
    ;
    assert(y & 0x7fff_ffff_ffff_ffffu64 == x & 0x7fff_ffff_ffff_ffffu64) by (bit_vector)
        requires
            y == x ^ 0x8000_0000_0000_0000u64,
    ;
    assert(y & 0x8000_0000_0000_0000u64 != 0 <==> x & 0x8000_0000_0000_0000u64 == 0) by (bit_vector)
        requires
            y == x ^ 0x8000_0000_0000_0000u64,
    ;
}

/// The two zeros of binary32 are equal in the total order: they have one
/// key, so `total_eq` holds of them.
pub proof fn lemma_zeros_are_equal32(pos: Binary32, neg: Binary32)
    requires
        pos.bits == 0,
        neg.bits == 0x8000_0000u32,
    ensures
        pos.ord_spec() == neg.ord_spec(),
{
    lemma_key32_injective(0u32, 0x8000_0000u32);
    assert(0x8000_0000u32 & 0x7fff_ffffu32 == 0) by (bit_vector);
    assert(0u32 & 0x7fff_ffffu32 == 0) by (bit_vector);
}

/// The two zeros of binary64 are equal in the total order: they have one
/// key, so `total_eq` holds of them.
pub proof fn lemma_zeros_are_equal64(pos: Binary64, neg: Binary64)
    requires
        pos.bits == 0,
        neg.bits == 0x8000_0000_0000_0000u64,
    ensures
        pos.ord_spec() == neg.ord_spec(),
{
    lemma_key64_injective(0u64, 0x8000_0000_0000_0000u64);
    assert(0x8000_0000_0000_0000u64 & 0x7fff_ffff_ffff_ffffu64 == 0) by (bit_vector);
    assert(0u64 & 0x7fff_ffff_ffff_ffffu64 == 0) by (bit_vector);
}

/// The order of the keys is a total order: every two keys compare, a key
/// equals itself, `Less` one way is `Greater` the other way, and `Less`
/// carries over a middle key.
pub proof fn lemma_key_order_is_total(a: u64, b: u64, c: u64)
    ensures
        key_order(a, a) == Ordering::Equal,
        key_order(a, b) == Ordering::Equal <==> a == b,
        key_order(a, b) == Ordering::Less <==> key_order(b, a) == Ordering::Greater,
        key_order(a, b) == Ordering::Less && key_order(b, c) == Ordering::Less ==> key_order(a, c)
            == Ordering::Less,
{
}

/// A raw number that the rule turns down compares with nothing: against it
/// `<`, `<=`, `>` and `>=` are all false, in strict and in lenient mode.
pub proof fn lemma_invalid_is_incomparable<F: ToOrd, C: Check<F>>(x: Checked<F, C>, raw: F)
    requires
        !C::valid(raw),
    ensures
        x.partial_cmp_spec(&raw) is None,
{
}

/// Between two binary32 numbers under one rule, neither of them NaN, `<` and
/// `==` say what IEEE-754 says.
pub proof fn lemma_checked32_order<C: Check<Binary32>>(
    a: Checked<Binary32, C>,
    b: Checked<Binary32, C>,
)
    requires
        !nan32(a@.bits),
        !nan32(b@.bits),
    ensures
        a.partial_cmp_spec(&b) == Some(Ordering::Less) <==> ieee_lt32(a@.bits, b@.bits),
        a.partial_cmp_spec(&b) == Some(Ordering::Greater) <==> ieee_lt32(b@.bits, a@.bits),
        a.eq_spec(&b) <==> ieee_eq32(a@.bits, b@.bits),
{
    lemma_binary32_total_order(a@, b@);
    lemma_binary32_total_order(b@, a@);
}

/// Between two well-formed binary32 [`Real`]s, `<` and `==` say what IEEE-754
/// says.
pub proof fn lemma_real32_order(a: Real<Binary32>, b: Real<Binary32>)
    requires
        a.wf(),
        b.wf(),
    ensures
        a.partial_cmp_spec(&b) == Some(Ordering::Less) <==> ieee_lt32(a@.bits, b@.bits),
        a.partial_cmp_spec(&b) == Some(Ordering::Greater) <==> ieee_lt32(b@.bits, a@.bits),
        a.eq_spec(&b) <==> ieee_eq32(a@.bits, b@.bits),
{
    lemma_rules_on_binary32(a@);
    lemma_rules_on_binary32(b@);
    lemma_binary32_total_order(a@, b@);
    lemma_binary32_total_order(b@, a@);
}

/// Between two well-formed binary32 [`Finite`]s, `<` and `==` say what IEEE-754
/// says.
pub proof fn lemma_finite32_order(a: Finite<Binary32>, b: Finite<Binary32>)
    requires
        a.wf(),
        b.wf(),
    ensures
        a.partial_cmp_spec(&b) == Some(Ordering::Less) <==> ieee_lt32(a@.bits, b@.bits),
        a.partial_cmp_spec(&b) == Some(Ordering::Greater) <==> ieee_lt32(b@.bits, a@.bits),
        a.eq_spec(&b) <==> ieee_eq32(a@.bits, b@.bits),
{
    lemma_rules_on_binary32(a@);
    lemma_rules_on_binary32(b@);
    lemma_binary32_total_order(a@, b@);
    lemma_binary32_total_order(b@, a@);
}

/// Between two well-formed binary32 [`NonNeg`]s, `<` and `==` say what IEEE-754
/// says.
pub proof fn lemma_non_neg32_order(a: NonNeg<Binary32>, b: NonNeg<Binary32>)
    requires
        a.wf(),
        b.wf(),
    ensures
        a.partial_cmp_spec(&b) == Some(Ordering::Less) <==> ieee_lt32(a@.bits, b@.bits),
        a.partial_cmp_spec(&b) == Some(Ordering::Greater) <==> ieee_lt32(b@.bits, a@.bits),
        a.eq_spec(&b) <==> ieee_eq32(a@.bits, b@.bits),
{
    lemma_rules_on_binary32(a@);
    lemma_rules_on_binary32(b@);
    lemma_binary32_total_order(a@, b@);
    lemma_binary32_total_order(b@, a@);
}

/// Between two binary64 numbers under one rule, neither of them NaN, `<` and
/// `==` say what IEEE-754 says.
pub proof fn lemma_checked64_order<C: Check<Binary64>>(
    a: Checked<Binary64, C>,
    b: Checked<Binary64, C>,
)
    requires
        !nan64(a@.bits),
        !nan64(b@.bits),
    ensures
        a.partial_cmp_spec(&b) == Some(Ordering::Less) <==> ieee_lt64(a@.bits, b@.bits),
        a.partial_cmp_spec(&b) == Some(Ordering::Greater) <==> ieee_lt64(b@.bits, a@.bits),
        a.eq_spec(&b) <==> ieee_eq64(a@.bits, b@.bits),
{
    lemma_binary64_total_order(a@, b@);
    lemma_binary64_total_order(b@, a@);
}

/// Between two well-formed binary64 [`Real`]s, `<` and `==` say what IEEE-754
/// says.
pub proof fn lemma_real64_order(a: Real<Binary64>, b: Real<Binary64>)
    requires
        a.wf(),
        b.wf(),
    ensures
        a.partial_cmp_spec(&b) == Some(Ordering::Less) <==> ieee_lt64(a@.bits, b@.bits),
        a.partial_cmp_spec(&b) == Some(Ordering::Greater) <==> ieee_lt64(b@.bits, a@.bits),
        a.eq_spec(&b) <==> ieee_eq64(a@.bits, b@.bits),
{
    lemma_rules_on_binary64(a@);
    lemma_rules_on_binary64(b@);
    lemma_binary64_total_order(a@, b@);
    lemma_binary64_total_order(b@, a@);
}

/// Between two well-formed binary64 [`Finite`]s, `<` and `==` say what IEEE-754
/// says.
pub proof fn lemma_finite64_order(a: Finite<Binary64>, b: Finite<Binary64>)
    requires
        a.wf(),
        b.wf(),
    ensures
        a.partial_cmp_spec(&b) == Some(Ordering::Less) <==> ieee_lt64(a@.bits, b@.bits),
        a.partial_cmp_spec(&b) == Some(Ordering::Greater) <==> ieee_lt64(b@.bits, a@.bits),
        a.eq_spec(&b) <==> ieee_eq64(a@.bits, b@.bits),
{
    lemma_rules_on_binary64(a@);
    lemma_rules_on_binary64(b@);
    lemma_binary64_total_order(a@, b@);
    lemma_binary64_total_order(b@, a@);
}

/// Between two well-formed binary64 [`NonNeg`]s, `<` and `==` say what IEEE-754
/// says.
pub proof fn lemma_non_neg64_order(a: NonNeg<Binary64>, b: NonNeg<Binary64>)
    requires
        a.wf(),
        b.wf(),
    ensures
        a.partial_cmp_spec(&b) == Some(Ordering::Less) <==> ieee_lt64(a@.bits, b@.bits),
        a.partial_cmp_spec(&b) == Some(Ordering::Greater) <==> ieee_lt64(b@.bits, a@.bits),
        a.eq_spec(&b) <==> ieee_eq64(a@.bits, b@.bits),
{
    lemma_rules_on_binary64(a@);
    lemma_rules_on_binary64(b@);
    lemma_binary64_total_order(a@, b@);
    lemma_binary64_total_order(b@, a@);
}

} // verus!
