//! The total order on IEEE-754 bit patterns.
use vstd::arithmetic::mul::{lemma_mul_inequality, lemma_mul_strict_inequality};
use vstd::arithmetic::power2::{
    lemma_pow2_pos, lemma_pow2_strictly_increases, lemma_pow2_unfold, pow2,
};
use vstd::prelude::*;

verus! {

/// The sign bit of a binary32 pattern.
pub const SIGN32: u32 = 0x8000_0000;

/// The sign bit of a binary64 pattern.
pub const SIGN64: u64 = 0x8000_0000_0000_0000;

/// Every bit of a binary32 pattern but the sign bit.
pub const MAGNITUDE32: u32 = 0x7fff_ffff;

/// Every bit of a binary64 pattern but the sign bit.
pub const MAGNITUDE64: u64 = 0x7fff_ffff_ffff_ffff;

/// The pattern of positive infinity in binary32: every exponent bit, no
/// mantissa bit.
pub const INF32: u32 = 0x7f80_0000;

/// The pattern of positive infinity in binary64.
pub const INF64: u64 = 0x7ff0_0000_0000_0000;

/// Exponent and mantissa of a binary32 pattern: the pattern without its sign.
pub open spec fn magnitude32(bits: u32) -> u32 {
    bits & 0x7fff_ffffu32
}

/// Exponent and mantissa of a binary64 pattern.
pub open spec fn magnitude64(bits: u64) -> u64 {
    bits & 0x7fff_ffff_ffff_ffffu64
}

/// Whether the sign bit of the pattern is set.
pub open spec fn negative32(bits: u32) -> bool {
    bits & 0x8000_0000u32 != 0
}

/// Whether the sign bit of the pattern is set.
pub open spec fn negative64(bits: u64) -> bool {
    bits & 0x8000_0000_0000_0000u64 != 0
}

/// NaN: every exponent bit set and a mantissa that is not zero.
pub open spec fn nan32(bits: u32) -> bool {
    magnitude32(bits) > 0x7f80_0000u32
}

/// NaN: every exponent bit set and a mantissa that is not zero.
pub open spec fn nan64(bits: u64) -> bool {
    magnitude64(bits) > 0x7ff0_0000_0000_0000u64
}

/// Positive or negative infinity.
pub open spec fn infinite32(bits: u32) -> bool {
    magnitude32(bits) == 0x7f80_0000u32
}

/// Positive or negative infinity.
pub open spec fn infinite64(bits: u64) -> bool {
    magnitude64(bits) == 0x7ff0_0000_0000_0000u64
}

/// The size of a number with exponent field `e` and mantissa `m`, counted in
/// units of the smallest positive number of the format. `unit` is two to the
/// number of mantissa bits: it stands for the leading one that every normal
/// number carries. With an exponent field of zero the number is subnormal
/// and has no leading one.
pub open spec fn size(e: nat, m: nat, unit: nat) -> nat {
    if e == 0 {
        m
    } else {
        (unit + m) * pow2((e - 1) as nat)
    }
}

/// The exponent field of a binary32 pattern.
pub open spec fn exponent32(bits: u32) -> nat {
    (magnitude32(bits) >> 23) as nat
}

/// The exponent field of a binary64 pattern.
pub open spec fn exponent64(bits: u64) -> nat {
    (magnitude64(bits) >> 52) as nat
}

/// The mantissa of a binary32 pattern.
pub open spec fn mantissa32(bits: u32) -> nat {
    (magnitude32(bits) & 0x007f_ffffu32) as nat
}

/// The mantissa of a binary64 pattern.
pub open spec fn mantissa64(bits: u64) -> nat {
    (magnitude64(bits) & 0x000f_ffff_ffff_ffffu64) as nat
}

/// The number that a binary32 pattern stands for, in units of 2^-149. For a
/// finite pattern this is exact. An infinite pattern gets the number that
/// the same formula gives it, which lies beyond every finite one. Of a NaN
/// pattern it says nothing of use.
pub open spec fn value32(bits: u32) -> int {
    if negative32(bits) {
        -(size(exponent32(bits), mantissa32(bits), 0x0080_0000) as int)
    } else {
        size(exponent32(bits), mantissa32(bits), 0x0080_0000) as int
    }
}

/// The number that a binary64 pattern stands for, in units of 2^-1074; see
/// [`value32`].
pub open spec fn value64(bits: u64) -> int {
    if negative64(bits) {
        -(size(exponent64(bits), mantissa64(bits), 0x0010_0000_0000_0000) as int)
    } else {
        size(exponent64(bits), mantissa64(bits), 0x0010_0000_0000_0000) as int
    }
}

/// IEEE-754 `<` on binary32 patterns: false when either side is NaN, and the
/// order of the numbers otherwise. The two zeros are one number.
pub open spec fn ieee_lt32(a: u32, b: u32) -> bool {
    !nan32(a) && !nan32(b) && value32(a) < value32(b)
}

/// IEEE-754 `<` on binary64 patterns; see [`ieee_lt32`].
pub open spec fn ieee_lt64(a: u64, b: u64) -> bool {
    !nan64(a) && !nan64(b) && value64(a) < value64(b)
}

/// IEEE-754 `==` on binary32 patterns: false when either side is NaN.
pub open spec fn ieee_eq32(a: u32, b: u32) -> bool {
    !nan32(a) && !nan32(b) && value32(a) == value32(b)
}

/// IEEE-754 `==` on binary64 patterns: false when either side is NaN.
pub open spec fn ieee_eq64(a: u64, b: u64) -> bool {
    !nan64(a) && !nan64(b) && value64(a) == value64(b)
}

/// Where a pattern stands on the number line, counted in representable
/// values from zero: the magnitude, negated under a sign bit. Both zeros
/// stand at 0.
pub open spec fn rank32(bits: u32) -> int {
    if negative32(bits) {
        -(magnitude32(bits) as int)
    } else {
        magnitude32(bits) as int
    }
}

/// Where a pattern stands on the number line; see [`rank32`].
pub open spec fn rank64(bits: u64) -> int {
    if negative64(bits) {
        -(magnitude64(bits) as int)
    } else {
        magnitude64(bits) as int
    }
}

/// The order key of a binary32 pattern. Values at or above zero are shifted
/// up by 2^31; values below zero are shifted up by 2^31 - 1, which leaves the
/// key 2^31 - 1 unused.
pub open spec fn order_key32(bits: u32) -> u32 {
    if rank32(bits) >= 0 {
        (0x8000_0000 + rank32(bits)) as u32
    } else {
        (0x7fff_ffff + rank32(bits)) as u32
    }
}

/// The order key of a binary64 pattern; see [`order_key32`].
pub open spec fn order_key64(bits: u64) -> u64 {
    if rank64(bits) >= 0 {
        (0x8000_0000_0000_0000 + rank64(bits)) as u64
    } else {
        (0x7fff_ffff_ffff_ffff + rank64(bits)) as u64
    }
}

/// A number that can be turned into a key whose integer order is the total
/// order of the numbers.
///
/// Implementations must place negative and positive zero on one key. What
/// the key of a NaN is, is up to the implementation; callers must not give
/// it a meaning.
pub trait ToOrd: Sized + Copy {
    /// The key of this number.
    spec fn ord_spec(self) -> u64;

    /// Computes the key of this number.
    fn to_ord(self) -> (key: u64)
        ensures
            key == self.ord_spec(),
    ;

    /// Whether two numbers stand on one key. An implementation may answer
    /// this faster than by computing both keys.
    fn total_eq(self, rhs: Self) -> (same: bool)
        ensures
            same == (self.ord_spec() == rhs.ord_spec()),
    {
        self.to_ord() == rhs.to_ord()
    }
}

/// An IEEE-754 binary32 value, held as its bit pattern.
#[derive(Clone, Copy, Debug)]
pub struct Binary32 {
    pub bits: u32,
}

/// An IEEE-754 binary64 value, held as its bit pattern.
#[derive(Clone, Copy, Debug)]
pub struct Binary64 {
    pub bits: u64,
}

impl Default for Binary32 {
    /// Positive zero.
    fn default() -> (r: Self)
        ensures
            r.bits == 0,
    {
        Binary32 { bits: 0 }
    }
}

impl Default for Binary64 {
    /// Positive zero.
    fn default() -> (r: Self)
        ensures
            r.bits == 0,
    {
        Binary64 { bits: 0 }
    }
}

impl Binary32 {
    /// Wraps a bit pattern.
    pub fn from_bits(bits: u32) -> (r: Self)
        ensures
            r.bits == bits,
    {
        Binary32 { bits }
    }

    /// The bit pattern.
    pub fn to_bits(self) -> (bits: u32)
        ensures
            bits == self.bits,
    {
        self.bits
    }
}

impl Binary64 {
    /// Wraps a bit pattern.
    pub fn from_bits(bits: u64) -> (r: Self)
        ensures
            r.bits == bits,
    {
        Binary64 { bits }
    }

    /// The bit pattern.
    pub fn to_bits(self) -> (bits: u64)
        ensures
            bits == self.bits,
    {
        self.bits
    }
}

/// The bit operations of the binary32 key, against [`order_key32`].
proof fn lemma_key32_bits(bits: u32)
    ensures
        bits & 0x8000_0000u32 == 0 ==> order_key32(bits) == bits | 0x8000_0000u32,
        bits & 0x8000_0000u32 != 0 && (bits << 1) == 0 ==> order_key32(bits) == 0x8000_0000u32,
        bits & 0x8000_0000u32 != 0 && (bits << 1) != 0 ==> order_key32(bits) == !bits,
        (bits << 1) == 0 <==> magnitude32(bits) == 0,
{
    let m = bits & 0x7fff_ffffu32;
    assert(m <= 0x7fff_ffffu32) by (bit_vector)
        requires
            m == bits & 0x7fff_ffffu32,
    ;
    assert(bits & 0x8000_0000u32 == 0 ==> (bits | 0x8000_0000u32) == 0x8000_0000u32 + m)
        by (bit_vector)
        requires
            m == bits & 0x7fff_ffffu32,
    ;
    assert(bits & 0x8000_0000u32 != 0 ==> !bits == 0x7fff_ffffu32 - m) by (bit_vector)
        requires
            m == bits & 0x7fff_ffffu32,
    ;
    assert(((bits << 1) == 0) == (m == 0)) by (bit_vector)
        requires
            m == bits & 0x7fff_ffffu32,
    ;
}

/// The bit operations of the binary64 key, against [`order_key64`].
proof fn lemma_key64_bits(bits: u64)
    ensures
        bits & 0x8000_0000_0000_0000u64 == 0 ==> order_key64(bits) == bits
            | 0x8000_0000_0000_0000u64,
        bits & 0x8000_0000_0000_0000u64 != 0 && (bits << 1) == 0 ==> order_key64(bits)
            == 0x8000_0000_0000_0000u64,
        bits & 0x8000_0000_0000_0000u64 != 0 && (bits << 1) != 0 ==> order_key64(bits) == !bits,
        (bits << 1) == 0 <==> magnitude64(bits) == 0,
{
    let m = bits & 0x7fff_ffff_ffff_ffffu64;
    assert(m <= 0x7fff_ffff_ffff_ffffu64) by (bit_vector)
        requires
            m == bits & 0x7fff_ffff_ffff_ffffu64,
    ;
    assert(bits & 0x8000_0000_0000_0000u64 == 0 ==> (bits | 0x8000_0000_0000_0000u64)
        == 0x8000_0000_0000_0000u64 + m) by (bit_vector)
        requires
            m == bits & 0x7fff_ffff_ffff_ffffu64,
    ;
    assert(bits & 0x8000_0000_0000_0000u64 != 0 ==> !bits == 0x7fff_ffff_ffff_ffffu64 - m)
        by (bit_vector)
        requires
            m == bits & 0x7fff_ffff_ffff_ffffu64,
    ;
    assert(((bits << 1) == 0) == (m == 0)) by (bit_vector)
        requires
            m == bits & 0x7fff_ffff_ffff_ffffu64,
    ;
}

impl ToOrd for Binary32 {
    open spec fn ord_spec(self) -> u64 {
        order_key32(self.bits) as u64
    }

    fn to_ord(self) -> (key: u64) {
        let bits: u32 = self.bits;
        proof {
            lemma_key32_bits(bits);
        }
        let key: u32 = if bits & SIGN32 == 0 {
            bits | SIGN32
        } else if bits << 1 == 0 {
            SIGN32
        } else {
            !bits
        };
        key as u64
    }

    fn total_eq(self, rhs: Self) -> (same: bool) {
        let a: u32 = self.bits;
        let b: u32 = rhs.bits;
        proof {
            lemma_key32_bits(a);
            lemma_key32_bits(b);
            lemma_key32_injective(a, b);
        }
        if a << 1 == 0 {
            b << 1 == 0
        } else {
            a == b
        }
    }
}

impl ToOrd for Binary64 {
    open spec fn ord_spec(self) -> u64 {
        order_key64(self.bits)
    }

    fn to_ord(self) -> (key: u64) {
        let bits: u64 = self.bits;
        proof {
            lemma_key64_bits(bits);
        }
        if bits & SIGN64 == 0 {
            bits | SIGN64
        } else if bits << 1 == 0 {
            SIGN64
        } else {
            !bits
        }
    }

    fn total_eq(self, rhs: Self) -> (same: bool) {
        let a: u64 = self.bits;
        let b: u64 = rhs.bits;
        proof {
            lemma_key64_bits(a);
            lemma_key64_bits(b);
            lemma_key64_injective(a, b);
        }
        if a << 1 == 0 {
            b << 1 == 0
        } else {
            a == b
        }
    }
}

/// A pattern is its sign and its magnitude.
proof fn lemma_parts32(a: u32, b: u32)
    ensures
        negative32(a) == negative32(b) && magnitude32(a) == magnitude32(b) ==> a == b,
        magnitude32(a) <= 0x7fff_ffffu32,
{
    assert((a & 0x8000_0000u32 != 0) == (b & 0x8000_0000u32 != 0) && (a & 0x7fff_ffffu32) == (b
        & 0x7fff_ffffu32) ==> a == b) by (bit_vector);
    assert(a & 0x7fff_ffffu32 <= 0x7fff_ffffu32) by (bit_vector);
}

/// A pattern is its sign and its magnitude.
proof fn lemma_parts64(a: u64, b: u64)
    ensures
        negative64(a) == negative64(b) && magnitude64(a) == magnitude64(b) ==> a == b,
        magnitude64(a) <= 0x7fff_ffff_ffff_ffffu64,
{
    assert((a & 0x8000_0000_0000_0000u64 != 0) == (b & 0x8000_0000_0000_0000u64 != 0) && (a
        & 0x7fff_ffff_ffff_ffffu64) == (b & 0x7fff_ffff_ffff_ffffu64) ==> a == b) by (bit_vector);
    assert(a & 0x7fff_ffff_ffff_ffffu64 <= 0x7fff_ffff_ffff_ffffu64) by (bit_vector);
}

/// Two binary32 patterns share a key exactly when they are one pattern or
/// are both zero. This holds of NaN patterns too.
pub proof fn lemma_key32_injective(a: u32, b: u32)
    ensures
        order_key32(a) == order_key32(b) <==> (a == b || (magnitude32(a) == 0 && magnitude32(b)
            == 0)),
{
    lemma_parts32(a, b);
    lemma_parts32(b, a);
}

/// Two binary64 patterns share a key exactly when they are one pattern or
/// are both zero. This holds of NaN patterns too.
pub proof fn lemma_key64_injective(a: u64, b: u64)
    ensures
        order_key64(a) == order_key64(b) <==> (a == b || (magnitude64(a) == 0 && magnitude64(b)
            == 0)),
{
    lemma_parts64(a, b);
    lemma_parts64(b, a);
}

/// The keys of two binary32 patterns compare as their ranks do.
pub proof fn lemma_key32_monotone(a: u32, b: u32)
    ensures
        order_key32(a) < order_key32(b) <==> rank32(a) < rank32(b),
{
    lemma_parts32(a, b);
    lemma_parts32(b, a);
}

/// The keys of two binary64 patterns compare as their ranks do.
pub proof fn lemma_key64_monotone(a: u64, b: u64)
    ensures
        order_key64(a) < order_key64(b) <==> rank64(a) < rank64(b),
{
    lemma_parts64(a, b);
    lemma_parts64(b, a);
}

/// A larger exponent field, or the same with a larger mantissa, is a larger
/// size.
proof fn lemma_size_grows(e1: nat, m1: nat, e2: nat, m2: nat, unit: nat)
    requires
        m1 < unit,
        m2 < unit,
        e1 < e2 || (e1 == e2 && m1 < m2),
    ensures
        size(e1, m1, unit) < size(e2, m2, unit),
{
    if e1 == e2 {
        if e1 > 0 {
            lemma_pow2_pos((e1 - 1) as nat);
            lemma_mul_strict_inequality(
                (unit + m1) as int,
                (unit + m2) as int,
                pow2((e1 - 1) as nat) as int,
            );
        }
    } else {
        let p2 = pow2((e2 - 1) as nat);
        lemma_pow2_pos((e2 - 1) as nat);
        lemma_mul_inequality(1, p2 as int, (unit + m2) as int);
        assert((unit + m2) * p2 == p2 * (unit + m2)) by (nonlinear_arith);
        assert(unit + m2 <= size(e2, m2, unit));
        if e1 > 0 {
            let p1 = pow2((e1 - 1) as nat);
            lemma_pow2_pos((e1 - 1) as nat);
            lemma_pow2_unfold(e1);
            if e1 < e2 - 1 {
                lemma_pow2_strictly_increases(e1, (e2 - 1) as nat);
            }
            assert(2 * p1 <= p2);
            lemma_mul_strict_inequality((unit + m1) as int, (2 * unit) as int, p1 as int);
            assert((2 * unit) * p1 == unit * (2 * p1)) by (nonlinear_arith);
            lemma_mul_inequality((2 * p1) as int, p2 as int, unit as int);
            assert(unit * (2 * p1) == (2 * p1) * unit) by (nonlinear_arith);
            assert(p2 * unit <= (unit + m2) * p2) by (nonlinear_arith)
                requires
                    p2 > 0,
                    unit >= 0,
                    m2 >= 0,
            ;
        }
    }
}

/// A binary32 magnitude is its exponent field and its mantissa.
proof fn lemma_fields32(bits: u32)
    ensures
        magnitude32(bits) == exponent32(bits) * 0x0080_0000 + mantissa32(bits),
        mantissa32(bits) < 0x0080_0000,
{
    let m = magnitude32(bits);
    assert(m == (m >> 23) * 0x0080_0000 + (m & 0x007f_ffffu32) && (m & 0x007f_ffffu32)
        < 0x0080_0000) by (bit_vector)
        requires
            m == bits & 0x7fff_ffffu32,
    ;
}

/// A binary64 magnitude is its exponent field and its mantissa.
proof fn lemma_fields64(bits: u64)
    ensures
        magnitude64(bits) == exponent64(bits) * 0x0010_0000_0000_0000 + mantissa64(bits),
        mantissa64(bits) < 0x0010_0000_0000_0000,
{
    let m = magnitude64(bits);
    assert(m == (m >> 52) * 0x0010_0000_0000_0000 + (m & 0x000f_ffff_ffff_ffffu64) && (m
        & 0x000f_ffff_ffff_ffffu64) < 0x0010_0000_0000_0000) by (bit_vector)
        requires
            m == bits & 0x7fff_ffff_ffff_ffffu64,
    ;
}

/// A larger binary32 magnitude stands for a larger size.
proof fn lemma_magnitude32_grows(a: u32, b: u32)
    requires
        magnitude32(a) < magnitude32(b),
    ensures
        size(exponent32(a), mantissa32(a), 0x0080_0000) < size(
            exponent32(b),
            mantissa32(b),
            0x0080_0000,
        ),
{
    lemma_fields32(a);
    lemma_fields32(b);
    lemma_size_grows(exponent32(a), mantissa32(a), exponent32(b), mantissa32(b), 0x0080_0000);
}

/// A larger binary64 magnitude stands for a larger size.
proof fn lemma_magnitude64_grows(a: u64, b: u64)
    requires
        magnitude64(a) < magnitude64(b),
    ensures
        size(exponent64(a), mantissa64(a), 0x0010_0000_0000_0000) < size(
            exponent64(b),
            mantissa64(b),
            0x0010_0000_0000_0000,
        ),
{
    lemma_fields64(a);
    lemma_fields64(b);
    lemma_size_grows(
        exponent64(a),
        mantissa64(a),
        exponent64(b),
        mantissa64(b),
        0x0010_0000_0000_0000,
    );
}

/// The ranks of two binary32 patterns compare as the numbers do that the
/// patterns stand for.
pub proof fn lemma_rank32_is_value_order(a: u32, b: u32)
    ensures
        rank32(a) < rank32(b) <==> value32(a) < value32(b),
        rank32(a) == rank32(b) <==> value32(a) == value32(b),
{
    if magnitude32(a) < magnitude32(b) {
        lemma_magnitude32_grows(a, b);
    }
    if magnitude32(b) < magnitude32(a) {
        lemma_magnitude32_grows(b, a);
    }
    lemma_zero_size32(a);
    lemma_zero_size32(b);
}

/// The ranks of two binary64 patterns compare as the numbers do that the
/// patterns stand for.
pub proof fn lemma_rank64_is_value_order(a: u64, b: u64)
    ensures
        rank64(a) < rank64(b) <==> value64(a) < value64(b),
        rank64(a) == rank64(b) <==> value64(a) == value64(b),
{
    if magnitude64(a) < magnitude64(b) {
        lemma_magnitude64_grows(a, b);
    }
    if magnitude64(b) < magnitude64(a) {
        lemma_magnitude64_grows(b, a);
    }
    lemma_zero_size64(a);
    lemma_zero_size64(b);
}

/// Only the zero magnitude has size zero, in binary32.
proof fn lemma_zero_size32(a: u32)
    ensures
        magnitude32(a) == 0 <==> size(exponent32(a), mantissa32(a), 0x0080_0000) == 0,
{
    assert(magnitude32(0u32) == 0) by (bit_vector);
    assert(exponent32(0u32) == 0 && mantissa32(0u32) == 0) by (bit_vector);
    if magnitude32(a) > 0 {
        lemma_magnitude32_grows(0u32, a);
    } else {
        assert(exponent32(a) == 0 && mantissa32(a) == 0) by (bit_vector)
            requires
                magnitude32(a) == 0,
        ;
    }
}

/// Only the zero magnitude has size zero, in binary64.
proof fn lemma_zero_size64(a: u64)
    ensures
        magnitude64(a) == 0 <==> size(exponent64(a), mantissa64(a), 0x0010_0000_0000_0000) == 0,
{
    assert(magnitude64(0u64) == 0) by (bit_vector);
    assert(exponent64(0u64) == 0 && mantissa64(0u64) == 0) by (bit_vector);
    if magnitude64(a) > 0 {
        lemma_magnitude64_grows(0u64, a);
    } else {
        assert(exponent64(a) == 0 && mantissa64(a) == 0) by (bit_vector)
            requires
                magnitude64(a) == 0,
        ;
    }
}

/// What `to_ord` and `total_eq` say of two binary32 numbers that are not NaN
/// is what IEEE-754 `<` and `==` say of them.
pub proof fn lemma_binary32_total_order(a: Binary32, b: Binary32)
    requires
        !nan32(a.bits),
        !nan32(b.bits),
    ensures
        a.ord_spec() < b.ord_spec() <==> ieee_lt32(a.bits, b.bits),
        a.ord_spec() == b.ord_spec() <==> ieee_eq32(a.bits, b.bits),
{
    lemma_key32_is_ieee_order(a.bits, b.bits);
}

/// The order of the keys is the order of the numbers: for binary32 patterns
/// that are not NaN, one key is below another exactly when IEEE-754 `<`
/// holds of the patterns, and two keys are one exactly when `==` holds.
pub proof fn lemma_key32_is_ieee_order(a: u32, b: u32)
    requires
        !nan32(a),
        !nan32(b),
    ensures
        order_key32(a) < order_key32(b) <==> ieee_lt32(a, b),
        order_key32(a) == order_key32(b) <==> ieee_eq32(a, b),
{
    lemma_key32_monotone(a, b);
    lemma_key32_monotone(b, a);
    lemma_rank32_is_value_order(a, b);
}

/// What `to_ord` and `total_eq` say of two binary64 numbers that are not NaN
/// is what IEEE-754 `<` and `==` say of them.
pub proof fn lemma_binary64_total_order(a: Binary64, b: Binary64)
    requires
        !nan64(a.bits),
        !nan64(b.bits),
    ensures
        a.ord_spec() < b.ord_spec() <==> ieee_lt64(a.bits, b.bits),
        a.ord_spec() == b.ord_spec() <==> ieee_eq64(a.bits, b.bits),
{
    lemma_key64_is_ieee_order(a.bits, b.bits);
}

/// The order of the keys is the order of the numbers: for binary64 patterns
/// that are not NaN, one key is below another exactly when IEEE-754 `<`
/// holds of the patterns, and two keys are one exactly when `==` holds.
pub proof fn lemma_key64_is_ieee_order(a: u64, b: u64)
    requires
        !nan64(a),
        !nan64(b),
    ensures
        order_key64(a) < order_key64(b) <==> ieee_lt64(a, b),
        order_key64(a) == order_key64(b) <==> ieee_eq64(a, b),
{
    lemma_key64_monotone(a, b);
    lemma_key64_monotone(b, a);
    lemma_rank64_is_value_order(a, b);
}

} // verus!
