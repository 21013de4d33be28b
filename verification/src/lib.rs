//! Show notes around one trivial sum of double-precision values.
//!
//! The sum itself is native floating-point arithmetic and stays outside the
//! verified library. Here a binary64 value is held as its 64-bit pattern,
//! classified into NaN, infinity and finite, and the cases of IEEE-754
//! addition that the operands' classes alone decide — a NaN operand, or two
//! infinities — are stated and proved; only a sum of two finite operands is
//! left to rounding.

use vstd::prelude::*;

verus! {

/// Mask of the sign bit of a binary64 pattern.
pub const SIGN_MASK: u64 = 0x8000_0000_0000_0000;

/// Mask of the eleven exponent bits of a binary64 pattern.
pub const EXPONENT_MASK: u64 = 0x7ff0_0000_0000_0000;

/// Mask of the 52 fraction bits of a binary64 pattern.
pub const FRACTION_MASK: u64 = 0x000f_ffff_ffff_ffff;

/// The pattern of positive infinity.
pub const POSITIVE_INFINITY_BITS: u64 = 0x7ff0_0000_0000_0000;

/// The pattern of negative infinity.
pub const NEGATIVE_INFINITY_BITS: u64 = 0xfff0_0000_0000_0000;

/// The canonical quiet NaN pattern: exponent all ones, highest fraction bit
/// set, every other bit clear.
pub const QUIET_NAN_BITS: u64 = 0x7ff8_0000_0000_0000;

/// A NaN: the exponent bits are all ones and the fraction is not zero.
pub open spec fn is_nan_bits(bits: u64) -> bool {
    bits & EXPONENT_MASK == EXPONENT_MASK && bits & FRACTION_MASK != 0
}

/// An infinity: the exponent bits are all ones and the fraction is zero.
pub open spec fn is_infinity_bits(bits: u64) -> bool {
    bits & EXPONENT_MASK == EXPONENT_MASK && bits & FRACTION_MASK == 0
}

/// A finite value (zero, subnormal or normal): the exponent bits are not all
/// ones.
pub open spec fn is_finite_bits(bits: u64) -> bool {
    bits & EXPONENT_MASK != EXPONENT_MASK
}

/// The sign bit is set.
pub open spec fn is_negative_bits(bits: u64) -> bool {
    bits & SIGN_MASK != 0
}

/// The sum of two binary64 values where the operands' classes alone decide
/// it, per IEEE-754: a NaN operand propagates, infinities of opposite sign
/// give a NaN, and an infinity beside a finite operand or an equal infinity
/// absorbs it. `None` exactly when both operands are finite, where the sum
/// depends on rounding. A NaN result is pinned to the canonical quiet NaN
/// pattern; IEEE-754 itself fixes only the class of a NaN result, not its
/// fraction bits.
pub open spec fn non_finite_sum(a: u64, b: u64) -> Option<u64> {
    if is_nan_bits(a) || is_nan_bits(b) {
        Some(QUIET_NAN_BITS)
    } else if is_infinity_bits(a) && is_infinity_bits(b)
        && is_negative_bits(a) != is_negative_bits(b) {
        Some(QUIET_NAN_BITS)
    } else if is_infinity_bits(a) {
        Some(a)
    } else if is_infinity_bits(b) {
        Some(b)
    } else {
        None
    }
}

/// An IEEE-754 binary64 value, held as its 64-bit pattern.
#[derive(Clone, Copy, PartialEq, Eq, Structural, Debug)]
pub struct Double {
    /// The pattern: sign, exponent, fraction, from highest bit to lowest.
    pub bits: u64,
}

impl Double {
    /// The value with the given pattern.
    pub fn from_bits(bits: u64) -> (r: Double)
        ensures
            r.bits == bits,
    {
        Double { bits }
    }

    /// The pattern of this value.
    pub fn to_bits(&self) -> (r: u64)
        ensures
            r == self.bits,
    {
        self.bits
    }

    /// Whether this value is a NaN.
    pub fn is_nan(&self) -> (r: bool)
        ensures
            r == is_nan_bits(self.bits),
    {
        self.bits & EXPONENT_MASK == EXPONENT_MASK && self.bits & FRACTION_MASK != 0
    }

    /// Whether this value is an infinity of either sign.
    pub fn is_infinite(&self) -> (r: bool)
        ensures
            r == is_infinity_bits(self.bits),
    {
        self.bits & EXPONENT_MASK == EXPONENT_MASK && self.bits & FRACTION_MASK == 0
    }

    /// Whether this value is finite: zero, subnormal or normal.
    pub fn is_finite(&self) -> (r: bool)
        ensures
            r == is_finite_bits(self.bits),
    {
        self.bits & EXPONENT_MASK != EXPONENT_MASK
    }

    /// Whether the sign bit of this value is set.
    pub fn is_sign_negative(&self) -> (r: bool)
        ensures
            r == is_negative_bits(self.bits),
    {
        self.bits & SIGN_MASK != 0
    }
}

/// The sum of `a` and `b` where their classes alone decide it, and `None`
/// exactly when both are finite and the sum is left to rounding.
pub fn add_non_finite(a: &Double, b: &Double) -> (r: Option<Double>)
    ensures
        r is None <==> is_finite_bits(a.bits) && is_finite_bits(b.bits),
        r matches Some(s) ==> non_finite_sum(a.bits, b.bits) == Some(s.bits),
{
    proof {
        lemma_quiet_nan_is_nan();
    }
    if a.is_nan() || b.is_nan() {
        Some(Double { bits: QUIET_NAN_BITS })
    } else if a.is_infinite() && b.is_infinite()
        && a.is_sign_negative() != b.is_sign_negative() {
        Some(Double { bits: QUIET_NAN_BITS })
    } else if a.is_infinite() {
        Some(*a)
    } else if b.is_infinite() {
        Some(*b)
    } else {
        None
    }
}

/// The canonical quiet NaN pattern is a NaN.
pub proof fn lemma_quiet_nan_is_nan()
    ensures
        is_nan_bits(QUIET_NAN_BITS),
{
    assert(QUIET_NAN_BITS & EXPONENT_MASK == EXPONENT_MASK
        && QUIET_NAN_BITS & FRACTION_MASK != 0) by (bit_vector);
}

/// Every pattern is exactly one of NaN, infinity and finite.
pub proof fn lemma_classes_partition(bits: u64)
    ensures
        is_nan_bits(bits) || is_infinity_bits(bits) || is_finite_bits(bits),
        is_nan_bits(bits) ==> !is_infinity_bits(bits) && !is_finite_bits(bits),
        is_infinity_bits(bits) ==> !is_nan_bits(bits) && !is_finite_bits(bits),
        is_finite_bits(bits) ==> !is_nan_bits(bits) && !is_infinity_bits(bits),
{
}

/// A NaN operand propagates: the class-decided sum is a NaN.
pub proof fn lemma_nan_propagates(a: u64, b: u64)
    requires
        is_nan_bits(a) || is_nan_bits(b),
    ensures
        non_finite_sum(a, b) == Some(QUIET_NAN_BITS),
        is_nan_bits(QUIET_NAN_BITS),
{
    lemma_quiet_nan_is_nan();
}

/// Infinities of opposite sign have no sum: the class-decided sum is a NaN.
pub proof fn lemma_opposite_infinities(a: u64, b: u64)
    requires
        is_infinity_bits(a),
        is_infinity_bits(b),
        is_negative_bits(a) != is_negative_bits(b),
    ensures
        non_finite_sum(a, b) == Some(QUIET_NAN_BITS),
        is_nan_bits(QUIET_NAN_BITS),
{
    lemma_quiet_nan_is_nan();
}

/// An infinity absorbs a finite addend: the class-decided sum is that
/// infinity, bit for bit.
pub proof fn lemma_infinity_absorbs(a: u64, b: u64)
    requires
        is_infinity_bits(a),
        is_finite_bits(b),
    ensures
        non_finite_sum(a, b) == Some(a),
        non_finite_sum(b, a) == Some(a),
{
}

/// The class-decided sum does not depend on the order of its operands.
pub proof fn lemma_non_finite_sum_commutes(a: u64, b: u64)
    ensures
        non_finite_sum(a, b) == non_finite_sum(b, a),
{
    if is_infinity_bits(a) && is_infinity_bits(b)
        && is_negative_bits(a) == is_negative_bits(b) {
        assert(a == b) by (bit_vector)
            requires
                a & EXPONENT_MASK == EXPONENT_MASK,
                a & FRACTION_MASK == 0,
                b & EXPONENT_MASK == EXPONENT_MASK,
                b & FRACTION_MASK == 0,
                (a & SIGN_MASK != 0) == (b & SIGN_MASK != 0),
        ;
    }
}

} // verus!
