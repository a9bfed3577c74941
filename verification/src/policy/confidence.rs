//! Confidence values.
//!
//! A confidence is an IEEE-754 binary64 number. The library carries it as its
//! 64-bit encoding and compares encodings with the IEEE ordering: NaN is
//! unordered, `-0.0` equals `+0.0`, and otherwise values order as the
//! sign-magnitude encoding says.
use vstd::prelude::*;

verus! {

/// Sign bit of a binary64 encoding.
pub const SIGN_BIT: u64 = 0x8000_0000_0000_0000;

/// Exponent field of a binary64 encoding.
pub const EXPONENT_MASK: u64 = 0x7FF0_0000_0000_0000;

/// Mantissa field of a binary64 encoding.
pub const MANTISSA_MASK: u64 = 0x000F_FFFF_FFFF_FFFF;

/// Encoding of `0.0`.
pub const ZERO_BITS: u64 = 0;

/// Encoding of `1.0`.
pub const ONE_BITS: u64 = 0x3FF0_0000_0000_0000;

/// A binary64 confidence value, held as its bit encoding.
#[derive(Debug, Clone, Copy, PartialEq, Eq, Structural)]
pub struct Confidence {
    /// The IEEE-754 binary64 encoding of the value.
    pub bits: u64,
}

/// Whether the encoding is a NaN.
pub open spec fn is_nan(b: u64) -> bool {
    (b & EXPONENT_MASK) == EXPONENT_MASK && (b & MANTISSA_MASK) != 0
}

/// Whether the encoding is a finite number (neither infinite nor NaN).
pub open spec fn is_finite(b: u64) -> bool {
    (b & EXPONENT_MASK) != EXPONENT_MASK
}

/// Whether the encoding is `+0.0` or `-0.0`.
pub open spec fn is_zero(b: u64) -> bool {
    b == 0 || b == SIGN_BIT
}

/// A key whose unsigned order is the numeric order of non-NaN encodings
/// (with `-0.0` just below `+0.0`).
pub open spec fn order_key(b: u64) -> int {
    if b >= SIGN_BIT {
        0xFFFF_FFFF_FFFF_FFFFu64 - b
    } else {
        b + SIGN_BIT
    }
}

/// IEEE `a < b`.
pub open spec fn lt(a: Confidence, b: Confidence) -> bool {
    !is_nan(a.bits) && !is_nan(b.bits) && !(is_zero(a.bits) && is_zero(b.bits))
        && order_key(a.bits) < order_key(b.bits)
}

/// IEEE `a <= b`.
pub open spec fn le(a: Confidence, b: Confidence) -> bool {
    !is_nan(a.bits) && !is_nan(b.bits) && ((is_zero(a.bits) && is_zero(b.bits))
        || order_key(a.bits) <= order_key(b.bits))
}

/// `a.max(b)`: the other value when one is NaN, otherwise the larger one
/// (`a` when they compare equal).
pub open spec fn max_of(a: Confidence, b: Confidence) -> Confidence {
    if is_nan(a.bits) {
        b
    } else if is_nan(b.bits) {
        a
    } else if lt(a, b) {
        b
    } else {
        a
    }
}

/// `x.clamp(0.0, 1.0)`: NaN stays NaN.
pub open spec fn clamp_unit(x: Confidence) -> Confidence {
    if lt(x, Confidence { bits: ZERO_BITS }) {
        Confidence { bits: ZERO_BITS }
    } else if lt(Confidence { bits: ONE_BITS }, x) {
        Confidence { bits: ONE_BITS }
    } else {
        x
    }
}

fn key_of(b: u64) -> (r: u64)
    ensures
        r == order_key(b),
{
    if b >= SIGN_BIT {
        0xFFFF_FFFF_FFFF_FFFFu64 - b
    } else {
        b + SIGN_BIT
    }
}

impl Confidence {
    /// The confidence with the given binary64 encoding.
    pub fn from_bits(bits: u64) -> (r: Confidence)
        ensures
            r.bits == bits,
    {
        Confidence { bits }
    }

    /// The binary64 encoding of the confidence.
    pub fn to_bits(&self) -> (r: u64)
        ensures
            r == self.bits,
    {
        self.bits
    }

    /// `0.0`.
    pub fn zero() -> (r: Confidence)
        ensures
            r.bits == ZERO_BITS,
    {
        Confidence { bits: ZERO_BITS }
    }

    /// `1.0`.
    pub fn one() -> (r: Confidence)
        ensures
            r.bits == ONE_BITS,
    {
        Confidence { bits: ONE_BITS }
    }

    /// Whether the value is a NaN.
    pub fn is_nan(&self) -> (r: bool)
        ensures
            r == is_nan(self.bits),
    {
        (self.bits & EXPONENT_MASK) == EXPONENT_MASK && (self.bits & MANTISSA_MASK) != 0
    }

    /// Whether the value is finite.
    pub fn is_finite(&self) -> (r: bool)
        ensures
            r == is_finite(self.bits),
    {
        (self.bits & EXPONENT_MASK) != EXPONENT_MASK
    }

    /// IEEE `self < other`.
    pub fn lt(&self, other: &Confidence) -> (r: bool)
        ensures
            r == lt(*self, *other),
    {
        !self.is_nan() && !other.is_nan()
            && !((self.bits == 0 || self.bits == SIGN_BIT) && (other.bits == 0 || other.bits == SIGN_BIT))
            && key_of(self.bits) < key_of(other.bits)
    }

    /// IEEE `self <= other`.
    pub fn le(&self, other: &Confidence) -> (r: bool)
        ensures
            r == le(*self, *other),
    {
        !self.is_nan() && !other.is_nan() && (((self.bits == 0 || self.bits == SIGN_BIT) && (
        other.bits == 0 || other.bits == SIGN_BIT)) || key_of(self.bits) <= key_of(other.bits))
    }

    /// `self.max(other)`.
    pub fn max(self, other: Confidence) -> (r: Confidence)
        ensures
            r == max_of(self, other),
    {
        if self.is_nan() {
            other
        } else if other.is_nan() {
            self
        } else if self.lt(&other) {
            other
        } else {
            self
        }
    }

    /// `self.clamp(0.0, 1.0)`.
    pub fn clamp_unit(self) -> (r: Confidence)
        ensures
            r == clamp_unit(self),
    {
        let zero = Confidence::zero();
        let one = Confidence::one();
        if self.lt(&zero) {
            zero
        } else if one.lt(&self) {
            one
        } else {
            self
        }
    }
}

/// `<` is irreflexive and `a < b` excludes `b <= a`.
pub proof fn lemma_order_consistent(a: Confidence, b: Confidence)
    ensures
        !lt(a, a),
        lt(a, b) ==> !le(b, a),
        le(a, b) && le(b, a) ==> !lt(a, b),
{
}

/// The maximum is at least the non-NaN argument.
pub proof fn lemma_max_bound(a: Confidence, b: Confidence)
    ensures
        !is_nan(b.bits) ==> !lt(max_of(a, b), b),
        !is_nan(a.bits) ==> !lt(max_of(a, b), a),
{
}

/// Every encoding from `+0.0` up to `1.0`, and `-0.0`, is a finite number,
/// and not NaN.
pub proof fn lemma_unit_encodings_finite(b: u64)
    requires
        b <= ONE_BITS || b == SIGN_BIT,
    ensures
        is_finite(b),
        !is_nan(b),
{
    assert((b <= 0x3FF0_0000_0000_0000u64 || b == 0x8000_0000_0000_0000u64)
        ==> (b & 0x7FF0_0000_0000_0000u64) != 0x7FF0_0000_0000_0000u64) by (bit_vector);
}

/// Clamping a value that is not NaN to `[0.0, 1.0]` gives a value in that
/// range.
pub proof fn lemma_clamp_unit_range(x: Confidence)
    requires
        !is_nan(x.bits),
    ensures
        le(Confidence { bits: ZERO_BITS }, clamp_unit(x)),
        le(clamp_unit(x), Confidence { bits: ONE_BITS }),
{
    lemma_unit_encodings_finite(ZERO_BITS);
    lemma_unit_encodings_finite(ONE_BITS);
}

} // verus!
