//! Double-precision numbers held by their bit patterns.
//!
//! Sensor readings and bounds are IEEE 754 binary64 values. The library never
//! computes with them; it only orders them. A value is therefore kept as the
//! 64 bits that encode it, and the order is defined on those bits.

use vstd::prelude::*;

verus! {

/// The sign bit of a binary64 pattern.
pub const SIGN_BIT: u64 = 0x8000_0000_0000_0000;

/// The magnitude of an infinity: all exponent bits set, no fraction bit.
pub const INFINITY_MAGNITUDE: u64 = 0x7ff0_0000_0000_0000;

/// A binary64 value, identified by its bit pattern.
///
/// `==` on this type compares bit patterns: it tells `0.0` from `-0.0` and
/// finds a NaN equal to itself. The numeric order is [`Double::lt`].
#[derive(Clone, Copy, Debug, PartialEq, Eq, Structural)]
pub struct Double {
    pub bits: u64,
}

impl Double {
    /// The pattern without its sign bit.
    pub open spec fn magnitude(self) -> int {
        if self.bits >= SIGN_BIT {
            self.bits - SIGN_BIT
        } else {
            self.bits as int
        }
    }

    /// Whether the sign bit is set.
    pub open spec fn is_negative(self) -> bool {
        self.bits >= SIGN_BIT
    }

    /// Whether the pattern encodes a NaN.
    pub open spec fn is_nan(self) -> bool {
        self.magnitude() > INFINITY_MAGNITUDE
    }

    /// Whether the pattern encodes a finite number.
    pub open spec fn is_finite(self) -> bool {
        self.magnitude() < INFINITY_MAGNITUDE
    }

    /// The place of a value that is not a NaN on the number line: an integer
    /// that grows exactly as the encoded number grows. Both zeros have rank 0.
    pub open spec fn rank(self) -> int {
        if self.is_negative() {
            -self.magnitude()
        } else {
            self.magnitude()
        }
    }

    /// The numeric `<`: false whenever either side is a NaN.
    pub open spec fn spec_lt(self, other: Double) -> bool {
        !self.is_nan() && !other.is_nan() && self.rank() < other.rank()
    }

    /// The value with the given bit pattern.
    pub fn from_bits(bits: u64) -> (r: Double)
        ensures
            r.bits == bits,
    {
        Double { bits }
    }

    /// The bit pattern of the value.
    pub fn to_bits(&self) -> (r: u64)
        ensures
            r == self.bits,
    {
        self.bits
    }

    /// Positive zero.
    pub fn zero() -> (r: Double)
        ensures
            r.bits == 0,
    {
        Double { bits: 0 }
    }

    fn split(&self) -> (r: (bool, u64))
        ensures
            r.0 == self.is_negative(),
            r.1 == self.magnitude(),
    {
        if self.bits >= SIGN_BIT {
            (true, self.bits - SIGN_BIT)
        } else {
            (false, self.bits)
        }
    }

    /// Whether the value is a NaN.
    pub fn nan(&self) -> (r: bool)
        ensures
            r == self.is_nan(),
    {
        self.split().1 > INFINITY_MAGNITUDE
    }

    /// Whether `self` is numerically less than `other`.
    pub fn lt(&self, other: &Double) -> (r: bool)
        ensures
            r == self.spec_lt(*other),
    {
        let (a_negative, a) = self.split();
        let (b_negative, b) = other.split();
        if a > INFINITY_MAGNITUDE || b > INFINITY_MAGNITUDE {
            false
        } else if a_negative {
            if b_negative {
                b < a
            } else {
                a != 0 || b != 0
            }
        } else {
            !b_negative && a < b
        }
    }
}

/// No value is less than itself.
pub proof fn lemma_lt_irreflexive(a: Double)
    ensures
        !a.spec_lt(a),
{
}

/// If `a < b` then `b < a` does not hold.
pub proof fn lemma_lt_asymmetric(a: Double, b: Double)
    requires
        a.spec_lt(b),
    ensures
        !b.spec_lt(a),
{
}

/// `<` is transitive.
pub proof fn lemma_lt_transitive(a: Double, b: Double, c: Double)
    requires
        a.spec_lt(b),
        b.spec_lt(c),
    ensures
        a.spec_lt(c),
{
}

/// The two zeros are numerically equal: neither is less than the other, and
/// each stands in the same relation to every other value.
pub proof fn lemma_zeros_alike(x: Double)
    ensures
        !(Double { bits: 0 }).spec_lt(Double { bits: SIGN_BIT }),
        !(Double { bits: SIGN_BIT }).spec_lt(Double { bits: 0 }),
        x.spec_lt(Double { bits: 0 }) == x.spec_lt(Double { bits: SIGN_BIT }),
        (Double { bits: 0 }).spec_lt(x) == (Double { bits: SIGN_BIT }).spec_lt(x),
{
}

} // verus!
