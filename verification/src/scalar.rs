//! Real components, held as IEEE 754 binary64 encodings.
//!
//! Every component of a vector, matrix or quaternion is a [`Scalar`]: the 64
//! bits of a double-precision number, sign bit first, then eleven exponent
//! bits, then fifty-two fraction bits. The operations here are the ones that
//! are exact on the encoding: comparison for numeric equality and change of
//! sign. Arithmetic that rounds is left to the numeric kernel of the caller.
use vstd::prelude::*;
use vstd::std_specs::cmp::PartialEqSpecImpl;
use crate::number::{
    lemma_nan_by_magnitude, lemma_negated_number, lemma_same_number_by_bits, lemma_zero_and_one,
    one_units, Number,
};

verus! {

/// The sign bit of an encoding.
pub const SIGN_BIT: u64 = 0x8000_0000_0000_0000;

/// Everything but the sign bit: exponent and fraction.
pub const MAGNITUDE_MASK: u64 = 0x7FFF_FFFF_FFFF_FFFF;

/// The magnitude of an infinity: all exponent bits set, fraction zero.
/// Every larger magnitude encodes a NaN.
pub const INFINITY_BITS: u64 = 0x7FF0_0000_0000_0000;

/// The encoding of the number one.
pub const ONE_BITS: u64 = 0x3FF0_0000_0000_0000;

/// A double-precision number, stored as its encoding.
#[derive(Clone, Copy, Debug)]
pub struct Scalar {
    pub bits: u64,
}

impl Scalar {
    /// Exponent and fraction of the encoding, without the sign.
    pub open spec fn magnitude(self) -> u64 {
        self.bits & MAGNITUDE_MASK
    }

    /// The encoding denotes no number.
    pub open spec fn not_a_number(self) -> bool {
        self.number() is Nan
    }

    /// The encoding with its sign bit flipped.
    pub open spec fn negated(self) -> Scalar {
        Scalar { bits: self.bits ^ SIGN_BIT }
    }

    /// The scalar with the given encoding.
    pub fn from_bits(bits: u64) -> (s: Scalar)
        ensures
            s.bits == bits,
    {
        Scalar { bits }
    }

    /// The encoding of this scalar.
    pub fn to_bits(&self) -> (bits: u64)
        ensures
            bits == self.bits,
    {
        self.bits
    }

    /// Positive zero.
    pub fn zero() -> (s: Scalar)
        ensures
            s.bits == 0,
            s.number() == (Number::Finite { units: 0 }),
    {
        proof {
            lemma_zero_and_one();
        }
        Scalar { bits: 0 }
    }

    /// The number one.
    pub fn one() -> (s: Scalar)
        ensures
            s.bits == ONE_BITS,
            s.number() == (Number::Finite { units: one_units() }),
    {
        proof {
            lemma_zero_and_one();
        }
        Scalar { bits: ONE_BITS }
    }

    /// Whether the encoding denotes no number.
    #[verifier::when_used_as_spec(not_a_number)]
    pub fn is_nan(self) -> (r: bool)
        ensures
            r == self.not_a_number(),
    {
        proof {
            lemma_nan_by_magnitude(self);
        }
        (self.bits & MAGNITUDE_MASK) > INFINITY_BITS
    }

    /// The number with the opposite sign. Only the sign bit changes, so the
    /// result is exact for every encoding: zeros and infinities change sign
    /// like any other number, and a NaN stays one.
    pub fn neg(&self) -> (r: Scalar)
        ensures
            r == self.negated(),
            r.number() == self.number().opposite(),
    {
        proof {
            lemma_negated_number(*self);
        }
        Scalar { bits: self.bits ^ SIGN_BIT }
    }
}

impl PartialEq for Scalar {
    /// Numeric equality of the two encoded numbers: a NaN equals nothing,
    /// not even itself, and the two zeros are equal.
    fn eq(&self, other: &Scalar) -> (r: bool) {
        proof {
            lemma_same_number_by_bits(*self, *other);
        }
        let a: u64 = self.bits & MAGNITUDE_MASK;
        let b: u64 = other.bits & MAGNITUDE_MASK;
        a <= INFINITY_BITS && b <= INFINITY_BITS && (self.bits == other.bits || (a == 0 && b == 0))
    }
}

impl PartialEqSpecImpl for Scalar {
    open spec fn obeys_eq_spec() -> bool {
        true
    }

    open spec fn eq_spec(&self, other: &Scalar) -> bool {
        self.same_number(*other)
    }
}

/// Changing sign twice gives back the same encoding.
pub proof fn lemma_negated_twice(s: Scalar)
    ensures
        s.negated().negated() == s,
{
    let b = s.bits;
    assert((b ^ SIGN_BIT) ^ SIGN_BIT == b) by (bit_vector);
}

/// Numeric equality is symmetric.
pub proof fn lemma_same_number_symmetric(a: Scalar, b: Scalar)
    ensures
        a.same_number(b) == b.same_number(a),
{
}

/// Numeric equality is transitive.
pub proof fn lemma_same_number_transitive(a: Scalar, b: Scalar, c: Scalar)
    requires
        a.same_number(b),
        b.same_number(c),
    ensures
        a.same_number(c),
{
}

/// A scalar equals itself exactly when it denotes a number.
pub proof fn lemma_same_number_reflexive(a: Scalar)
    ensures
        a.same_number(a) == !a.is_nan(),
{
}

/// Changing the sign of both sides keeps numeric equality.
pub proof fn lemma_same_number_negated(a: Scalar, b: Scalar)
    ensures
        a.negated().same_number(b.negated()) == a.same_number(b),
{
    lemma_negated_number(a);
    lemma_negated_number(b);
}

} // verus!
