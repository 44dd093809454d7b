//! What an encoding denotes.
//!
//! A [`Scalar`] is sixty-four bits. This module says which number they stand
//! for: a sign, eleven bits of exponent and fifty-two bits of fraction denote
//! a finite number, an infinity, or no number at all. Finite numbers are
//! given exactly, as whole multiples of the smallest positive one, which is
//! two to the power of -1074.
use vstd::prelude::*;
use vstd::arithmetic::mul::{lemma_mul_inequality, lemma_mul_strict_inequality};
use vstd::arithmetic::power2::{
    lemma2_to64_rest, lemma_pow2_adds, lemma_pow2_pos, lemma_pow2_strictly_increases,
    lemma_pow2_unfold, pow2,
};
use crate::scalar::{Scalar, INFINITY_BITS, MAGNITUDE_MASK, ONE_BITS, SIGN_BIT};

verus! {

/// The number of fractions that one exponent has: two to the power of 52.
pub const FRACTION_RANGE: u64 = 0x0010_0000_0000_0000;

/// The exponent that is kept for infinities and NaNs.
pub const EXPONENT_SPECIAL: u64 = 0x7FF;

/// What an encoding denotes.
pub enum Number {
    /// Not a number.
    Nan,
    /// Positive or negative infinity.
    Infinite { negative: bool },
    /// The finite number `units` times two to the power of -1074.
    Finite { units: int },
}

impl Number {
    /// The number with the opposite sign.
    pub open spec fn opposite(self) -> Number {
        match self {
            Number::Nan => Number::Nan,
            Number::Infinite { negative } => Number::Infinite { negative: !negative },
            Number::Finite { units } => Number::Finite { units: -units },
        }
    }
}

/// The number one, in multiples of the smallest positive number.
pub open spec fn one_units() -> int {
    pow2(1074) as int
}

impl Scalar {
    /// The sign bit is set.
    pub open spec fn is_negative(self) -> bool {
        self.bits >= SIGN_BIT
    }

    /// The eleven exponent bits.
    pub open spec fn exponent(self) -> int {
        self.magnitude() as int / FRACTION_RANGE as int
    }

    /// The fifty-two fraction bits.
    pub open spec fn fraction(self) -> int {
        self.magnitude() as int % FRACTION_RANGE as int
    }

    /// The absolute value of a finite encoding, in multiples of the
    /// smallest positive number. With exponent zero the fraction counts
    /// these multiples itself. With a larger exponent the fraction is
    /// preceded by a one, and each step of the exponent doubles the value.
    pub open spec fn magnitude_units(self) -> int {
        if self.exponent() == 0 {
            self.fraction()
        } else {
            (FRACTION_RANGE + self.fraction()) * pow2((self.exponent() - 1) as nat)
        }
    }

    /// The number that the encoding denotes.
    pub open spec fn number(self) -> Number {
        if self.exponent() == EXPONENT_SPECIAL {
            if self.fraction() == 0 {
                Number::Infinite { negative: self.is_negative() }
            } else {
                Number::Nan
            }
        } else if self.is_negative() {
            Number::Finite { units: -self.magnitude_units() }
        } else {
            Number::Finite { units: self.magnitude_units() }
        }
    }

    /// The encoding denotes a finite number.
    pub open spec fn is_finite(self) -> bool {
        self.number() is Finite
    }

    /// The finite number that the encoding denotes, in multiples of the
    /// smallest positive number; zero for an encoding that denotes none.
    pub open spec fn units(self) -> int {
        match self.number() {
            Number::Finite { units } => units,
            _ => 0,
        }
    }

    /// Numeric equality: both encodings denote a number, and the same one.
    pub open spec fn same_number(self, other: Scalar) -> bool {
        !(self.number() is Nan) && self.number() == other.number()
    }
}

/// An encoding is its magnitude with or without the sign bit, and its
/// exponent and fraction are within their bits.
pub proof fn lemma_fields(s: Scalar)
    ensures
        s.bits == s.magnitude() + (if s.is_negative() { SIGN_BIT as int } else { 0 }),
        s.magnitude() == s.exponent() * FRACTION_RANGE + s.fraction(),
        0 <= s.exponent() <= EXPONENT_SPECIAL,
        0 <= s.fraction() < FRACTION_RANGE,
        s.magnitude_units() >= 0,
        s.magnitude_units() == 0 <==> s.magnitude() == 0,
{
    let b = s.bits;
    assert(b & MAGNITUDE_MASK <= MAGNITUDE_MASK) by (bit_vector);
    assert(b >= SIGN_BIT ==> b == (b & MAGNITUDE_MASK) + SIGN_BIT) by (bit_vector);
    assert(b < SIGN_BIT ==> b == (b & MAGNITUDE_MASK)) by (bit_vector);
    if s.exponent() != 0 {
        let p = pow2((s.exponent() - 1) as nat) as int;
        let sig = FRACTION_RANGE + s.fraction();
        lemma_pow2_pos((s.exponent() - 1) as nat);
        assert(sig * p > 0) by (nonlinear_arith)
            requires
                sig > 0,
                p > 0,
        ;
    }
}

/// A NaN is an encoding whose magnitude is above that of the infinities.
pub proof fn lemma_nan_by_magnitude(s: Scalar)
    ensures
        (s.number() is Nan) <==> s.magnitude() > INFINITY_BITS,
        (s.number() is Infinite) <==> s.magnitude() == INFINITY_BITS,
        (s.number() is Finite) <==> s.magnitude() < INFINITY_BITS,
{
    lemma_fields(s);
}

/// A larger magnitude counts more multiples: the encodings are in the order
/// of the absolute values that they denote.
pub proof fn lemma_magnitude_units_increase(a: Scalar, b: Scalar)
    requires
        a.magnitude() < b.magnitude(),
    ensures
        a.magnitude_units() < b.magnitude_units(),
{
    lemma_fields(a);
    lemma_fields(b);
    let r = FRACTION_RANGE as int;
    let (ea, fa) = (a.exponent(), a.fraction());
    let (eb, fb) = (b.exponent(), b.fraction());
    assert(ea < eb || (ea == eb && fa < fb)) by (nonlinear_arith)
        requires
            ea * r + fa < eb * r + fb,
            0 <= fa < r,
            0 <= fb < r,
    ;
    if ea == eb {
        if ea != 0 {
            let p = pow2((ea - 1) as nat) as int;
            lemma_pow2_pos((ea - 1) as nat);
            lemma_mul_strict_inequality(r + fa, r + fb, p);
        }
    } else {
        let pb = pow2((eb - 1) as nat) as int;
        lemma_pow2_pos((eb - 1) as nat);
        // `b` is at least the smallest value with its exponent, `r * pb`.
        lemma_mul_inequality(r, r + fb, pb);
        if ea == 0 {
            // `a` has no leading one and is below `r`.
            assert(r * pb >= r) by (nonlinear_arith)
                requires
                    pb >= 1,
                    r > 0,
            ;
        } else {
            // `a` is below twice the smallest value with its exponent,
            // which is the smallest value with the next exponent.
            let pa = pow2((ea - 1) as nat) as int;
            lemma_pow2_pos((ea - 1) as nat);
            lemma_pow2_unfold(ea as nat);
            if ea < eb - 1 {
                lemma_pow2_strictly_increases(ea as nat, (eb - 1) as nat);
            }
            lemma_mul_strict_inequality(r + fa, 2 * r, pa);
            assert((2 * r) * pa <= r * pb) by (nonlinear_arith)
                requires
                    2 * pa <= pb,
                    r > 0,
            ;
        }
    }
}

/// Two encodings denote the same number exactly when neither is a NaN and
/// they are the same bits or both a zero: the two zeros are the only number
/// with two encodings.
pub proof fn lemma_same_number_by_bits(a: Scalar, b: Scalar)
    ensures
        a.same_number(b) <==> {
            &&& a.magnitude() <= INFINITY_BITS
            &&& b.magnitude() <= INFINITY_BITS
            &&& (a.bits == b.bits || (a.magnitude() == 0 && b.magnitude() == 0))
        },
{
    lemma_fields(a);
    lemma_fields(b);
    lemma_nan_by_magnitude(a);
    lemma_nan_by_magnitude(b);
    if a.magnitude() < b.magnitude() {
        lemma_magnitude_units_increase(a, b);
    }
    if b.magnitude() < a.magnitude() {
        lemma_magnitude_units_increase(b, a);
    }
}

/// Flipping the sign bit gives the number with the opposite sign.
pub proof fn lemma_negated_number(s: Scalar)
    ensures
        s.negated().number() == s.number().opposite(),
        s.negated().magnitude() == s.magnitude(),
{
    let b = s.bits;
    assert((b ^ SIGN_BIT) & MAGNITUDE_MASK == b & MAGNITUDE_MASK) by (bit_vector);
    assert((b ^ SIGN_BIT) >= SIGN_BIT <==> b < SIGN_BIT) by (bit_vector);
}

/// The encodings of zero and one denote zero and one.
pub proof fn lemma_zero_and_one()
    ensures
        (Scalar { bits: 0 }).number() == (Number::Finite { units: 0 }),
        (Scalar { bits: ONE_BITS }).number() == (Number::Finite { units: one_units() }),
{
    assert(0u64 & MAGNITUDE_MASK == 0) by (bit_vector);
    assert(ONE_BITS & MAGNITUDE_MASK == ONE_BITS) by (bit_vector);
    // One has exponent 1023 and fraction zero: two to the power of 52,
    // doubled 1022 times.
    lemma2_to64_rest();
    lemma_pow2_adds(52, 1022);
}

} // verus!
