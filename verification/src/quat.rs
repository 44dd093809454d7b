//! Unit quaternions: rotations in three dimensions.
use vstd::prelude::*;
use vstd::std_specs::cmp::PartialEqSpecImpl;
use crate::compare::{answer, rich_answer, CompareOp};
use crate::error::{GeometryError, Position};
use crate::index::{resolve_index, wrapped_offset};
use crate::number::{lemma_negated_number, lemma_zero_and_one, one_units};
use crate::scalar::{lemma_negated_twice, lemma_same_number_negated, Scalar, ONE_BITS};

verus! {

/// A rotation, as a quaternion of norm one: three imaginary components and
/// the real one, in this order.
///
/// The norm is a matter of the numbers that the components encode. Whoever
/// builds a rotation from components computes them so that the norm is one;
/// the operations of this type keep it, as they copy components or change
/// their sign and do nothing else.
#[derive(Clone, Copy, Debug)]
pub struct UnitQuaternion {
    pub i: Scalar,
    pub j: Scalar,
    pub k: Scalar,
    pub w: Scalar,
}

impl View for UnitQuaternion {
    type V = Seq<Scalar>;

    /// The components in order: i, j, k, w.
    open spec fn view(&self) -> Seq<Scalar> {
        seq![self.i, self.j, self.k, self.w]
    }
}

impl UnitQuaternion {
    /// The rotation that turns nothing: real part one, imaginary parts zero.
    pub open spec fn unit() -> UnitQuaternion {
        UnitQuaternion {
            i: Scalar { bits: 0 },
            j: Scalar { bits: 0 },
            k: Scalar { bits: 0 },
            w: Scalar { bits: ONE_BITS },
        }
    }

    /// Componentwise numeric equality.
    pub open spec fn same_components(self, other: UnitQuaternion) -> bool {
        &&& self.i.same_number(other.i)
        &&& self.j.same_number(other.j)
        &&& self.k.same_number(other.k)
        &&& self.w.same_number(other.w)
    }

    /// The quaternion with the sign of every component changed. It stands
    /// for the same rotation.
    pub open spec fn opposite(self) -> UnitQuaternion {
        UnitQuaternion {
            i: self.i.negated(),
            j: self.j.negated(),
            k: self.k.negated(),
            w: self.w.negated(),
        }
    }

    /// Equality of rotations: the components are equal, or each is the
    /// other's with the opposite sign.
    pub open spec fn same_rotation(self, other: UnitQuaternion) -> bool {
        self.same_components(other) || self.same_components(other.opposite())
    }

    /// The conjugate: the imaginary components change sign, the real one
    /// stays. Of a quaternion of norm one it is the inverse.
    pub open spec fn conjugate(self) -> UnitQuaternion {
        UnitQuaternion {
            i: self.i.negated(),
            j: self.j.negated(),
            k: self.k.negated(),
            w: self.w,
        }
    }

    /// All four components are finite numbers.
    pub open spec fn is_finite(self) -> bool {
        self.i.is_finite() && self.j.is_finite() && self.k.is_finite() && self.w.is_finite()
    }

    /// The square of the norm, exactly: the sum of the squares of the four
    /// components, each counted in multiples of the smallest positive
    /// number.
    pub open spec fn norm_squared_units(self) -> int {
        self.i.units() * self.i.units() + self.j.units() * self.j.units() + self.k.units()
            * self.k.units() + self.w.units() * self.w.units()
    }

    /// The norm is one, exactly.
    pub open spec fn has_norm_one(self) -> bool {
        self.is_finite() && self.norm_squared_units() == one_units() * one_units()
    }

    /// The rotation that turns nothing.
    pub fn new() -> (q: UnitQuaternion)
        ensures
            q == Self::unit(),
            q.has_norm_one(),
    {
        Self::identity()
    }

    /// The rotation that turns nothing.
    pub fn identity() -> (q: UnitQuaternion)
        ensures
            q == Self::unit(),
            q.has_norm_one(),
    {
        proof {
            lemma_identity_norm();
        }
        UnitQuaternion { i: Scalar::zero(), j: Scalar::zero(), k: Scalar::zero(), w: Scalar::one() }
    }

    /// The rotation with the given components, which the caller has
    /// computed to be of norm one.
    pub fn from_components(i: Scalar, j: Scalar, k: Scalar, w: Scalar) -> (q: UnitQuaternion)
        ensures
            q@ == seq![i, j, k, w],
    {
        UnitQuaternion { i, j, k, w }
    }

    /// The number of components.
    pub fn len(&self) -> (n: usize)
        ensures
            n == 4,
    {
        4
    }

    /// The component at `idx`, where a negative index counts from the end.
    /// An index outside `[-4, 4)` is out of range.
    pub fn get_item(&self, idx: isize) -> (r: Result<Scalar, GeometryError>)
        ensures
            match wrapped_offset(idx as int, 4) {
                Some(k) => r == Ok::<Scalar, GeometryError>(self@[k]),
                None => r == Err::<Scalar, GeometryError>(
                    GeometryError::IndexOutOfRange(Position::Single(idx)),
                ),
            },
    {
        match resolve_index(idx, self.len()) {
            Ok(k) => Ok(
                if k == 0 {
                    self.i
                } else if k == 1 {
                    self.j
                } else if k == 2 {
                    self.k
                } else {
                    self.w
                },
            ),
            Err(e) => Err(e),
        }
    }

    /// Answers `==` and `!=` by equality of rotations; the other operators
    /// have no answer.
    pub fn rich_compare(&self, other: &UnitQuaternion, op: CompareOp) -> (r: Option<bool>)
        ensures
            r == rich_answer(self.same_rotation(*other), op),
    {
        answer(*self == *other, op)
    }

    /// The rotation that undoes this one.
    pub fn inverse(&self) -> (q: UnitQuaternion)
        ensures
            q == self.conjugate(),
            q.is_finite() == self.is_finite(),
            q.norm_squared_units() == self.norm_squared_units(),
    {
        proof {
            lemma_conjugate_keeps_norm(*self);
        }
        UnitQuaternion { i: self.i.neg(), j: self.j.neg(), k: self.k.neg(), w: self.w }
    }

    /// Replaces the rotation by the one that undoes it.
    pub fn invert(&mut self)
        ensures
            *final(self) == old(self).conjugate(),
            final(self).is_finite() == old(self).is_finite(),
            final(self).norm_squared_units() == old(self).norm_squared_units(),
    {
        proof {
            lemma_conjugate_keeps_norm(*self);
        }
        self.i = self.i.neg();
        self.j = self.j.neg();
        self.k = self.k.neg();
    }

    /// The components as a tuple.
    pub fn tuple(&self) -> (t: (Scalar, Scalar, Scalar, Scalar))
        ensures
            t == (self.i, self.j, self.k, self.w),
    {
        (self.i, self.j, self.k, self.w)
    }

    /// The components as an array.
    pub fn list(&self) -> (a: [Scalar; 4])
        ensures
            a@ == self@,
    {
        let a: [Scalar; 4] = [self.i, self.j, self.k, self.w];
        a
    }
}

impl PartialEq for UnitQuaternion {
    /// Equality of rotations.
    fn eq(&self, other: &UnitQuaternion) -> (r: bool) {
        (self.i == other.i && self.j == other.j && self.k == other.k && self.w == other.w) || (
        self.i == other.i.neg() && self.j == other.j.neg() && self.k == other.k.neg() && self.w
            == other.w.neg())
    }
}

impl PartialEqSpecImpl for UnitQuaternion {
    open spec fn obeys_eq_spec() -> bool {
        true
    }

    open spec fn eq_spec(&self, other: &UnitQuaternion) -> bool {
        self.same_rotation(*other)
    }
}

/// The inverse of the inverse is the rotation itself, encoding for encoding.
pub proof fn lemma_conjugate_twice(q: UnitQuaternion)
    ensures
        q.conjugate().conjugate() == q,
{
    lemma_negated_twice(q.i);
    lemma_negated_twice(q.j);
    lemma_negated_twice(q.k);
}

/// Conjugation keeps the norm: a component and its negation have the same
/// square.
pub proof fn lemma_conjugate_keeps_norm(q: UnitQuaternion)
    ensures
        q.conjugate().is_finite() == q.is_finite(),
        q.conjugate().norm_squared_units() == q.norm_squared_units(),
        q.conjugate().has_norm_one() == q.has_norm_one(),
{
    lemma_negated_number(q.i);
    lemma_negated_number(q.j);
    lemma_negated_number(q.k);
    lemma_square_of_opposite(q.i.units());
    lemma_square_of_opposite(q.j.units());
    lemma_square_of_opposite(q.k.units());
}

/// The opposite quaternion has the same norm.
pub proof fn lemma_opposite_keeps_norm(q: UnitQuaternion)
    ensures
        q.opposite().is_finite() == q.is_finite(),
        q.opposite().norm_squared_units() == q.norm_squared_units(),
        q.opposite().has_norm_one() == q.has_norm_one(),
{
    lemma_negated_number(q.i);
    lemma_negated_number(q.j);
    lemma_negated_number(q.k);
    lemma_negated_number(q.w);
    lemma_square_of_opposite(q.i.units());
    lemma_square_of_opposite(q.j.units());
    lemma_square_of_opposite(q.k.units());
    lemma_square_of_opposite(q.w.units());
}

/// The rotation that turns nothing has norm one.
pub proof fn lemma_identity_norm()
    ensures
        UnitQuaternion::unit().has_norm_one(),
{
    lemma_zero_and_one();
}

/// Equality of rotations is symmetric.
pub proof fn lemma_same_rotation_symmetric(a: UnitQuaternion, b: UnitQuaternion)
    ensures
        a.same_rotation(b) == b.same_rotation(a),
{
    lemma_same_number_negated(a.i, b.i.negated());
    lemma_same_number_negated(a.j, b.j.negated());
    lemma_same_number_negated(a.k, b.k.negated());
    lemma_same_number_negated(a.w, b.w.negated());
    lemma_negated_twice(b.i);
    lemma_negated_twice(b.j);
    lemma_negated_twice(b.k);
    lemma_negated_twice(b.w);
}

/// A quaternion and its opposite are equal as rotations, unless a component
/// is a NaN.
pub proof fn lemma_opposite_same_rotation(q: UnitQuaternion)
    ensures
        q.same_rotation(q.opposite()) == (!q.i.is_nan() && !q.j.is_nan() && !q.k.is_nan()
            && !q.w.is_nan()),
{
    lemma_negated_number(q.i);
    lemma_negated_number(q.j);
    lemma_negated_number(q.k);
    lemma_negated_number(q.w);
    lemma_negated_twice(q.i);
    lemma_negated_twice(q.j);
    lemma_negated_twice(q.k);
    lemma_negated_twice(q.w);
}

/// The rotation that turns nothing is its own inverse.
pub proof fn lemma_identity_own_inverse()
    ensures
        UnitQuaternion::unit().conjugate().same_rotation(UnitQuaternion::unit()),
{
    lemma_zero_and_one();
    lemma_negated_number(Scalar { bits: 0 });
}

/// A number and its opposite have the same square.
proof fn lemma_square_of_opposite(x: int)
    ensures
        (-x) * (-x) == x * x,
{
    assert((-x) * (-x) == x * x) by (nonlinear_arith);
}

} // verus!
