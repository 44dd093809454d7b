//! Three-component vectors.
use vstd::prelude::*;
use vstd::std_specs::cmp::PartialEqSpecImpl;
use crate::compare::{answer, rich_answer, CompareOp};
use crate::error::{GeometryError, Position};
use crate::index::{resolve_index, wrapped_offset};
use crate::scalar::{lemma_negated_twice, Scalar, ONE_BITS};

verus! {

/// The component that was given, or positive zero where none was.
pub open spec fn or_zero(component: Option<Scalar>) -> Scalar {
    match component {
        Some(s) => s,
        None => Scalar { bits: 0 },
    }
}

/// A vector of three real components. Any three scalars make a vector.
#[derive(Clone, Copy, Debug)]
pub struct Vector3 {
    pub x: Scalar,
    pub y: Scalar,
    pub z: Scalar,
}

impl View for Vector3 {
    type V = Seq<Scalar>;

    /// The components in order: x, y, z.
    open spec fn view(&self) -> Seq<Scalar> {
        seq![self.x, self.y, self.z]
    }
}

impl Vector3 {
    /// Componentwise numeric equality.
    pub open spec fn same_vector(self, other: Vector3) -> bool {
        &&& self.x.same_number(other.x)
        &&& self.y.same_number(other.y)
        &&& self.z.same_number(other.z)
    }

    /// The vector with all components positive zero.
    pub open spec fn origin() -> Vector3 {
        Vector3 { x: Scalar { bits: 0 }, y: Scalar { bits: 0 }, z: Scalar { bits: 0 } }
    }

    /// The vector with the sign of every component changed.
    pub open spec fn negated(self) -> Vector3 {
        Vector3 { x: self.x.negated(), y: self.y.negated(), z: self.z.negated() }
    }

    /// The vector with the given components; a component that is not given
    /// is zero.
    pub fn new(x: Option<Scalar>, y: Option<Scalar>, z: Option<Scalar>) -> (v: Vector3)
        ensures
            v == (Vector3 { x: or_zero(x), y: or_zero(y), z: or_zero(z) }),
    {
        Vector3 {
            x: match x {
                Some(s) => s,
                None => Scalar::zero(),
            },
            y: match y {
                Some(s) => s,
                None => Scalar::zero(),
            },
            z: match z {
                Some(s) => s,
                None => Scalar::zero(),
            },
        }
    }

    /// The vector as a homogeneous point: its components, then one.
    pub fn as_4(&self) -> (h: [Scalar; 4])
        ensures
            h@ == seq![self.x, self.y, self.z, Scalar { bits: ONE_BITS }],
    {
        let h: [Scalar; 4] = [self.x, self.y, self.z, Scalar::one()];
        h
    }

    /// The first three components of a homogeneous point. The fourth is
    /// dropped as it is: there is no division by it.
    pub fn from_4(h: &[Scalar; 4]) -> (v: Vector3)
        ensures
            v@ == h@.subrange(0, 3),
    {
        let v = Vector3 { x: h[0], y: h[1], z: h[2] };
        v
    }

    /// The x component.
    pub fn get_x(&self) -> (s: Scalar)
        ensures
            s == self.x,
    {
        self.x
    }

    /// Replaces the x component and leaves the other two.
    pub fn set_x(&mut self, arg: Scalar)
        ensures
            *final(self) == (Vector3 { x: arg, ..*old(self) }),
    {
        self.x = arg;
    }

    /// The y component.
    pub fn get_y(&self) -> (s: Scalar)
        ensures
            s == self.y,
    {
        self.y
    }

    /// Replaces the y component and leaves the other two.
    pub fn set_y(&mut self, arg: Scalar)
        ensures
            *final(self) == (Vector3 { y: arg, ..*old(self) }),
    {
        self.y = arg;
    }

    /// The z component.
    pub fn get_z(&self) -> (s: Scalar)
        ensures
            s == self.z,
    {
        self.z
    }

    /// Replaces the z component and leaves the other two.
    pub fn set_z(&mut self, arg: Scalar)
        ensures
            *final(self) == (Vector3 { z: arg, ..*old(self) }),
    {
        self.z = arg;
    }

    /// The number of components.
    pub fn len() -> (n: usize)
        ensures
            n == 3,
    {
        3
    }

    /// The component at `idx`, where a negative index counts from the end.
    /// An index outside `[-3, 3)` is out of range.
    pub fn get_item(&self, idx: isize) -> (r: Result<Scalar, GeometryError>)
        ensures
            match wrapped_offset(idx as int, 3) {
                Some(k) => r == Ok::<Scalar, GeometryError>(self@[k]),
                None => r == Err::<Scalar, GeometryError>(
                    GeometryError::IndexOutOfRange(Position::Single(idx)),
                ),
            },
    {
        match resolve_index(idx, 3) {
            Ok(k) => Ok(
                if k == 0 {
                    self.x
                } else if k == 1 {
                    self.y
                } else {
                    self.z
                },
            ),
            Err(e) => Err(e),
        }
    }

    /// Replaces the component at `idx`, where a negative index counts from
    /// the end. An index outside `[-3, 3)` is out of range, and the vector
    /// then stays as it was.
    pub fn set_item(&mut self, idx: isize, value: Scalar) -> (r: Result<(), GeometryError>)
        ensures
            match wrapped_offset(idx as int, 3) {
                Some(k) => r == Ok::<(), GeometryError>(()) && final(self)@ == old(self)@.update(
                    k,
                    value,
                ),
                None => r == Err::<(), GeometryError>(
                    GeometryError::IndexOutOfRange(Position::Single(idx)),
                ) && *final(self) == *old(self),
            },
    {
        match resolve_index(idx, 3) {
            Ok(k) => {
                if k == 0 {
                    self.x = value;
                } else if k == 1 {
                    self.y = value;
                } else {
                    self.z = value;
                }
                Ok(())
            },
            Err(e) => Err(e),
        }
    }

    /// Answers `==` and `!=` by componentwise numeric equality; the other
    /// operators have no answer.
    pub fn rich_compare(&self, other: &Vector3, op: CompareOp) -> (r: Option<bool>)
        ensures
            r == rich_answer(self.same_vector(*other), op),
    {
        answer(*self == *other, op)
    }

    /// The vector pointing the opposite way.
    pub fn neg(&self) -> (v: Vector3)
        ensures
            v == self.negated(),
    {
        Vector3 { x: self.x.neg(), y: self.y.neg(), z: self.z.neg() }
    }

    /// Turns the vector to point the opposite way.
    pub fn negate(&mut self)
        ensures
            *final(self) == old(self).negated(),
    {
        self.x = self.x.neg();
        self.y = self.y.neg();
        self.z = self.z.neg();
    }

    /// The components as a triple.
    pub fn tuple(&self) -> (t: (Scalar, Scalar, Scalar))
        ensures
            t == (self.x, self.y, self.z),
    {
        (self.x, self.y, self.z)
    }

    /// The components as an array.
    pub fn list(&self) -> (a: [Scalar; 3])
        ensures
            a@ == self@,
    {
        let a: [Scalar; 3] = [self.x, self.y, self.z];
        a
    }
}

impl PartialEq for Vector3 {
    /// Componentwise numeric equality.
    fn eq(&self, other: &Vector3) -> (r: bool) {
        self.x == other.x && self.y == other.y && self.z == other.z
    }
}

impl PartialEqSpecImpl for Vector3 {
    open spec fn obeys_eq_spec() -> bool {
        true
    }

    open spec fn eq_spec(&self, other: &Vector3) -> bool {
        self.same_vector(*other)
    }
}

/// Changing the direction twice gives back the same vector, encoding for
/// encoding.
pub proof fn lemma_vector_negated_twice(v: Vector3)
    ensures
        v.negated().negated() == v,
{
    lemma_negated_twice(v.x);
    lemma_negated_twice(v.y);
    lemma_negated_twice(v.z);
}

/// Equality of vectors is symmetric.
pub proof fn lemma_same_vector_symmetric(a: Vector3, b: Vector3)
    ensures
        a.same_vector(b) == b.same_vector(a),
{
}

/// A vector equals itself exactly when none of its components is a NaN.
pub proof fn lemma_same_vector_reflexive(a: Vector3)
    ensures
        a.same_vector(a) == (!a.x.is_nan() && !a.y.is_nan() && !a.z.is_nan()),
{
}

} // verus!
