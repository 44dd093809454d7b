//! Rigid transforms: a rotation followed by a translation.
use vstd::prelude::*;
use vstd::std_specs::cmp::PartialEqSpecImpl;
use crate::compare::{answer, rich_answer, CompareOp};
use crate::quat::UnitQuaternion;
use crate::vec3::Vector3;

verus! {

/// A rigid transform. Applied to a point it rotates the point first and
/// moves it by the translation afterwards. It holds its own copies of the
/// two parts.
#[derive(Clone, Copy, Debug)]
pub struct Isometry3 {
    pub translation: Vector3,
    pub rotation: UnitQuaternion,
}

impl Isometry3 {
    /// Equality of both parts: the translations as vectors, the rotations
    /// as rotations.
    pub open spec fn same_isometry(self, other: Isometry3) -> bool {
        self.translation.same_vector(other.translation) && self.rotation.same_rotation(
            other.rotation,
        )
    }

    /// The transform that leaves every point where it is.
    pub fn identity() -> (iso: Isometry3)
        ensures
            iso.translation == Vector3::origin(),
            iso.rotation == UnitQuaternion::unit(),
    {
        Isometry3 { translation: Vector3::new(None, None, None), rotation: UnitQuaternion::identity() }
    }

    /// The transform that moves every point by `v` and turns nothing.
    pub fn from_translation(v: &Vector3) -> (iso: Isometry3)
        ensures
            iso.translation == *v,
            iso.rotation == UnitQuaternion::unit(),
    {
        Isometry3 { translation: *v, rotation: UnitQuaternion::identity() }
    }

    /// The size, which is that of a homogeneous matrix.
    pub fn len(&self) -> (n: usize)
        ensures
            n == 4,
    {
        4
    }

    /// Answers `==` and `!=` by equality of both parts; the other operators
    /// have no answer.
    pub fn rich_compare(&self, other: &Isometry3, op: CompareOp) -> (r: Option<bool>)
        ensures
            r == rich_answer(self.same_isometry(*other), op),
    {
        answer(*self == *other, op)
    }

    /// A copy of the translation.
    pub fn get_translation(&self) -> (v: Vector3)
        ensures
            v == self.translation,
    {
        self.translation
    }

    /// Replaces the translation and leaves the rotation.
    pub fn set_translation(&mut self, v: &Vector3)
        ensures
            *final(self) == (Isometry3 { translation: *v, ..*old(self) }),
    {
        self.translation = *v;
    }

    /// A copy of the rotation.
    pub fn get_rotation(&self) -> (q: UnitQuaternion)
        ensures
            q == self.rotation,
    {
        self.rotation
    }

    /// Replaces the rotation and leaves the translation.
    pub fn set_rotation(&mut self, q: &UnitQuaternion)
        ensures
            *final(self) == (Isometry3 { rotation: *q, ..*old(self) }),
    {
        self.rotation = *q;
    }
}

impl PartialEq for Isometry3 {
    /// Equality of both parts.
    fn eq(&self, other: &Isometry3) -> (r: bool) {
        self.translation == other.translation && self.rotation == other.rotation
    }
}

impl PartialEqSpecImpl for Isometry3 {
    open spec fn obeys_eq_spec() -> bool {
        true
    }

    open spec fn eq_spec(&self, other: &Isometry3) -> bool {
        self.same_isometry(*other)
    }
}

} // verus!
