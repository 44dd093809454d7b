//! Operands of products and transforms, and the rules that choose the
//! operation by the kind of the operand.
//!
//! A vector can be multiplied by a number or by another vector, and can be
//! transformed by a matrix, a rotation or an isometry. A matrix, a rotation
//! or an isometry can be multiplied by one of its own kind or applied to a
//! vector. The caller hands over the right-hand operand with its kind; the
//! rule answers with the operation that this kind selects, or with a type
//! mismatch that names the kind.
use vstd::prelude::*;
use vstd::string::StringExecFns;
use crate::error::GeometryError;
use crate::iso::Isometry3;
use crate::mat4::Matrix4;
use crate::quat::UnitQuaternion;
use crate::scalar::Scalar;
use crate::vec3::Vector3;

verus! {

/// A right-hand operand, tagged with its kind.
#[derive(Debug)]
pub enum Operand {
    Scalar(Scalar),
    Vector(Vector3),
    Matrix(Matrix4),
    Rotation(UnitQuaternion),
    Isometry(Isometry3),
    /// A value of any other type, of which only the type's name is kept.
    Other(String),
}

/// What a vector is multiplied by.
#[derive(Clone, Copy, Debug, PartialEq)]
pub enum VectorFactor {
    /// Every component is multiplied by the same number.
    Scale(Scalar),
    /// Every component is multiplied by the matching component.
    Elementwise(Vector3),
}

/// What a vector is transformed by. A matrix and an isometry take the vector
/// as a point; a rotation turns it.
#[derive(Clone, Copy, Debug, PartialEq)]
pub enum PointMap {
    Matrix(Matrix4),
    Rotation(UnitQuaternion),
    Isometry(Isometry3),
}

/// What a product with a matrix on the left means.
#[derive(Clone, Copy, Debug, PartialEq)]
pub enum MatrixProduct {
    /// The matrix product with the matrix on the right.
    Compose(Matrix4),
    /// The image of the vector, taken as a point.
    TransformPoint(Vector3),
}

/// What a product with a rotation on the left means.
#[derive(Clone, Copy, Debug, PartialEq)]
pub enum RotationProduct {
    /// The rotation that applies the right one first.
    Compose(UnitQuaternion),
    /// The turned vector.
    Rotate(Vector3),
}

/// What a product with an isometry on the left means.
#[derive(Clone, Copy, Debug, PartialEq)]
pub enum IsometryProduct {
    /// The isometry that applies the right one first.
    Compose(Isometry3),
    /// The image of the vector, taken as a point.
    TransformPoint(Vector3),
}

impl Operand {
    /// The name of the operand's type.
    pub open spec fn kind_name(self) -> Seq<char> {
        match self {
            Operand::Scalar(_) => "float"@,
            Operand::Vector(_) => "Vector3"@,
            Operand::Matrix(_) => "Matrix4"@,
            Operand::Rotation(_) => "UnitQuaternion"@,
            Operand::Isometry(_) => "Isometry3"@,
            Operand::Other(name) => name@,
        }
    }

    /// The result that refuses this operand: a type mismatch with the name
    /// of its type.
    pub open spec fn is_refused_by<T>(self, r: Result<T, GeometryError>) -> bool {
        r matches Err(GeometryError::TypeMismatch(name)) && name@ == self.kind_name()
    }

    /// The name of the operand's type.
    pub fn name(&self) -> (s: String)
        ensures
            s@ == self.kind_name(),
    {
        match self {
            Operand::Scalar(_) => String::from_str("float"),
            Operand::Vector(_) => String::from_str("Vector3"),
            Operand::Matrix(_) => String::from_str("Matrix4"),
            Operand::Rotation(_) => String::from_str("UnitQuaternion"),
            Operand::Isometry(_) => String::from_str("Isometry3"),
            Operand::Other(name) => name.clone(),
        }
    }

    /// The type mismatch that names this operand's type.
    pub fn mismatch(&self) -> (e: GeometryError)
        ensures
            e matches GeometryError::TypeMismatch(name) && name@ == self.kind_name(),
    {
        GeometryError::TypeMismatch(self.name())
    }
}

impl Vector3 {
    /// The meaning of `vector * arg`: scaling by a number, or the
    /// componentwise product with a vector. No other operand is accepted.
    pub fn mul_rule(arg: &Operand) -> (r: Result<VectorFactor, GeometryError>)
        ensures
            match *arg {
                Operand::Scalar(s) => r == Ok::<VectorFactor, GeometryError>(
                    VectorFactor::Scale(s),
                ),
                Operand::Vector(v) => r == Ok::<VectorFactor, GeometryError>(
                    VectorFactor::Elementwise(v),
                ),
                _ => arg.is_refused_by(r),
            },
    {
        match arg {
            Operand::Scalar(s) => Ok(VectorFactor::Scale(*s)),
            Operand::Vector(v) => Ok(VectorFactor::Elementwise(*v)),
            _ => Err(arg.mismatch()),
        }
    }

    /// The meaning of `vector.transformed(arg)`: the transform by a matrix,
    /// a rotation or an isometry. No other operand is accepted.
    pub fn transform_rule(arg: &Operand) -> (r: Result<PointMap, GeometryError>)
        ensures
            match *arg {
                Operand::Matrix(m) => r == Ok::<PointMap, GeometryError>(PointMap::Matrix(m)),
                Operand::Rotation(q) => r == Ok::<PointMap, GeometryError>(PointMap::Rotation(q)),
                Operand::Isometry(iso) => r == Ok::<PointMap, GeometryError>(
                    PointMap::Isometry(iso),
                ),
                _ => arg.is_refused_by(r),
            },
    {
        match arg {
            Operand::Matrix(m) => Ok(PointMap::Matrix(*m)),
            Operand::Rotation(q) => Ok(PointMap::Rotation(*q)),
            Operand::Isometry(iso) => Ok(PointMap::Isometry(*iso)),
            _ => Err(arg.mismatch()),
        }
    }
}

impl Matrix4 {
    /// The meaning of `matrix * arg`: the product with a matrix, or the
    /// transform of a vector as a point. No other operand is accepted.
    pub fn mul_rule(arg: &Operand) -> (r: Result<MatrixProduct, GeometryError>)
        ensures
            match *arg {
                Operand::Matrix(m) => r == Ok::<MatrixProduct, GeometryError>(
                    MatrixProduct::Compose(m),
                ),
                Operand::Vector(v) => r == Ok::<MatrixProduct, GeometryError>(
                    MatrixProduct::TransformPoint(v),
                ),
                _ => arg.is_refused_by(r),
            },
    {
        match arg {
            Operand::Matrix(m) => Ok(MatrixProduct::Compose(*m)),
            Operand::Vector(v) => Ok(MatrixProduct::TransformPoint(*v)),
            _ => Err(arg.mismatch()),
        }
    }
}

impl UnitQuaternion {
    /// The meaning of `rotation * arg`: the composition with a rotation, or
    /// the turning of a vector. No other operand is accepted.
    pub fn mul_rule(arg: &Operand) -> (r: Result<RotationProduct, GeometryError>)
        ensures
            match *arg {
                Operand::Rotation(q) => r == Ok::<RotationProduct, GeometryError>(
                    RotationProduct::Compose(q),
                ),
                Operand::Vector(v) => r == Ok::<RotationProduct, GeometryError>(
                    RotationProduct::Rotate(v),
                ),
                _ => arg.is_refused_by(r),
            },
    {
        match arg {
            Operand::Rotation(q) => Ok(RotationProduct::Compose(*q)),
            Operand::Vector(v) => Ok(RotationProduct::Rotate(*v)),
            _ => Err(arg.mismatch()),
        }
    }
}

impl Isometry3 {
    /// The meaning of `isometry * arg`: the composition with an isometry,
    /// or the transform of a vector as a point. No other operand is
    /// accepted.
    pub fn mul_rule(arg: &Operand) -> (r: Result<IsometryProduct, GeometryError>)
        ensures
            match *arg {
                Operand::Isometry(iso) => r == Ok::<IsometryProduct, GeometryError>(
                    IsometryProduct::Compose(iso),
                ),
                Operand::Vector(v) => r == Ok::<IsometryProduct, GeometryError>(
                    IsometryProduct::TransformPoint(v),
                ),
                _ => arg.is_refused_by(r),
            },
    {
        match arg {
            Operand::Isometry(iso) => Ok(IsometryProduct::Compose(*iso)),
            Operand::Vector(v) => Ok(IsometryProduct::TransformPoint(*v)),
            _ => Err(arg.mismatch()),
        }
    }
}

} // verus!
