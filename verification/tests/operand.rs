use deuterium::error::GeometryError;
use deuterium::iso::Isometry3;
use deuterium::mat4::Matrix4;
use deuterium::operand::{
    IsometryProduct, MatrixProduct, Operand, PointMap, RotationProduct, VectorFactor,
};
use deuterium::quat::UnitQuaternion;
use deuterium::scalar::Scalar;
use deuterium::vec3::Vector3;

fn s(x: f64) -> Scalar {
    Scalar::from_bits(x.to_bits())
}

fn v() -> Vector3 {
    Vector3::new(Some(s(1.0)), Some(s(2.0)), Some(s(3.0)))
}

fn m() -> Matrix4 {
    Matrix4::from_translation(&v())
}

fn q() -> UnitQuaternion {
    UnitQuaternion::from_components(s(0.0), s(0.6), s(0.0), s(0.8))
}

fn iso() -> Isometry3 {
    Isometry3::from_translation(&v())
}

fn mismatch<T>(name: &str) -> Result<T, GeometryError> {
    Err(GeometryError::TypeMismatch(name.to_string()))
}

#[test]
fn operand_names() {
    assert_eq!(Operand::Scalar(s(1.0)).name(), "float");
    assert_eq!(Operand::Vector(v()).name(), "Vector3");
    assert_eq!(Operand::Matrix(m()).name(), "Matrix4");
    assert_eq!(Operand::Rotation(q()).name(), "UnitQuaternion");
    assert_eq!(Operand::Isometry(iso()).name(), "Isometry3");
    assert_eq!(Operand::Other("str".to_string()).name(), "str");
    assert_eq!(
        Operand::Other("dict".to_string()).mismatch(),
        GeometryError::TypeMismatch("dict".to_string())
    );
}

#[test]
fn vector_times_number_scales() {
    assert_eq!(Vector3::mul_rule(&Operand::Scalar(s(2.5))), Ok(VectorFactor::Scale(s(2.5))));
}

#[test]
fn vector_times_vector_is_elementwise() {
    assert_eq!(Vector3::mul_rule(&Operand::Vector(v())), Ok(VectorFactor::Elementwise(v())));
}

#[test]
fn vector_times_anything_else_is_a_type_mismatch() {
    assert_eq!(Vector3::mul_rule(&Operand::Matrix(m())), mismatch("Matrix4"));
    assert_eq!(Vector3::mul_rule(&Operand::Rotation(q())), mismatch("UnitQuaternion"));
    assert_eq!(Vector3::mul_rule(&Operand::Isometry(iso())), mismatch("Isometry3"));
    assert_eq!(Vector3::mul_rule(&Operand::Other("str".to_string())), mismatch("str"));
}

#[test]
fn vector_is_transformed_by_the_three_transforms() {
    assert_eq!(Vector3::transform_rule(&Operand::Matrix(m())), Ok(PointMap::Matrix(m())));
    assert_eq!(Vector3::transform_rule(&Operand::Rotation(q())), Ok(PointMap::Rotation(q())));
    assert_eq!(Vector3::transform_rule(&Operand::Isometry(iso())), Ok(PointMap::Isometry(iso())));
}

#[test]
fn vector_transformed_by_anything_else_is_a_type_mismatch() {
    assert_eq!(Vector3::transform_rule(&Operand::Scalar(s(1.0))), mismatch("float"));
    assert_eq!(Vector3::transform_rule(&Operand::Vector(v())), mismatch("Vector3"));
    assert_eq!(Vector3::transform_rule(&Operand::Other("list".to_string())), mismatch("list"));
}

#[test]
fn matrix_products() {
    assert_eq!(Matrix4::mul_rule(&Operand::Matrix(m())), Ok(MatrixProduct::Compose(m())));
    assert_eq!(Matrix4::mul_rule(&Operand::Vector(v())), Ok(MatrixProduct::TransformPoint(v())));
    assert_eq!(Matrix4::mul_rule(&Operand::Scalar(s(1.0))), mismatch("float"));
    assert_eq!(Matrix4::mul_rule(&Operand::Rotation(q())), mismatch("UnitQuaternion"));
    assert_eq!(Matrix4::mul_rule(&Operand::Isometry(iso())), mismatch("Isometry3"));
    assert_eq!(Matrix4::mul_rule(&Operand::Other("int".to_string())), mismatch("int"));
}

#[test]
fn rotation_products() {
    assert_eq!(UnitQuaternion::mul_rule(&Operand::Rotation(q())), Ok(RotationProduct::Compose(q())));
    assert_eq!(UnitQuaternion::mul_rule(&Operand::Vector(v())), Ok(RotationProduct::Rotate(v())));
    assert_eq!(UnitQuaternion::mul_rule(&Operand::Scalar(s(1.0))), mismatch("float"));
    assert_eq!(UnitQuaternion::mul_rule(&Operand::Matrix(m())), mismatch("Matrix4"));
    assert_eq!(UnitQuaternion::mul_rule(&Operand::Isometry(iso())), mismatch("Isometry3"));
    assert_eq!(UnitQuaternion::mul_rule(&Operand::Other("".to_string())), mismatch(""));
}

#[test]
fn isometry_products() {
    assert_eq!(Isometry3::mul_rule(&Operand::Isometry(iso())), Ok(IsometryProduct::Compose(iso())));
    assert_eq!(Isometry3::mul_rule(&Operand::Vector(v())), Ok(IsometryProduct::TransformPoint(v())));
    assert_eq!(Isometry3::mul_rule(&Operand::Scalar(s(1.0))), mismatch("float"));
    assert_eq!(Isometry3::mul_rule(&Operand::Matrix(m())), mismatch("Matrix4"));
    assert_eq!(Isometry3::mul_rule(&Operand::Rotation(q())), mismatch("UnitQuaternion"));
    assert_eq!(Isometry3::mul_rule(&Operand::Other("tuple".to_string())), mismatch("tuple"));
}
