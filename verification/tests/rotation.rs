use deuterium::compare::CompareOp;
use deuterium::error::{GeometryError, Position};
use deuterium::iso::Isometry3;
use deuterium::quat::UnitQuaternion;
use deuterium::scalar::Scalar;
use deuterium::vec3::Vector3;

fn s(x: f64) -> Scalar {
    Scalar::from_bits(x.to_bits())
}

fn v(x: f64, y: f64, z: f64) -> Vector3 {
    Vector3::new(Some(s(x)), Some(s(y)), Some(s(z)))
}

fn q(i: f64, j: f64, k: f64, w: f64) -> UnitQuaternion {
    UnitQuaternion::from_components(s(i), s(j), s(k), s(w))
}

fn bits(a: &UnitQuaternion) -> [u64; 4] {
    a.list().map(|c| c.to_bits())
}

#[test]
fn identity_rotation_has_real_part_one() {
    assert_eq!(bits(&UnitQuaternion::identity()), bits(&q(0.0, 0.0, 0.0, 1.0)));
    assert_eq!(bits(&UnitQuaternion::new()), bits(&q(0.0, 0.0, 0.0, 1.0)));
}

#[test]
fn components_keep_their_order() {
    let a = q(0.5, -0.5, 0.5, -0.5);
    assert_eq!(a.tuple(), (s(0.5), s(-0.5), s(0.5), s(-0.5)));
    assert_eq!(a.list(), [s(0.5), s(-0.5), s(0.5), s(-0.5)]);
    let b = q(0.0, 0.6, 0.0, 0.8);
    assert_eq!(b.i, s(0.0));
    assert_eq!(b.j, s(0.6));
    assert_eq!(b.k, s(0.0));
    assert_eq!(b.w, s(0.8));
}

#[test]
fn rotation_length_is_four() {
    assert_eq!(UnitQuaternion::identity().len(), 4);
}

#[test]
fn rotation_index_wraps_like_a_sequence() {
    let a = q(0.1, 0.2, 0.3, 0.4);
    assert_eq!(a.get_item(0), Ok(s(0.1)));
    assert_eq!(a.get_item(1), Ok(s(0.2)));
    assert_eq!(a.get_item(2), Ok(s(0.3)));
    assert_eq!(a.get_item(3), Ok(s(0.4)));
    assert_eq!(a.get_item(-1), Ok(s(0.4)));
    assert_eq!(a.get_item(-2), Ok(s(0.3)));
    assert_eq!(a.get_item(-3), Ok(s(0.2)));
    assert_eq!(a.get_item(-4), Ok(s(0.1)));
}

#[test]
fn rotation_index_out_of_range_fails() {
    let a = q(0.1, 0.2, 0.3, 0.4);
    assert_eq!(a.get_item(4), Err(GeometryError::IndexOutOfRange(Position::Single(4))));
    assert_eq!(a.get_item(-5), Err(GeometryError::IndexOutOfRange(Position::Single(-5))));
}

#[test]
fn opposite_quaternions_are_the_same_rotation() {
    let a = q(0.5, -0.5, 0.5, -0.5);
    let b = q(-0.5, 0.5, -0.5, 0.5);
    assert!(a == a);
    assert!(a == b);
    assert!(b == a);
    assert!(a != q(0.5, 0.5, 0.5, 0.5));
    assert!(a != q(-0.5, 0.5, -0.5, -0.5));
    assert!(q(0.0, 0.0, 0.0, 1.0) == q(-0.0, -0.0, -0.0, -1.0));
    assert!(q(f64::NAN, 0.0, 0.0, 1.0) != q(f64::NAN, 0.0, 0.0, 1.0));
}

#[test]
fn rotation_rich_compare_answers_equality_only() {
    let a = q(0.5, -0.5, 0.5, -0.5);
    let b = q(-0.5, 0.5, -0.5, 0.5);
    let c = q(0.0, 0.0, 0.0, 1.0);
    assert_eq!(a.rich_compare(&b, CompareOp::Eq), Some(true));
    assert_eq!(a.rich_compare(&b, CompareOp::Ne), Some(false));
    assert_eq!(a.rich_compare(&c, CompareOp::Eq), Some(false));
    assert_eq!(a.rich_compare(&c, CompareOp::Ne), Some(true));
    assert_eq!(a.rich_compare(&c, CompareOp::Le), None);
    assert_eq!(a.rich_compare(&c, CompareOp::Gt), None);
}

#[test]
fn inverse_is_the_conjugate() {
    let a = q(0.1, -0.2, 0.3, 0.4);
    assert_eq!(bits(&a.inverse()), bits(&q(-0.1, 0.2, -0.3, 0.4)));
    assert_eq!(bits(&a.inverse().inverse()), bits(&a));
    let mut b = a;
    b.invert();
    assert_eq!(bits(&b), bits(&a.inverse()));
    b.invert();
    assert_eq!(bits(&b), bits(&a));
    assert!(UnitQuaternion::identity().inverse() == UnitQuaternion::identity());
}

#[test]
fn identity_isometry_moves_nothing() {
    let id = Isometry3::identity();
    assert_eq!(id.get_translation().list().map(|c| c.to_bits()), [0, 0, 0]);
    assert_eq!(bits(&id.get_rotation()), bits(&UnitQuaternion::identity()));
    assert_eq!(id.len(), 4);
}

#[test]
fn isometry_from_translation_turns_nothing() {
    let iso = Isometry3::from_translation(&v(1.0, 2.0, 3.0));
    assert_eq!(iso.get_translation(), v(1.0, 2.0, 3.0));
    assert_eq!(bits(&iso.get_rotation()), bits(&UnitQuaternion::identity()));
}

#[test]
fn isometry_parts_are_set_independently() {
    let mut iso = Isometry3::identity();
    iso.set_rotation(&q(0.0, 0.6, 0.0, 0.8));
    assert_eq!(iso.get_translation(), v(0.0, 0.0, 0.0));
    assert_eq!(bits(&iso.get_rotation()), bits(&q(0.0, 0.6, 0.0, 0.8)));
    iso.set_translation(&v(4.0, 5.0, 6.0));
    assert_eq!(iso.get_translation(), v(4.0, 5.0, 6.0));
    assert_eq!(bits(&iso.get_rotation()), bits(&q(0.0, 0.6, 0.0, 0.8)));
}

#[test]
fn isometry_equality_compares_both_parts() {
    let mut a = Isometry3::from_translation(&v(1.0, 2.0, 3.0));
    a.set_rotation(&q(0.0, 0.6, 0.0, 0.8));
    let mut b = a;
    assert!(a == b);
    b.set_rotation(&q(-0.0, -0.6, -0.0, -0.8));
    assert!(a == b);
    b.set_rotation(&q(0.0, 0.0, 0.6, 0.8));
    assert!(a != b);
    let mut c = a;
    c.set_translation(&v(1.0, 2.0, 3.5));
    assert!(a != c);
    assert_eq!(a.rich_compare(&c, CompareOp::Eq), Some(false));
    assert_eq!(a.rich_compare(&c, CompareOp::Ne), Some(true));
    assert_eq!(a.rich_compare(&a, CompareOp::Eq), Some(true));
    assert_eq!(a.rich_compare(&a, CompareOp::Lt), None);
}
