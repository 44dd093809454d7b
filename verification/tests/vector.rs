use deuterium::compare::CompareOp;
use deuterium::error::{GeometryError, Position};
use deuterium::scalar::Scalar;
use deuterium::vec3::Vector3;

fn s(x: f64) -> Scalar {
    Scalar::from_bits(x.to_bits())
}

fn v(x: f64, y: f64, z: f64) -> Vector3 {
    Vector3::new(Some(s(x)), Some(s(y)), Some(s(z)))
}

fn out_of_range<T>(idx: isize) -> Result<T, GeometryError> {
    Err(GeometryError::IndexOutOfRange(Position::Single(idx)))
}

#[test]
fn missing_components_are_zero() {
    let a = Vector3::new(None, None, None);
    assert_eq!(a.tuple(), (s(0.0), s(0.0), s(0.0)));
    assert_eq!(a.x.to_bits(), 0);
    let b = Vector3::new(Some(s(1.5)), None, Some(s(-2.0)));
    assert_eq!(b.get_x().to_bits(), 1.5f64.to_bits());
    assert_eq!(b.get_y().to_bits(), 0.0f64.to_bits());
    assert_eq!(b.get_z().to_bits(), (-2.0f64).to_bits());
}

#[test]
fn components_are_set_independently() {
    let mut a = v(1.0, 2.0, 3.0);
    a.set_x(s(10.0));
    assert_eq!(a, v(10.0, 2.0, 3.0));
    a.set_y(s(20.0));
    assert_eq!(a, v(10.0, 20.0, 3.0));
    a.set_z(s(30.0));
    assert_eq!(a, v(10.0, 20.0, 30.0));
}

#[test]
fn length_is_three() {
    assert_eq!(Vector3::len(), 3);
}

#[test]
fn index_from_the_front() {
    let a = v(1.0, 2.0, 3.0);
    assert_eq!(a.get_item(0), Ok(s(1.0)));
    assert_eq!(a.get_item(1), Ok(s(2.0)));
    assert_eq!(a.get_item(2), Ok(s(3.0)));
}

#[test]
fn negative_index_counts_from_the_end() {
    let a = v(1.0, 2.0, 3.0);
    assert_eq!(a.get_item(-1), a.get_item(2));
    assert_eq!(a.get_item(-1), Ok(s(3.0)));
    assert_eq!(a.get_item(-2), Ok(s(2.0)));
    assert_eq!(a.get_item(-3), Ok(s(1.0)));
}

#[test]
fn index_out_of_range_fails() {
    let a = v(1.0, 2.0, 3.0);
    assert_eq!(a.get_item(3), out_of_range(3));
    assert_eq!(a.get_item(-4), out_of_range(-4));
    assert_eq!(a.get_item(isize::MAX), out_of_range(isize::MAX));
    assert_eq!(a.get_item(isize::MIN), out_of_range(isize::MIN));
}

#[test]
fn set_item_replaces_one_component() {
    let mut a = v(1.0, 2.0, 3.0);
    assert_eq!(a.set_item(0, s(7.0)), Ok(()));
    assert_eq!(a, v(7.0, 2.0, 3.0));
    assert_eq!(a.set_item(-1, s(9.0)), Ok(()));
    assert_eq!(a, v(7.0, 2.0, 9.0));
    assert_eq!(a.set_item(-2, s(8.0)), Ok(()));
    assert_eq!(a, v(7.0, 8.0, 9.0));
    assert_eq!(a.set_item(-3, s(6.0)), Ok(()));
    assert_eq!(a, v(6.0, 8.0, 9.0));
}

#[test]
fn set_item_out_of_range_changes_nothing() {
    let mut a = v(1.0, 2.0, 3.0);
    assert_eq!(a.set_item(3, s(7.0)), out_of_range(3));
    assert_eq!(a.set_item(-4, s(7.0)), out_of_range(-4));
    assert_eq!(a, v(1.0, 2.0, 3.0));
}

#[test]
fn equality_is_componentwise() {
    assert!(v(1.0, 2.0, 3.0) == v(1.0, 2.0, 3.0));
    assert!(v(1.0, 2.0, 3.0) != v(1.0, 2.0, 3.5));
    assert!(v(1.0, 2.0, 3.0) != v(1.5, 2.0, 3.0));
    assert!(v(1.0, 2.0, 3.0) != v(1.0, 2.5, 3.0));
    assert!(v(0.0, 0.0, 0.0) == v(-0.0, -0.0, -0.0));
    assert!(v(f64::NAN, 0.0, 0.0) != v(f64::NAN, 0.0, 0.0));
}

#[test]
fn rich_compare_answers_equality_only() {
    let a = v(1.0, 2.0, 3.0);
    let b = v(1.0, 2.0, 4.0);
    assert_eq!(a.rich_compare(&a, CompareOp::Eq), Some(true));
    assert_eq!(a.rich_compare(&a, CompareOp::Ne), Some(false));
    assert_eq!(a.rich_compare(&b, CompareOp::Eq), Some(false));
    assert_eq!(a.rich_compare(&b, CompareOp::Ne), Some(true));
    assert_eq!(a.rich_compare(&b, CompareOp::Lt), None);
    assert_eq!(a.rich_compare(&b, CompareOp::Le), None);
    assert_eq!(a.rich_compare(&b, CompareOp::Gt), None);
    assert_eq!(a.rich_compare(&b, CompareOp::Ge), None);
}

#[test]
fn negation_flips_every_component() {
    let a = v(1.0, -2.0, 0.0);
    let n = a.neg();
    assert_eq!(n.x.to_bits(), (-1.0f64).to_bits());
    assert_eq!(n.y.to_bits(), 2.0f64.to_bits());
    assert_eq!(n.z.to_bits(), (-0.0f64).to_bits());
    let mut b = a;
    b.negate();
    assert_eq!(b.tuple(), n.tuple());
    assert_eq!(b.list().map(|c| c.to_bits()), n.list().map(|c| c.to_bits()));
    b.negate();
    assert_eq!(b.list().map(|c| c.to_bits()), a.list().map(|c| c.to_bits()));
}

#[test]
fn tuple_and_list_hold_the_components_in_order() {
    let a = v(1.0, 2.0, 3.0);
    assert_eq!(a.tuple(), (s(1.0), s(2.0), s(3.0)));
    assert_eq!(a.list(), [s(1.0), s(2.0), s(3.0)]);
}

#[test]
fn homogeneous_point_has_a_one_appended() {
    let a = v(4.0, 5.0, 6.0);
    assert_eq!(a.as_4(), [s(4.0), s(5.0), s(6.0), s(1.0)]);
    assert_eq!(a.as_4()[3].to_bits(), 1.0f64.to_bits());
}

#[test]
fn from_homogeneous_point_drops_the_last_component() {
    let h = [s(4.0), s(5.0), s(6.0), s(2.0)];
    assert_eq!(Vector3::from_4(&h), v(4.0, 5.0, 6.0));
    assert_eq!(Vector3::from_4(&v(7.0, 8.0, 9.0).as_4()), v(7.0, 8.0, 9.0));
}
