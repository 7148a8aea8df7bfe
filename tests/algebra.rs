use raycore::normal::Normal3;
use raycore::{Point2, Point3, Vector2, Vector3};

#[test]
fn test_point2_add_vector() {
    let p = Point2 { x: 1, y: 2 };
    let v = Vector2 { x: 3, y: 4 };
    let result = p.add_vector(v);
    assert_eq!(result.x, 4);
    assert_eq!(result.y, 6);
}

#[test]
fn test_point2_sub_point2() {
    let p1 = Point2 { x: 5, y: 3 };
    let p2 = Point2 { x: 2, y: 1 };
    let v: Vector2 = p1.sub_point(p2);
    assert_eq!(v, Vector2::new(3, 2))
}

#[test]
fn test_point3_add_vector() {
    let p = Point3 { x: 1, y: 1, z: 1 };
    let v = Vector3 { x: 2, y: 3, z: 4 };
    let result = p.add_vector(v);
    assert_eq!(result.x, 3);
    assert_eq!(result.y, 4);
    assert_eq!(result.z, 5);
}

#[test]
fn test_point3_min_max_component() {
    let p = Point3::new(3, -1, 7);
    assert_eq!(p.min_component(), -1);
    assert_eq!(p.max_component(), 7);
}

#[test]
fn test_point3_min_max_with_point() {
    let a = Point3::new(1, 5, 3);
    let b = Point3::new(2, 3, 4);
    let min = a.min(&b);
    let max = a.max(&b);
    assert_eq!(min, Point3::new(1, 3, 3));
    assert_eq!(max, Point3::new(2, 5, 4));
}

#[test]
fn floor_and_ceil_keep_whole_coordinates() {
    let p = Point2::new(1, -3);
    assert_eq!(p.floor(), Point2::new(1, -3));
    assert_eq!(p.ceil(), Point2::new(1, -3));
    let q = Point3::new(1, -3, 0);
    assert_eq!(q.floor(), q);
    assert_eq!(q.ceil(), q);
}

#[test]
fn vector_arithmetic() {
    let a = Vector3::new(1, -2, 3);
    let b = Vector3::new(4, 5, -6);
    assert_eq!(a.add(b), Vector3::new(5, 3, -3));
    assert_eq!(a.sub(b), Vector3::new(-3, -7, 9));
    assert_eq!(a.mul(3), Vector3::new(3, -6, 9));
    assert_eq!(Vector3::new(7, -7, 6).div(2), Vector3::new(3, -3, 3));
    assert_eq!(a.neg(), Vector3::new(-1, 2, -3));
    assert_eq!(a.abs(), Vector3::new(1, 2, 3));
    assert_eq!(a.dot(&b), 4 - 10 - 18);
    assert_eq!(a.abs_dot(&b), 24);
    assert_eq!(a.length_squared(), 14);
    assert_eq!(a.min(b), Vector3::new(1, -2, -6));
    assert_eq!(a.max(b), Vector3::new(4, 5, 3));
    assert_eq!(b.min_component(), -6);
    assert_eq!(b.max_component(), 5);
}

#[test]
fn vector2_arithmetic() {
    let a = Vector2::new(3, -4);
    let b = Vector2::new(-1, 2);
    assert_eq!(a.dot(b), -11);
    assert_eq!(a.abs_dot(b), 11);
    assert_eq!(a.length_squared(), 25);
    assert_eq!(a.abs(), Vector2::new(3, 4));
    assert_eq!(a.neg(), Vector2::new(-3, 4));
    assert_eq!(a.min(b), Vector2::new(-1, -4));
    assert_eq!(a.max(b), Vector2::new(3, 2));
    assert_eq!(a.min_component(), -4);
    assert_eq!(a.max_component(), 3);
    assert_eq!(a.add(b), Vector2::new(2, -2));
    assert_eq!(a.sub(b), Vector2::new(4, -6));
    assert_eq!(a.mul(-2), Vector2::new(-6, 8));
    assert_eq!(a.div(-2), Vector2::new(-1, 2));
}

#[test]
fn division_rounds_toward_zero() {
    assert_eq!(Vector2::new(-7, 7).div(2), Vector2::new(-3, 3));
    assert_eq!(Vector2::new(i64::MIN, 5).div(2), Vector2::new(i64::MIN / 2, 2));
    assert_eq!(Point2::new(9, -9).div(4), Point2::new(2, -2));
}

#[test]
fn cross_is_anti_commutative() {
    let v = Vector3::new(1, 2, 3);
    let w = Vector3::new(-4, 0, 5);
    let vw = v.cross(&w);
    let wv = w.cross(&v);
    assert_eq!(vw, Vector3::new(10, -17, 8));
    assert_eq!(vw, wv.neg());
    assert_eq!(vw.dot(&v), 0);
    assert_eq!(vw.dot(&w), 0);
}

#[test]
fn cross_is_right_handed() {
    let x = Vector3::new(1, 0, 0);
    let y = Vector3::new(0, 1, 0);
    assert_eq!(x.cross(&y), Vector3::new(0, 0, 1));
}

#[test]
fn normalize_gives_unit_length_along_an_axis() {
    let v = Vector3::new(0, -5, 0);
    let u = v.normalize().unwrap();
    assert_eq!(u, Vector3::new(0, -1, 0));
    assert_eq!(u.length_squared(), 1);
    assert_eq!(Vector3::new(3, 4, 0).normalize(), None);
    assert_eq!(Vector2::new(7, 0).normalize(), Some(Vector2::new(1, 0)));
    assert_eq!(Vector2::new(1, 1).normalize(), None);
    assert_eq!(Point3::new(0, 0, 9).normalize(), Some(Point3::new(0, 0, 1)));
    assert_eq!(Point2::new(0, -4).normalize(), Some(Point2::new(0, -1)));
    assert_eq!(Point2::new(2, -4).normalize(), None);
    assert_eq!(Normal3::new(-2, 0, 0).normalize(), Some(Normal3::new(-1, 0, 0)));
}

#[test]
fn coordinate_system_is_orthonormal() {
    for v in [
        Vector3::new(1, 0, 0),
        Vector3::new(-1, 0, 0),
        Vector3::new(0, 1, 0),
        Vector3::new(0, 0, -1),
    ] {
        let (v2, v3) = v.co_ordinate_system();
        assert_eq!(v2.length_squared(), 1);
        assert_eq!(v3.length_squared(), 1);
        assert_eq!(v.dot(&v2), 0);
        assert_eq!(v.dot(&v3), 0);
        assert_eq!(v2.dot(&v3), 0);
        assert_eq!(v.cross(&v2), v3);
    }
    let (v2, v3) = Vector3::new(1, 0, 0).co_ordinate_system();
    assert_eq!(v2, Vector3::new(0, 0, 1));
    assert_eq!(v3, Vector3::new(0, -1, 0));
    let (v2, _) = Vector3::new(0, 0, 1).co_ordinate_system();
    assert_eq!(v2, Vector3::new(0, 1, 0));
}

#[test]
fn face_forward_points_toward_the_reference() {
    let n = Normal3::new(0, 0, 1);
    let away = Vector3::new(1, 2, -3);
    let flipped = n.face_forward(&away);
    assert_eq!(flipped, Normal3::new(0, 0, -1));
    assert!(flipped.dot(&away) >= 0);
    let toward = Vector3::new(0, 0, 2);
    assert_eq!(n.face_forward(&toward), n);
    let perpendicular = Vector3::new(1, 0, 0);
    assert_eq!(n.face_forward(&perpendicular), n);
}

#[test]
fn normal_arithmetic() {
    let n = Normal3::new(1, -2, 2);
    assert_eq!(n.length_squared(), 9);
    assert_eq!(n.neg(), Normal3::new(-1, 2, -2));
    assert_eq!(n.min_component(), -2);
    assert_eq!(n.max_component(), 2);
    assert_eq!(n.dot(&Vector3::new(1, 1, 1)), 1);
    assert_eq!(n.abs_dot(&Vector3::new(0, 1, 0)), 2);
    assert_eq!(n.add(Normal3::new(1, 1, 1)), Normal3::new(2, -1, 3));
    assert_eq!(n.sub(Normal3::new(1, 1, 1)), Normal3::new(0, -3, 1));
    assert_eq!(n.mul(2), Normal3::new(2, -4, 4));
    assert_eq!(n.div(2), Normal3::new(0, -1, 1));
    assert_eq!(Normal3::from_vector(&Vector3::new(4, 5, 6)).to_vector(), Vector3::new(4, 5, 6));
}

#[test]
fn point_operations() {
    let p = Point3::new(1, 2, 3);
    let q = Point3::new(4, 6, 3);
    assert_eq!(p.distance_squared(q), 25);
    assert_eq!(p.sub_point(q), Vector3::new(-3, -4, 0));
    assert_eq!(p.sub_vector(Vector3::new(1, 1, 1)), Point3::new(0, 1, 2));
    assert_eq!(p.add_point(q), Point3::new(5, 8, 6));
    assert_eq!(p.mul(2), Point3::new(2, 4, 6));
    assert_eq!(p.neg().abs(), p);
    let a = Point2::new(1, 5);
    let b = Point2::new(4, 1);
    assert_eq!(a.distance_squared(b), 25);
    assert_eq!(Point2::from_point3(p), Point2::new(1, 2));
    assert_eq!(a.min(b), Point2::new(1, 1));
    assert_eq!(a.max(b), Point2::new(4, 5));
    assert_eq!(a.min_component(), 1);
    assert_eq!(a.max_component(), 5);
    assert_eq!(a.neg(), Point2::new(-1, -5));
    assert_eq!(a.neg().abs(), a);
    assert_eq!(a.add_point(b), Point2::new(5, 6));
    assert_eq!(a.sub_vector(Vector2::new(1, 1)), Point2::new(0, 4));
    assert_eq!(a.mul(3), Point2::new(3, 15));
}

#[test]
fn lerp_interpolates_linearly() {
    assert_eq!(raycore::lerp(0, 3, 9), 3);
    assert_eq!(raycore::lerp(1, 3, 9), 9);
    assert_eq!(raycore::lerp(2, 3, 9), 15);
    assert_eq!(raycore::lerp(-1, 3, 9), -3);
}
