use raycore::{DegenerateTransform, Matrix4x4, Point3, Transform, Vector3};

fn is_identity(m: &Matrix4x4) -> bool {
    m.is_identity()
}

fn assert_mutually_inverse(t: &Transform) {
    let m = t.mat();
    let mi = t.mat_inv();
    assert!(is_identity(&m.mul(&mi)));
    assert!(is_identity(&mi.mul(&m)));
}

#[test]
fn translate_then_inverse_returns_the_origin() {
    let t = Transform::translate(&Vector3::new(1, 2, 3));
    let origin = Point3::new(0, 0, 0);
    let moved = t.apply_point(&origin);
    assert_eq!(moved, Point3::new(1, 2, 3));
    let back = t.inverse().apply_point(&moved);
    assert_eq!(back, Point3::new(0, 0, 0));
}

#[test]
fn translate_matrices() {
    let t = Transform::translate(&Vector3::new(1, 2, 3));
    assert_eq!(t.mat().m, [1, 0, 0, 1, 0, 1, 0, 2, 0, 0, 1, 3, 0, 0, 0, 1]);
    assert_eq!(t.mat_inv().m, [1, 0, 0, -1, 0, 1, 0, -2, 0, 0, 1, -3, 0, 0, 0, 1]);
    assert_mutually_inverse(&t);
}

#[test]
fn every_built_transform_has_its_inverse() {
    assert_mutually_inverse(&Transform::translate(&Vector3::new(-7, 0, 11)));
    assert_mutually_inverse(&Transform::scale(-1, 1, -1).unwrap());
    for theta in [0, 90, 180, 270, -90, 450] {
        assert_mutually_inverse(&Transform::rotate_x(theta).unwrap());
        assert_mutually_inverse(&Transform::rotate_y(theta).unwrap());
        assert_mutually_inverse(&Transform::rotate_z(theta).unwrap());
    }
    assert_mutually_inverse(&Transform::rotate(90, &Vector3::new(0, 0, -3)).unwrap());
    let cam = Transform::look_at(
        Point3::new(1, 2, 3),
        Point3::new(1, 2, 10),
        &Vector3::new(0, 5, 0),
    )
    .unwrap();
    assert_mutually_inverse(&cam);
}

#[test]
fn scale_errors() {
    assert_eq!(Transform::scale(0, 1, 1).unwrap_err(), DegenerateTransform::Singular);
    assert_eq!(Transform::scale(2, 1, 1).unwrap_err(), DegenerateTransform::NotIntegral);
    let mirror = Transform::scale(-1, 1, 1).unwrap();
    assert_eq!(mirror.apply_point(&Point3::new(4, 5, 6)), Point3::new(-4, 5, 6));
}

#[test]
fn quarter_turn_rotations() {
    let rz = Transform::rotate_z(90).unwrap();
    assert_eq!(rz.apply_point(&Point3::new(1, 0, 0)), Point3::new(0, 1, 0));
    let rx = Transform::rotate_x(90).unwrap();
    assert_eq!(rx.apply_point(&Point3::new(0, 1, 0)), Point3::new(0, 0, 1));
    let ry = Transform::rotate_y(90).unwrap();
    assert_eq!(ry.apply_point(&Point3::new(0, 0, 1)), Point3::new(1, 0, 0));
    let half = Transform::rotate_z(-180).unwrap();
    assert_eq!(half.apply_point(&Point3::new(2, 3, 4)), Point3::new(-2, -3, 4));
    assert_eq!(Transform::rotate_x(45).unwrap_err(), DegenerateTransform::NotIntegral);
    assert_eq!(Transform::rotate_y(-30).unwrap_err(), DegenerateTransform::NotIntegral);
}

#[test]
fn rotate_about_an_axis() {
    let r = Transform::rotate(90, &Vector3::new(0, 0, 5)).unwrap();
    assert_eq!(r.apply_point(&Point3::new(1, 0, 0)), Point3::new(0, 1, 0));
    let neg = Transform::rotate(90, &Vector3::new(0, 0, -1)).unwrap();
    assert_eq!(neg.apply_point(&Point3::new(1, 0, 0)), Point3::new(0, -1, 0));
    assert_eq!(
        Transform::rotate(90, &Vector3::new(1, 1, 0)).unwrap_err(),
        DegenerateTransform::NotIntegral
    );
    assert_eq!(
        Transform::rotate(90, &Vector3::new(0, 0, 0)).unwrap_err(),
        DegenerateTransform::Singular
    );
}

#[test]
fn look_at_builds_the_camera_frame() {
    let cam = Transform::look_at(
        Point3::new(1, 2, 3),
        Point3::new(1, 2, 10),
        &Vector3::new(0, 5, 0),
    )
    .unwrap();
    // dir = +z, up = +y, right = up x dir = +x, recomputed up = dir x right = +y.
    assert_eq!(cam.mat().m, [1, 0, 0, 1, 0, 1, 0, 2, 0, 0, 1, 3, 0, 0, 0, 1]);
    assert_eq!(cam.apply_point(&Point3::new(0, 0, 1)), Point3::new(1, 2, 4));
    assert_eq!(cam.inverse().apply_point(&Point3::new(1, 2, 4)), Point3::new(0, 0, 1));
}

#[test]
fn look_at_errors() {
    let p = Point3::new(0, 0, 0);
    assert_eq!(
        Transform::look_at(p, p, &Vector3::new(0, 1, 0)).unwrap_err(),
        DegenerateTransform::Singular
    );
    assert_eq!(
        Transform::look_at(p, Point3::new(1, 1, 0), &Vector3::new(0, 0, 1)).unwrap_err(),
        DegenerateTransform::NotIntegral
    );
    assert_eq!(
        Transform::look_at(p, Point3::new(0, 0, 1), &Vector3::new(0, 0, 0)).unwrap_err(),
        DegenerateTransform::Singular
    );
    assert_eq!(
        Transform::look_at(p, Point3::new(0, 0, 1), &Vector3::new(1, 1, 0)).unwrap_err(),
        DegenerateTransform::NotIntegral
    );
    assert_eq!(
        Transform::look_at(p, Point3::new(0, 0, 1), &Vector3::new(0, 0, -2)).unwrap_err(),
        DegenerateTransform::Singular
    );
}

#[test]
fn new_checks_the_pair() {
    let m = Matrix4x4::new(1, 0, 0, 4, 0, 1, 0, 5, 0, 0, 1, 6, 0, 0, 0, 1);
    let mi = Matrix4x4::new(1, 0, 0, -4, 0, 1, 0, -5, 0, 0, 1, -6, 0, 0, 0, 1);
    let t = Transform::new(m, mi).unwrap();
    assert_eq!(t.mat(), m);
    assert_eq!(t.mat_inv(), mi);
    assert_eq!(Transform::new(m, m).unwrap_err(), DegenerateTransform::NotInverse);
    let huge = Matrix4x4::new(i64::MAX, 0, 0, 0, 0, 1, 0, 0, 0, 0, 1, 0, 0, 0, 0, 1);
    assert_eq!(Transform::new(huge, huge).unwrap_err(), DegenerateTransform::NotInverse);
}

#[test]
fn matrix_operations() {
    let a = Matrix4x4::new(1, 2, 3, 4, 5, 6, 7, 8, 9, 10, 11, 12, 13, 14, 15, 16);
    let t = a.transpose();
    assert_eq!(t.get(0, 1), 5);
    assert_eq!(t.get(3, 0), 4);
    let i = Matrix4x4::identity();
    assert_eq!(a.mul(&i), a);
    assert_eq!(i.mul(&a), a);
    let p = a.mul(&a);
    assert_eq!(p.get(0, 0), 1 + 2 * 5 + 3 * 9 + 4 * 13);
    assert_eq!(p.get(3, 3), 13 * 4 + 14 * 8 + 15 * 12 + 16 * 16);
    assert_eq!(Matrix4x4::zeros().m, [0; 16]);
    let big = Matrix4x4::new(i64::MAX, 0, 0, 0, 0, 1, 0, 0, 0, 0, 1, 0, 0, 0, 0, 1);
    assert!(big.checked_mul(&big).is_none());
    assert!(big.checked_mul(&i).is_some());
    let mut s = Matrix4x4::zeros();
    s.set(2, 3, 9);
    assert_eq!(s.get(2, 3), 9);
    assert_eq!(s.m[11], 9);
}

#[test]
fn look_at_along_a_negative_axis() {
    let cam = Transform::look_at(
        Point3::new(0, 0, 0),
        Point3::new(-3, 0, 0),
        &Vector3::new(0, 0, 2),
    )
    .unwrap();
    // dir = -x, up = +z, right = up x dir = -y.
    assert_eq!(cam.mat().m, [0, 0, -1, 0, -1, 0, 0, 0, 0, 1, 0, 0, 0, 0, 0, 1]);
    assert_eq!(cam.apply_point(&Point3::new(0, 0, 1)), Point3::new(-1, 0, 0));
    assert_mutually_inverse(&cam);
}

#[test]
fn compose_keeps_the_inverse_pair() {
    let t = Transform::translate(&Vector3::new(1, 0, 0));
    let r = Transform::rotate_z(90).unwrap();
    // Rotate first, then translate.
    let c = t.compose(&r).unwrap();
    assert_mutually_inverse(&c);
    assert_eq!(c.apply_point(&Point3::new(1, 0, 0)), Point3::new(1, 1, 0));
    assert_eq!(c.inverse().apply_point(&Point3::new(1, 1, 0)), Point3::new(1, 0, 0));
    // The other order gives another transform.
    let d = r.compose(&t).unwrap();
    assert_eq!(d.apply_point(&Point3::new(1, 0, 0)), Point3::new(0, 2, 0));
    assert_eq!(c.mat().m, t.mat().mul(&r.mat()).m);
    assert_eq!(c.mat_inv().m, r.mat_inv().mul(&t.mat_inv()).m);
    let big = Transform::translate(&Vector3::new(i64::MAX, 0, 0));
    assert_eq!(big.compose(&big).unwrap_err(), DegenerateTransform::NotInverse);
}
