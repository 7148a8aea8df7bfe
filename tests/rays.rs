use raycore::{Point3, Ray, RayDifferential, Vector3};

fn differential(aux_x: Point3, aux_y: Point3) -> RayDifferential {
    let ray = Ray::unbounded(Point3::new(0, 0, 0), Vector3::new(0, 0, 1));
    RayDifferential::with_differentials(
        ray,
        aux_x,
        Vector3::new(0, 0, 1),
        aux_y,
        Vector3::new(0, 0, 1),
    )
}

#[test]
fn scale_differential_moves_halfway() {
    let mut rd = differential(Point3::new(2, 0, 0), Point3::new(0, 2, 0));
    rd.scale_differential(1, 2);
    assert_eq!(rd.rx_origin, Some(Point3::new(1, 0, 0)));
    assert_eq!(rd.ry_origin, Some(Point3::new(0, 1, 0)));
    assert_eq!(rd.rx_direction, Some(Vector3::new(0, 0, 1)));
    assert_eq!(rd.ry_direction, Some(Vector3::new(0, 0, 1)));
    assert_eq!(rd.origin, Point3::new(0, 0, 0));
    assert!(rd.is_differential);
}

#[test]
fn scale_differential_unit_offsets_round_toward_the_primary() {
    // Offsets of one move half a unit, which rounds toward the primary origin.
    let mut rd = differential(Point3::new(1, 0, 0), Point3::new(0, 1, 0));
    rd.scale_differential(1, 2);
    assert_eq!(rd.rx_origin, Some(Point3::new(0, 0, 0)));
    assert_eq!(rd.ry_origin, Some(Point3::new(0, 0, 0)));
}

#[test]
fn scale_differential_directions() {
    let ray = Ray::new(Point3::new(1, 1, 1), Vector3::new(0, 0, 4), 100, 3, None);
    let mut rd = RayDifferential::with_differentials(
        ray,
        Point3::new(5, 1, 1),
        Vector3::new(8, 0, 4),
        Point3::new(1, -3, 1),
        Vector3::new(0, -8, 4),
    );
    rd.scale_differential(3, 4);
    assert_eq!(rd.rx_origin, Some(Point3::new(4, 1, 1)));
    assert_eq!(rd.ry_origin, Some(Point3::new(1, -2, 1)));
    assert_eq!(rd.rx_direction, Some(Vector3::new(6, 0, 4)));
    assert_eq!(rd.ry_direction, Some(Vector3::new(0, -6, 4)));
    assert_eq!(rd.to_ray(), ray);
}

#[test]
fn try_scale_needs_differentials() {
    let mut plain = RayDifferential::new(Point3::new(0, 0, 0), Vector3::new(1, 0, 0), 10, 0, None);
    let before = plain;
    assert!(!plain.try_scale_differential(1, 2));
    assert_eq!(plain, before);
    let mut rd = differential(Point3::new(4, 0, 0), Point3::new(0, 4, 0));
    assert!(rd.try_scale_differential(1, 4));
    assert_eq!(rd.rx_origin, Some(Point3::new(1, 0, 0)));
    let mut far = differential(Point3::new(i64::MAX, 0, 0), Point3::new(0, 1, 0));
    let before = far;
    assert!(!far.try_scale_differential(3, 1));
    assert_eq!(far, before);
}

#[test]
fn point_at_follows_the_direction() {
    let r = Ray::new(Point3::new(1, 2, 3), Vector3::new(0, -1, 2), 50, 0, None);
    assert_eq!(r.point_at(0), Point3::new(1, 2, 3));
    assert_eq!(r.point_at(3), Point3::new(1, -1, 9));
    assert_eq!(r.get_origin(), Point3::new(1, 2, 3));
    assert_eq!(r.get_direction(), Vector3::new(0, -1, 2));
    let rd = RayDifferential::new(Point3::new(0, 0, 0), Vector3::new(1, 1, 1), 5, 0, None);
    assert!(!rd.is_differential);
    assert_eq!(rd.rx_origin, None);
    assert_eq!(rd.point_at(2), Point3::new(2, 2, 2));
    assert_eq!(rd.get_origin(), Point3::new(0, 0, 0));
    assert_eq!(rd.get_direction(), Vector3::new(1, 1, 1));
    assert_eq!(Ray::unbounded(Point3::new(0, 0, 0), Vector3::new(1, 0, 0)).t_max, i64::MAX);
}
