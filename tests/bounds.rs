use raycore::{Bound2, Bound3, Point2, Point3, Vector2, Vector3};

#[test]
fn bound3_scenario_diagonal_area_extent() {
    let b = Bound3::from_points(&Point3::new(0, 0, 0), &Point3::new(2, 4, 6));
    assert_eq!(b.diagonal(), Vector3::new(2, 4, 6));
    assert_eq!(b.surface_area(), 2 * (2 * 4 + 2 * 6 + 4 * 6));
    assert_eq!(b.surface_area(), 88);
    assert_eq!(b.max_extent(), 2);
    assert_eq!(b.volume(), 48);
}

#[test]
fn from_points_is_order_independent() {
    let p1 = Point3::new(5, -1, 2);
    let p2 = Point3::new(-3, 4, 2);
    let a = Bound3::from_points(&p1, &p2);
    let b = Bound3::from_points(&p2, &p1);
    assert_eq!(a, b);
    assert_eq!(a.p_min, Point3::new(-3, -1, 2));
    assert_eq!(a.p_max, Point3::new(5, 4, 2));
}

#[test]
fn union_holds_the_point() {
    let b = Bound3::from_points(&Point3::new(0, 0, 0), &Point3::new(1, 1, 1));
    for p in [Point3::new(5, -3, 0), Point3::new(0, 0, 0), Point3::new(-9, 9, 9)] {
        let u = b.union(&p);
        assert!(u.inside(p));
        assert!(u.inside(b.p_min) && u.inside(b.p_max));
    }
    let empty = Bound3::new();
    let p = Point3::new(3, 4, 5);
    let u = empty.union(&p);
    assert_eq!(u, Bound3::from_point(&p));
    assert!(u.inside(p));
    let b2 = Bound2::new().union(&Point2::new(-1, 2));
    assert!(b2.inside(Point2::new(-1, 2)));
    assert_eq!(b2, Bound2::from_point(&Point2::new(-1, 2)));
}

#[test]
fn empty_bound_is_degenerate() {
    let e = Bound3::new();
    assert_eq!(e.p_min, Point3::new(i64::MAX, i64::MAX, i64::MAX));
    assert_eq!(e.p_max, Point3::new(i64::MIN, i64::MIN, i64::MIN));
    assert_eq!(e.surface_area(), 0);
    assert_eq!(e.volume(), 0);
    assert!(!e.inside(Point3::new(0, 0, 0)));
    let (_, radius) = e.bounding_sphere();
    assert_eq!(radius, 0);
    let e2 = Bound2::new();
    assert_eq!(e2.surface_area(), 0);
    assert_eq!(e2.volume(), 0);
}

#[test]
fn union_with_box_and_intersection() {
    let a = Bound3::from_points(&Point3::new(0, 0, 0), &Point3::new(4, 4, 4));
    let b = Bound3::from_points(&Point3::new(2, 3, -1), &Point3::new(6, 5, 1));
    assert!(a.overlaps(b));
    let i = a.intersection(b);
    assert_eq!(i, Bound3::from_points(&Point3::new(2, 3, 0), &Point3::new(4, 4, 1)));
    let u = a.union_with_box(b);
    assert_eq!(u, Bound3::from_points(&Point3::new(0, 0, -1), &Point3::new(6, 5, 4)));
    let far = Bound3::from_points(&Point3::new(10, 10, 10), &Point3::new(11, 11, 11));
    assert!(!a.overlaps(far));
    let none = a.intersection(far);
    assert!(none.p_min.x > none.p_max.x);
    assert_eq!(none.volume(), 0);
}

#[test]
fn bound2_union_intersection_overlap() {
    let a = Bound2::from_points(&Point2::new(0, 0), &Point2::new(4, 4));
    let b = Bound2::from_points(&Point2::new(4, 1), &Point2::new(6, 2));
    assert!(a.overlaps(b));
    assert_eq!(a.intersection(b), Bound2::from_points(&Point2::new(4, 1), &Point2::new(4, 2)));
    assert_eq!(a.union_with_box(b), Bound2::from_points(&Point2::new(0, 0), &Point2::new(6, 4)));
    let c = Bound2::from_points(&Point2::new(5, 5), &Point2::new(6, 6));
    assert!(!a.overlaps(c));
}

#[test]
fn inside_and_inside_exclusive() {
    let b = Bound2::from_points(&Point2::new(0, 0), &Point2::new(16, 16));
    assert!(b.inside(Point2::new(16, 16)));
    assert!(!b.inside_exclusive(Point2::new(16, 15)));
    assert!(!b.inside_exclusive(Point2::new(15, 16)));
    assert!(b.inside_exclusive(Point2::new(15, 15)));
    assert!(b.inside_exclusive(Point2::new(0, 0)));
    assert!(!b.inside(Point2::new(-1, 0)));
    let c = Bound3::from_points(&Point3::new(0, 0, 0), &Point3::new(2, 2, 2));
    assert!(c.inside(Point3::new(2, 2, 2)));
    assert!(!c.inside_exclusive(Point3::new(2, 1, 1)));
    assert!(c.inside_exclusive(Point3::new(1, 1, 1)));
}

#[test]
fn expands_diagonal_and_extent() {
    let b = Bound3::from_points(&Point3::new(0, 0, 0), &Point3::new(3, 1, 2));
    let e = b.expands(2);
    assert_eq!(e, Bound3::from_points(&Point3::new(-2, -2, -2), &Point3::new(5, 3, 4)));
    assert_eq!(b.max_extent(), 0);
    let tie = Bound3::from_points(&Point3::new(0, 0, 0), &Point3::new(2, 2, 2));
    assert_eq!(tie.max_extent(), 0);
    let yz = Bound3::from_points(&Point3::new(0, 0, 0), &Point3::new(1, 3, 3));
    assert_eq!(yz.max_extent(), 1);
    let r = Bound2::from_points(&Point2::new(0, 0), &Point2::new(2, 5));
    assert_eq!(r.diagonal(), Vector2::new(2, 5));
    assert_eq!(r.max_extent(), 1);
    assert_eq!(r.expands(1), Bound2::from_points(&Point2::new(-1, -1), &Point2::new(3, 6)));
    assert_eq!(r.volume(), 10);
    assert_eq!(r.surface_area(), 20);
}

#[test]
fn corners_and_index() {
    let b = Bound3::from_points(&Point3::new(0, 1, 2), &Point3::new(3, 4, 5));
    assert_eq!(b.corner(0), Point3::new(0, 1, 2));
    assert_eq!(b.corner(1), Point3::new(3, 1, 2));
    assert_eq!(b.corner(6), Point3::new(0, 4, 5));
    assert_eq!(b.corner(7), Point3::new(3, 4, 5));
    assert_eq!(b.index(0), b.p_min);
    assert_eq!(b.index(1), b.p_max);
    let r = Bound2::from_points(&Point2::new(0, 1), &Point2::new(3, 4));
    assert_eq!(r.corner(2), Point2::new(0, 4));
    assert_eq!(r.corner(3), Point2::new(3, 4));
    assert_eq!(r.index(1), Point2::new(3, 4));
}

#[test]
fn lerp_and_offset() {
    let b = Bound3::from_points(&Point3::new(10, 20, 30), &Point3::new(14, 28, 30));
    assert_eq!(b.lerp(&Point3::new(0, 1, 0)), Point3::new(10, 28, 30));
    assert_eq!(b.lerp(&Point3::new(2, -1, 1)), Point3::new(18, 12, 30));
    // Divided by the extent where it is positive; the raw delta on the flat z axis.
    assert_eq!(b.offset(Point3::new(12, 28, 33)), Vector3::new(0, 1, 3));
    assert_eq!(b.offset(Point3::new(18, 20, 30)), Vector3::new(2, 0, 0));
    let r = Bound2::from_points(&Point2::new(0, 0), &Point2::new(4, 4));
    assert_eq!(r.offset(Point2::new(4, 2)), Vector2::new(1, 0));
    assert_eq!(r.lerp(&Point2::new(1, 0)), Point2::new(4, 0));
}

#[test]
fn lerp_of_offset_round_trips_at_corners() {
    let b = Bound3::from_points(&Point3::new(-3, 2, 5), &Point3::new(7, 9, 5));
    for c in 0..8 {
        let p = b.corner(c);
        let o = b.offset(p);
        let t = Point3::new(o.x, o.y, o.z);
        assert_eq!(b.lerp(&t), p);
    }
    let r = Bound2::from_points(&Point2::new(1, 1), &Point2::new(3, 8));
    for c in 0..4 {
        let p = r.corner(c);
        let o = r.offset(p);
        assert_eq!(r.lerp(&Point2::new(o.x, o.y)), p);
    }
}

#[test]
fn bounding_sphere_reaches_the_corner() {
    let b = Bound3::from_points(&Point3::new(0, 0, 0), &Point3::new(2, 4, 4));
    let (center, radius) = b.bounding_sphere();
    assert_eq!(center, Point3::new(1, 2, 2));
    // The distance to (2, 4, 4) is 3.
    assert_eq!(radius, 3);
    let c = Bound3::from_points(&Point3::new(0, 0, 0), &Point3::new(2, 2, 2));
    let (center, radius) = c.bounding_sphere();
    assert_eq!(center, Point3::new(1, 1, 1));
    // sqrt(3) rounded up.
    assert_eq!(radius, 2);
    let r = Bound2::from_points(&Point2::new(-4, -3), &Point2::new(4, 3));
    let (center, radius) = r.bounding_sphere();
    assert_eq!(center, Point2::new(0, 0));
    assert_eq!(radius, 5);
}
