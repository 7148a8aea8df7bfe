use raycore::{tile_bounds, tile_count, tile_pixels, tile_seed, tiles, Bound2, Point2, TILE_SIZE};

#[test]
fn thirty_two_square_gives_four_seeded_tiles() {
    let b = Bound2::from_points(&Point2::new(0, 0), &Point2::new(32, 32));
    assert_eq!(tile_count(&b, 16), Point2::new(2, 2));
    let ts = tiles(&b, 16);
    assert_eq!(ts.len(), 4);
    let expected = [(0, 0), (1, 0), (0, 1), (1, 1)];
    for (i, t) in ts.iter().enumerate() {
        assert_eq!((t.index.x, t.index.y), expected[i]);
        assert_eq!(t.seed, t.index.y * 2 + t.index.x);
        assert_eq!(t.seed, i as i64);
    }
    assert_eq!(ts[3].bound, Bound2::from_points(&Point2::new(16, 16), &Point2::new(32, 32)));
}

fn count_covering(ts: &[raycore::Tile], p: Point2) -> usize {
    ts.iter().filter(|t| t.bound.inside_exclusive(p)).count()
}

fn check_partition(b: Bound2, size: i64) {
    let ts = tiles(&b, size);
    for y in b.p_min.y - 2..b.p_max.y + 2 {
        for x in b.p_min.x - 2..b.p_max.x + 2 {
            let p = Point2::new(x, y);
            let expected = if b.inside_exclusive(p) { 1 } else { 0 };
            assert_eq!(count_covering(&ts, p), expected, "pixel {:?}", p);
        }
    }
    let pixels: usize = ts.iter().map(|t| tile_pixels(&t.bound).len()).sum();
    let area = ((b.p_max.x - b.p_min.x) * (b.p_max.y - b.p_min.y)) as usize;
    assert_eq!(pixels, area);
}

#[test]
fn tiles_cover_each_pixel_once_divisible() {
    check_partition(Bound2::from_points(&Point2::new(0, 0), &Point2::new(32, 48)), 16);
}

#[test]
fn tiles_cover_each_pixel_once_not_divisible() {
    check_partition(Bound2::from_points(&Point2::new(-5, 3), &Point2::new(28, 20)), 16);
    check_partition(Bound2::from_points(&Point2::new(0, 0), &Point2::new(7, 5)), 3);
}

#[test]
fn tiles_of_a_flat_bound() {
    let b = Bound2::from_points(&Point2::new(0, 0), &Point2::new(0, 10));
    assert_eq!(tile_count(&b, 16), Point2::new(0, 1));
    assert_eq!(tiles(&b, 16).len(), 0);
}

#[test]
fn edge_tiles_are_clipped() {
    let b = Bound2::from_points(&Point2::new(0, 0), &Point2::new(20, 17));
    assert_eq!(tile_count(&b, TILE_SIZE), Point2::new(2, 2));
    let t = tile_bounds(&b, Point2::new(1, 1), TILE_SIZE);
    assert_eq!(t, Bound2::from_points(&Point2::new(16, 16), &Point2::new(20, 17)));
    assert_eq!(tile_seed(Point2::new(1, 1), Point2::new(2, 2)), 3);
    assert_eq!(tile_seed(Point2::new(3, 2), Point2::new(5, 4)), 13);
}

#[test]
fn tile_pixels_in_raster_order() {
    let b = Bound2::from_points(&Point2::new(10, 20), &Point2::new(13, 22));
    let ps = tile_pixels(&b);
    let expected: Vec<Point2> = vec![
        Point2::new(10, 20),
        Point2::new(11, 20),
        Point2::new(12, 20),
        Point2::new(10, 21),
        Point2::new(11, 21),
        Point2::new(12, 21),
    ];
    assert_eq!(ps, expected);
}

#[test]
fn tile_pixels_of_an_empty_or_wide_box() {
    let flat = Bound2::from_points(&Point2::new(3, 3), &Point2::new(3, 9));
    assert!(tile_pixels(&flat).is_empty());
    let wide = Bound2::from_points(&Point2::new(0, 0), &Point2::new(40, 2));
    let ps = tile_pixels(&wide);
    assert_eq!(ps.len(), 80);
    assert_eq!(ps[41], Point2::new(1, 1));
}
