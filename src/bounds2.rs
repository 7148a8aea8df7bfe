//! Axis-aligned rectangles in the plane.
use vstd::prelude::*;
use crate::scalar::{
    ceil_sqrt, div_trunc_i64, fits, lerp, lerp_int, max_i64, min_i64, midpoint_i64,
};
use crate::bounds3::{lerp_fits, offset_axis, offset_fits};
use crate::point::Point2;
use crate::vector::{dot2, fits2, max2, min2, sub2, Tuple2, Vector2};

verus! {

/// A rectangle as its (min, max) corners.
pub type Box2 = (Tuple2, Tuple2);

pub open spec fn empty2(b: Box2) -> bool {
    b.1.0 < b.0.0 || b.1.1 < b.0.1
}

pub open spec fn inside2(b: Box2, p: Tuple2) -> bool {
    b.0.0 <= p.0 <= b.1.0 && b.0.1 <= p.1 <= b.1.1
}

pub open spec fn inside_exclusive2(b: Box2, p: Tuple2) -> bool {
    b.0.0 <= p.0 < b.1.0 && b.0.1 <= p.1 < b.1.1
}

pub open spec fn union_point2(b: Box2, p: Tuple2) -> Box2 {
    (min2(b.0, p), max2(b.1, p))
}

pub open spec fn union_box2(b: Box2, c: Box2) -> Box2 {
    (min2(b.0, c.0), max2(b.1, c.1))
}

pub open spec fn intersection2(b: Box2, c: Box2) -> Box2 {
    (max2(b.0, c.0), min2(b.1, c.1))
}

pub open spec fn overlaps2(b: Box2, c: Box2) -> bool {
    b.1.0 >= c.0.0 && b.0.0 <= c.1.0 && b.1.1 >= c.0.1 && b.0.1 <= c.1.1
}

pub open spec fn corner2(b: Box2, c: usize) -> Tuple2 {
    (
        if c & 1 != 0 {
            b.1.0
        } else {
            b.0.0
        },
        if c & 2 != 0 {
            b.1.1
        } else {
            b.0.1
        },
    )
}

pub open spec fn diagonal2(b: Box2) -> Tuple2 {
    sub2(b.1, b.0)
}

/// The area of both faces of the flat box; zero for an empty rectangle.
pub open spec fn surface_area2(b: Box2) -> int {
    let d = diagonal2(b);
    if empty2(b) {
        0
    } else {
        2 * (d.0 * d.1)
    }
}

/// The area; zero for an empty rectangle.
pub open spec fn volume2(b: Box2) -> int {
    let d = diagonal2(b);
    if empty2(b) {
        0
    } else {
        d.0 * d.1
    }
}

/// The index of the longer axis; on a tie, x.
pub open spec fn max_extent2(d: Tuple2) -> int {
    if d.0 >= d.1 {
        0
    } else {
        1
    }
}

pub open spec fn lerp2(b: Box2, t: Tuple2) -> Tuple2 {
    (lerp_int(t.0, b.0.0, b.1.0), lerp_int(t.1, b.0.1, b.1.1))
}

pub open spec fn offset2(b: Box2, p: Tuple2) -> Tuple2 {
    (offset_axis(p.0, b.0.0, b.1.0), offset_axis(p.1, b.0.1, b.1.1))
}

pub open spec fn midpoint2(b: Box2) -> Tuple2 {
    ((b.0.0 + b.1.0) / 2, (b.0.1 + b.1.1) / 2)
}

/// What `surface_area` and `volume` compute fits a coordinate.
pub open spec fn area_fits2(b: Box2) -> bool {
    let d = diagonal2(b);
    !empty2(b) ==> (fits2(d) && fits(d.0 * d.1) && fits(2 * (d.0 * d.1)))
}

/// An axis-aligned rectangle, as its two extreme corners.
#[derive(Clone, Copy, Debug, PartialEq, Eq, Structural)]
pub struct Bound2 {
    pub p_min: Point2,
    pub p_max: Point2,
}

pub type Bound2i = Bound2;

impl View for Bound2 {
    type V = Box2;

    open spec fn view(&self) -> Box2 {
        (self.p_min@, self.p_max@)
    }
}

impl Bound2 {
    /// The empty rectangle: the identity of `union`.
    pub fn new() -> (r: Self)
        ensures
            r@ == ((i64::MAX as int, i64::MAX as int), (i64::MIN as int, i64::MIN as int)),
            empty2(r@),
    {
        Bound2 {
            p_min: Point2 { x: i64::MAX, y: i64::MAX },
            p_max: Point2 { x: i64::MIN, y: i64::MIN },
        }
    }

    pub fn from_point(p: &Point2) -> (r: Self)
        ensures
            r@ == (p@, p@),
    {
        Bound2 { p_min: *p, p_max: *p }
    }

    /// The rectangle spanned by two corners, in either order.
    pub fn from_points(p1: &Point2, p2: &Point2) -> (r: Self)
        ensures
            r@ == (min2(p1@, p2@), max2(p1@, p2@)),
    {
        Bound2 {
            p_min: Point2 { x: min_i64(p1.x, p2.x), y: min_i64(p1.y, p2.y) },
            p_max: Point2 { x: max_i64(p1.x, p2.x), y: max_i64(p1.y, p2.y) },
        }
    }

    /// The corner `0` is `p_min`, `1` is `p_max`.
    pub fn index(&self, i: usize) -> (r: Point2)
        requires
            i < 2,
        ensures
            r == (if i == 0 {
                self.p_min
            } else {
                self.p_max
            }),
    {
        if i == 0 {
            self.p_min
        } else {
            self.p_max
        }
    }

    /// The corner picked by bits 0 and 1 of `corner` for x and y.
    pub fn corner(&self, corner: usize) -> (r: Point2)
        ensures
            r@ == corner2(self@, corner),
    {
        Point2 {
            x: if corner & 1 != 0 {
                self.p_max.x
            } else {
                self.p_min.x
            },
            y: if corner & 2 != 0 {
                self.p_max.y
            } else {
                self.p_min.y
            },
        }
    }

    /// The least rectangle holding this one and the point.
    pub fn union(&self, other: &Point2) -> (r: Self)
        ensures
            r@ == union_point2(self@, other@),
            inside2(r@, other@),
    {
        Bound2 {
            p_min: Point2 { x: min_i64(self.p_min.x, other.x), y: min_i64(self.p_min.y, other.y) },
            p_max: Point2 { x: max_i64(self.p_max.x, other.x), y: max_i64(self.p_max.y, other.y) },
        }
    }

    /// The least rectangle holding both rectangles.
    pub fn union_with_box(&self, other: Bound2) -> (r: Self)
        ensures
            r@ == union_box2(self@, other@),
    {
        Bound2 {
            p_min: Point2 {
                x: min_i64(self.p_min.x, other.p_min.x),
                y: min_i64(self.p_min.y, other.p_min.y),
            },
            p_max: Point2 {
                x: max_i64(self.p_max.x, other.p_max.x),
                y: max_i64(self.p_max.y, other.p_max.y),
            },
        }
    }

    /// The common part of two rectangles; empty when they do not overlap.
    pub fn intersection(&self, other: Bound2) -> (r: Self)
        ensures
            r@ == intersection2(self@, other@),
            !empty2(self@) && !empty2(other@) ==> (empty2(r@) <==> !overlaps2(self@, other@)),
    {
        Bound2 {
            p_min: Point2 {
                x: max_i64(self.p_min.x, other.p_min.x),
                y: max_i64(self.p_min.y, other.p_min.y),
            },
            p_max: Point2 {
                x: min_i64(self.p_max.x, other.p_max.x),
                y: min_i64(self.p_max.y, other.p_max.y),
            },
        }
    }

    pub fn overlaps(&self, other: Bound2) -> (r: bool)
        ensures
            r == overlaps2(self@, other@),
    {
        let x = self.p_max.x >= other.p_min.x && self.p_min.x <= other.p_max.x;
        let y = self.p_max.y >= other.p_min.y && self.p_min.y <= other.p_max.y;
        x && y
    }

    pub fn inside(&self, p: Point2) -> (r: bool)
        ensures
            r == inside2(self@, p@),
    {
        p.x >= self.p_min.x && p.x <= self.p_max.x && p.y >= self.p_min.y && p.y <= self.p_max.y
    }

    /// Like `inside`, but a point on an upper edge is outside; adjacent
    /// rectangles so never share a point.
    pub fn inside_exclusive(&self, p: Point2) -> (r: bool)
        ensures
            r == inside_exclusive2(self@, p@),
    {
        p.x >= self.p_min.x && p.x < self.p_max.x && p.y >= self.p_min.y && p.y < self.p_max.y
    }

    /// The rectangle grown by `delta` on every side.
    pub fn expands(&self, delta: i64) -> (r: Self)
        requires
            fits2(sub2(self.p_min@, (delta as int, delta as int))),
            fits(self.p_max.x + delta),
            fits(self.p_max.y + delta),
        ensures
            r@ == (sub2(self.p_min@, (delta as int, delta as int)), (
                self.p_max.x + delta,
                self.p_max.y + delta,
            )),
    {
        Bound2 {
            p_min: Point2 { x: self.p_min.x - delta, y: self.p_min.y - delta },
            p_max: Point2 { x: self.p_max.x + delta, y: self.p_max.y + delta },
        }
    }

    /// The vector from `p_min` to `p_max`.
    pub fn diagonal(&self) -> (r: Vector2)
        requires
            fits2(diagonal2(self@)),
        ensures
            r@ == diagonal2(self@),
    {
        self.p_max.sub_point(self.p_min)
    }

    pub fn surface_area(&self) -> (r: i64)
        requires
            area_fits2(self@),
        ensures
            r == surface_area2(self@),
    {
        if self.p_max.x < self.p_min.x || self.p_max.y < self.p_min.y {
            return 0;
        }
        let d = self.diagonal();
        2 * (d.x * d.y)
    }

    pub fn volume(&self) -> (r: i64)
        requires
            area_fits2(self@),
        ensures
            r == volume2(self@),
    {
        if self.p_max.x < self.p_min.x || self.p_max.y < self.p_min.y {
            return 0;
        }
        let d = self.diagonal();
        d.x * d.y
    }

    /// The index of the longer axis, 0 for x, 1 for y.
    pub fn max_extent(&self) -> (r: i32)
        requires
            fits2(diagonal2(self@)),
        ensures
            r == max_extent2(diagonal2(self@)),
    {
        let d = self.diagonal();
        if d.x >= d.y {
            0
        } else {
            1
        }
    }

    /// The point at parameters `p` of the rectangle, per axis
    /// `(1 - t) * min + t * max`.
    pub fn lerp(&self, p: &Point2) -> (r: Point2)
        requires
            lerp_fits(p.x as int, self.p_min.x as int, self.p_max.x as int),
            lerp_fits(p.y as int, self.p_min.y as int, self.p_max.y as int),
        ensures
            r@ == lerp2(self@, p@),
    {
        Point2 { x: lerp(p.x, self.p_min.x, self.p_max.x), y: lerp(p.y, self.p_min.y, self.p_max.y) }
    }

    /// The position of `p` relative to the rectangle, the inverse of `lerp`:
    /// per axis `(p - min) / (max - min)`, or the raw delta where it is flat.
    pub fn offset(&self, p: Point2) -> (r: Vector2)
        requires
            offset_fits(p.x as int, self.p_min.x as int, self.p_max.x as int),
            offset_fits(p.y as int, self.p_min.y as int, self.p_max.y as int),
        ensures
            r@ == offset2(self@, p@),
    {
        let mut o = p.sub_point(self.p_min);
        if self.p_max.x > self.p_min.x {
            o.x = div_trunc_i64(o.x, self.p_max.x - self.p_min.x);
        }
        if self.p_max.y > self.p_min.y {
            o.y = div_trunc_i64(o.y, self.p_max.y - self.p_min.y);
        }
        o
    }

    /// A circle around the rectangle: its center is the midpoint (rounded
    /// down); its radius the least whole number that reaches `p_max` from
    /// there, or zero where the center is not in the rectangle.
    pub fn bounding_sphere(&self) -> (r: (Point2, u64))
        ensures
            r.0@ == midpoint2(self@),
            ({
                let d2 = dot2(sub2(self.p_max@, r.0@), sub2(self.p_max@, r.0@));
                inside2(self@, r.0@) ==> d2 <= r.1 * r.1 && (r.1 == 0 || (r.1 - 1) * (r.1
                    - 1) < d2)
            }),
            !inside2(self@, r.0@) ==> r.1 == 0,
    {
        let center = Point2 {
            x: midpoint_i64(self.p_min.x, self.p_max.x),
            y: midpoint_i64(self.p_min.y, self.p_max.y),
        };
        if !self.inside(center) {
            return (center, 0);
        }
        let dx = (self.p_max.x as i128 - center.x as i128) as u128;
        let dy = (self.p_max.y as i128 - center.y as i128) as u128;
        proof {
            assert(dx * dx <= 0x4000_0000_0000_0000_0000_0000_0000_0000) by (nonlinear_arith)
                requires
                    dx <= 0x8000_0000_0000_0000,
            ;
            assert(dy * dy <= 0x4000_0000_0000_0000_0000_0000_0000_0000) by (nonlinear_arith)
                requires
                    dy <= 0x8000_0000_0000_0000,
            ;
        }
        let d2 = dx * dx + dy * dy;
        let radius = ceil_sqrt(d2);
        proof {
            assert(radius < 0x1_0000_0000_0000_0000) by (nonlinear_arith)
                requires
                    radius == 0 || (radius - 1) * (radius - 1) < d2,
                    d2 <= 0x8000_0000_0000_0000_0000_0000_0000_0000,
            ;
        }
        (center, radius as u64)
    }
}

/// A rectangle grown by a point holds that point.
pub proof fn lemma_union_inside2(b: Box2, p: Tuple2)
    ensures
        inside2(union_point2(b, p), p),
{
}

/// Interpolating at the offset of a point gives the point back, for every
/// point of a rectangle whose coordinates each lie on one of its edges (the
/// integer offsets of other points round down).
pub proof fn lemma_lerp_offset2(b: Box2, p: Tuple2)
    requires
        inside2(b, p),
        p.0 == b.0.0 || p.0 == b.1.0,
        p.1 == b.0.1 || p.1 == b.1.1,
    ensures
        lerp2(b, offset2(b, p)) == p,
{
    crate::bounds3::lemma_lerp_offset_axis(p.0, b.0.0, b.1.0);
    crate::bounds3::lemma_lerp_offset_axis(p.1, b.0.1, b.1.1);
}

} // verus!
