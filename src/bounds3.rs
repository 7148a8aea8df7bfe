//! Axis-aligned boxes in space.
use vstd::prelude::*;
use crate::scalar::{
    ceil_sqrt, div_trunc, div_trunc_i64, fits, lerp, lerp_int, max_i64, midpoint_i64, min_i64,
};
use crate::point::Point3;
use crate::vector::{dot3, fits3, max3, min3, sub3, Tuple3, Vector3};

verus! {

/// A box as its (min, max) corners.
pub type Box3 = (Tuple3, Tuple3);

pub open spec fn empty3(b: Box3) -> bool {
    b.1.0 < b.0.0 || b.1.1 < b.0.1 || b.1.2 < b.0.2
}

pub open spec fn inside3(b: Box3, p: Tuple3) -> bool {
    b.0.0 <= p.0 <= b.1.0 && b.0.1 <= p.1 <= b.1.1 && b.0.2 <= p.2 <= b.1.2
}

pub open spec fn inside_exclusive3(b: Box3, p: Tuple3) -> bool {
    b.0.0 <= p.0 < b.1.0 && b.0.1 <= p.1 < b.1.1 && b.0.2 <= p.2 < b.1.2
}

pub open spec fn union_point3(b: Box3, p: Tuple3) -> Box3 {
    (min3(b.0, p), max3(b.1, p))
}

pub open spec fn union_box3(b: Box3, c: Box3) -> Box3 {
    (min3(b.0, c.0), max3(b.1, c.1))
}

pub open spec fn intersection3(b: Box3, c: Box3) -> Box3 {
    (max3(b.0, c.0), min3(b.1, c.1))
}

pub open spec fn overlaps3(b: Box3, c: Box3) -> bool {
    b.1.0 >= c.0.0 && b.0.0 <= c.1.0 && b.1.1 >= c.0.1 && b.0.1 <= c.1.1 && b.1.2 >= c.0.2
        && b.0.2 <= c.1.2
}

pub open spec fn corner3(b: Box3, c: usize) -> Tuple3 {
    (
        if c & 1 != 0 {
            b.1.0
        } else {
            b.0.0
        },
        if c & 2 != 0 {
            b.1.1
        } else {
            b.0.1
        },
        if c & 4 != 0 {
            b.1.2
        } else {
            b.0.2
        },
    )
}

pub open spec fn diagonal3(b: Box3) -> Tuple3 {
    sub3(b.1, b.0)
}

/// The area of the six faces; zero for an empty box.
pub open spec fn surface_area3(b: Box3) -> int {
    let d = diagonal3(b);
    if empty3(b) {
        0
    } else {
        2 * (d.0 * d.1 + d.0 * d.2 + d.1 * d.2)
    }
}

pub open spec fn volume3(b: Box3) -> int {
    let d = diagonal3(b);
    if empty3(b) {
        0
    } else {
        d.0 * d.1 * d.2
    }
}

/// The index of the longest axis; on a tie the earlier axis wins.
pub open spec fn max_extent3(d: Tuple3) -> int {
    if d.0 >= d.1 && d.0 >= d.2 {
        0
    } else if d.1 >= d.2 {
        1
    } else {
        2
    }
}

pub open spec fn lerp3(b: Box3, t: Tuple3) -> Tuple3 {
    (lerp_int(t.0, b.0.0, b.1.0), lerp_int(t.1, b.0.1, b.1.1), lerp_int(t.2, b.0.2, b.1.2))
}

/// The offset along one axis: divided by the extent where the extent is
/// positive, the raw delta elsewhere.
pub open spec fn offset_axis(p: int, lo: int, hi: int) -> int {
    if hi > lo {
        div_trunc(p - lo, hi - lo)
    } else {
        p - lo
    }
}

pub open spec fn offset3(b: Box3, p: Tuple3) -> Tuple3 {
    (offset_axis(p.0, b.0.0, b.1.0), offset_axis(p.1, b.0.1, b.1.1), offset_axis(p.2, b.0.2, b.1.2))
}

pub open spec fn midpoint3(b: Box3) -> Tuple3 {
    ((b.0.0 + b.1.0) / 2, (b.0.1 + b.1.1) / 2, (b.0.2 + b.1.2) / 2)
}

/// What `lerp` computes on one axis fits a coordinate.
pub open spec fn lerp_fits(t: int, lo: int, hi: int) -> bool {
    fits(1 - t) && fits((1 - t) * lo) && fits(t * hi) && fits(lerp_int(t, lo, hi))
}

/// What `offset` computes on one axis fits a coordinate.
pub open spec fn offset_fits(p: int, lo: int, hi: int) -> bool {
    fits(p - lo) && (hi > lo ==> fits(hi - lo))
}

/// What `surface_area` computes fits a coordinate.
pub open spec fn area_fits3(b: Box3) -> bool {
    let d = diagonal3(b);
    !empty3(b) ==> (fits3(d) && fits(d.0 * d.1) && fits(d.0 * d.2) && fits(d.1 * d.2) && fits(
        d.0 * d.1 + d.0 * d.2,
    ) && fits(d.0 * d.1 + d.0 * d.2 + d.1 * d.2) && fits(surface_area3(b)))
}

/// What `volume` computes fits a coordinate.
pub open spec fn volume_fits3(b: Box3) -> bool {
    let d = diagonal3(b);
    !empty3(b) ==> (fits3(d) && fits(d.0 * d.1) && fits(volume3(b)))
}

/// An axis-aligned box in space, as its two extreme corners.
#[derive(Clone, Copy, Debug, PartialEq, Eq, Structural)]
pub struct Bound3 {
    pub p_min: Point3,
    pub p_max: Point3,
}

pub type Bound3i = Bound3;

impl View for Bound3 {
    type V = Box3;

    open spec fn view(&self) -> Box3 {
        (self.p_min@, self.p_max@)
    }
}

impl Bound3 {
    /// The empty box: the identity of `union`.
    pub fn new() -> (r: Self)
        ensures
            r@ == ((i64::MAX as int, i64::MAX as int, i64::MAX as int), (
                i64::MIN as int,
                i64::MIN as int,
                i64::MIN as int,
            )),
            empty3(r@),
    {
        Bound3 {
            p_min: Point3 { x: i64::MAX, y: i64::MAX, z: i64::MAX },
            p_max: Point3 { x: i64::MIN, y: i64::MIN, z: i64::MIN },
        }
    }

    pub fn from_point(p: &Point3) -> (r: Self)
        ensures
            r@ == (p@, p@),
    {
        Bound3 { p_min: *p, p_max: *p }
    }

    /// The box spanned by two corners, in either order.
    pub fn from_points(p1: &Point3, p2: &Point3) -> (r: Self)
        ensures
            r@ == (min3(p1@, p2@), max3(p1@, p2@)),
    {
        Bound3 {
            p_min: Point3 { x: min_i64(p1.x, p2.x), y: min_i64(p1.y, p2.y), z: min_i64(p1.z, p2.z) },
            p_max: Point3 { x: max_i64(p1.x, p2.x), y: max_i64(p1.y, p2.y), z: max_i64(p1.z, p2.z) },
        }
    }

    /// The corner `0` is `p_min`, `1` is `p_max`.
    pub fn index(&self, i: usize) -> (r: Point3)
        requires
            i < 2,
        ensures
            r == (if i == 0 {
                self.p_min
            } else {
                self.p_max
            }),
    {
        if i == 0 {
            self.p_min
        } else {
            self.p_max
        }
    }

    /// The corner picked by bits 0, 1 and 2 of `corner` for x, y and z.
    pub fn corner(&self, corner: usize) -> (r: Point3)
        ensures
            r@ == corner3(self@, corner),
    {
        Point3 {
            x: if corner & 1 != 0 {
                self.p_max.x
            } else {
                self.p_min.x
            },
            y: if corner & 2 != 0 {
                self.p_max.y
            } else {
                self.p_min.y
            },
            z: if corner & 4 != 0 {
                self.p_max.z
            } else {
                self.p_min.z
            },
        }
    }

    /// The least box holding this one and the point.
    pub fn union(&self, other: &Point3) -> (r: Self)
        ensures
            r@ == union_point3(self@, other@),
            inside3(r@, other@),
    {
        Bound3 {
            p_min: Point3 {
                x: min_i64(self.p_min.x, other.x),
                y: min_i64(self.p_min.y, other.y),
                z: min_i64(self.p_min.z, other.z),
            },
            p_max: Point3 {
                x: max_i64(self.p_max.x, other.x),
                y: max_i64(self.p_max.y, other.y),
                z: max_i64(self.p_max.z, other.z),
            },
        }
    }

    /// The least box holding both boxes.
    pub fn union_with_box(&self, other: Bound3) -> (r: Self)
        ensures
            r@ == union_box3(self@, other@),
    {
        Bound3 {
            p_min: Point3 {
                x: min_i64(self.p_min.x, other.p_min.x),
                y: min_i64(self.p_min.y, other.p_min.y),
                z: min_i64(self.p_min.z, other.p_min.z),
            },
            p_max: Point3 {
                x: max_i64(self.p_max.x, other.p_max.x),
                y: max_i64(self.p_max.y, other.p_max.y),
                z: max_i64(self.p_max.z, other.p_max.z),
            },
        }
    }

    /// The common part of two boxes; empty when they do not overlap.
    pub fn intersection(&self, other: Bound3) -> (r: Self)
        ensures
            r@ == intersection3(self@, other@),
            !empty3(self@) && !empty3(other@) ==> (empty3(r@) <==> !overlaps3(self@, other@)),
    {
        Bound3 {
            p_min: Point3 {
                x: max_i64(self.p_min.x, other.p_min.x),
                y: max_i64(self.p_min.y, other.p_min.y),
                z: max_i64(self.p_min.z, other.p_min.z),
            },
            p_max: Point3 {
                x: min_i64(self.p_max.x, other.p_max.x),
                y: min_i64(self.p_max.y, other.p_max.y),
                z: min_i64(self.p_max.z, other.p_max.z),
            },
        }
    }

    pub fn overlaps(&self, other: Bound3) -> (r: bool)
        ensures
            r == overlaps3(self@, other@),
    {
        let x = self.p_max.x >= other.p_min.x && self.p_min.x <= other.p_max.x;
        let y = self.p_max.y >= other.p_min.y && self.p_min.y <= other.p_max.y;
        let z = self.p_max.z >= other.p_min.z && self.p_min.z <= other.p_max.z;
        x && y && z
    }

    pub fn inside(&self, p: Point3) -> (r: bool)
        ensures
            r == inside3(self@, p@),
    {
        p.x >= self.p_min.x && p.x <= self.p_max.x && p.y >= self.p_min.y && p.y <= self.p_max.y
            && p.z >= self.p_min.z && p.z <= self.p_max.z
    }

    /// Like `inside`, but a point on an upper face is outside.
    pub fn inside_exclusive(&self, p: Point3) -> (r: bool)
        ensures
            r == inside_exclusive3(self@, p@),
    {
        p.x >= self.p_min.x && p.x < self.p_max.x && p.y >= self.p_min.y && p.y < self.p_max.y
            && p.z >= self.p_min.z && p.z < self.p_max.z
    }

    /// The box grown by `delta` on every side.
    pub fn expands(&self, delta: i64) -> (r: Self)
        requires
            fits3(sub3(self.p_min@, (delta as int, delta as int, delta as int))),
            fits(self.p_max.x + delta),
            fits(self.p_max.y + delta),
            fits(self.p_max.z + delta),
        ensures
            r@ == (sub3(self.p_min@, (delta as int, delta as int, delta as int)), (
                self.p_max.x + delta,
                self.p_max.y + delta,
                self.p_max.z + delta,
            )),
    {
        Bound3 {
            p_min: Point3 {
                x: self.p_min.x - delta,
                y: self.p_min.y - delta,
                z: self.p_min.z - delta,
            },
            p_max: Point3 {
                x: self.p_max.x + delta,
                y: self.p_max.y + delta,
                z: self.p_max.z + delta,
            },
        }
    }

    /// The vector from `p_min` to `p_max`.
    pub fn diagonal(&self) -> (r: Vector3)
        requires
            fits3(diagonal3(self@)),
        ensures
            r@ == diagonal3(self@),
    {
        self.p_max.sub_point(self.p_min)
    }

    pub fn surface_area(&self) -> (r: i64)
        requires
            area_fits3(self@),
        ensures
            r == surface_area3(self@),
    {
        if self.p_max.x < self.p_min.x || self.p_max.y < self.p_min.y
            || self.p_max.z < self.p_min.z {
            return 0;
        }
        let d = self.diagonal();
        2 * (d.x * d.y + d.x * d.z + d.y * d.z)
    }

    pub fn volume(&self) -> (r: i64)
        requires
            volume_fits3(self@),
        ensures
            r == volume3(self@),
    {
        if self.p_max.x < self.p_min.x || self.p_max.y < self.p_min.y
            || self.p_max.z < self.p_min.z {
            return 0;
        }
        let d = self.diagonal();
        d.x * d.y * d.z
    }

    /// The index of the longest axis, 0 for x, 1 for y, 2 for z.
    pub fn max_extent(&self) -> (r: i32)
        requires
            fits3(diagonal3(self@)),
        ensures
            r == max_extent3(diagonal3(self@)),
    {
        let d = self.diagonal();
        if d.x >= d.y && d.x >= d.z {
            0
        } else if d.y >= d.z {
            1
        } else {
            2
        }
    }

    /// The point at parameters `p` of the box, per axis `(1 - t) * min + t * max`.
    pub fn lerp(&self, p: &Point3) -> (r: Point3)
        requires
            lerp_fits(p.x as int, self.p_min.x as int, self.p_max.x as int),
            lerp_fits(p.y as int, self.p_min.y as int, self.p_max.y as int),
            lerp_fits(p.z as int, self.p_min.z as int, self.p_max.z as int),
        ensures
            r@ == lerp3(self@, p@),
    {
        Point3 {
            x: lerp(p.x, self.p_min.x, self.p_max.x),
            y: lerp(p.y, self.p_min.y, self.p_max.y),
            z: lerp(p.z, self.p_min.z, self.p_max.z),
        }
    }

    /// The position of `p` relative to the box, the inverse of `lerp`: per
    /// axis `(p - min) / (max - min)`, or the raw delta where the box is flat.
    pub fn offset(&self, p: Point3) -> (r: Vector3)
        requires
            offset_fits(p.x as int, self.p_min.x as int, self.p_max.x as int),
            offset_fits(p.y as int, self.p_min.y as int, self.p_max.y as int),
            offset_fits(p.z as int, self.p_min.z as int, self.p_max.z as int),
        ensures
            r@ == offset3(self@, p@),
    {
        let mut o = p.sub_point(self.p_min);
        if self.p_max.x > self.p_min.x {
            o.x = div_trunc_i64(o.x, self.p_max.x - self.p_min.x);
        }
        if self.p_max.y > self.p_min.y {
            o.y = div_trunc_i64(o.y, self.p_max.y - self.p_min.y);
        }
        if self.p_max.z > self.p_min.z {
            o.z = div_trunc_i64(o.z, self.p_max.z - self.p_min.z);
        }
        o
    }

    /// A sphere around the box: its center is the midpoint (rounded down);
    /// its radius the least whole number that reaches `p_max` from there, or
    /// zero where the center is not in the box.
    pub fn bounding_sphere(&self) -> (r: (Point3, u64))
        ensures
            r.0@ == midpoint3(self@),
            ({
                let d2 = dot3(sub3(self.p_max@, r.0@), sub3(self.p_max@, r.0@));
                inside3(self@, r.0@) ==> d2 <= r.1 * r.1 && (r.1 == 0 || (r.1 - 1) * (r.1
                    - 1) < d2)
            }),
            !inside3(self@, r.0@) ==> r.1 == 0,
    {
        let center = Point3 {
            x: midpoint_i64(self.p_min.x, self.p_max.x),
            y: midpoint_i64(self.p_min.y, self.p_max.y),
            z: midpoint_i64(self.p_min.z, self.p_max.z),
        };
        if !self.inside(center) {
            return (center, 0);
        }
        let dx = (self.p_max.x as i128 - center.x as i128) as u128;
        let dy = (self.p_max.y as i128 - center.y as i128) as u128;
        let dz = (self.p_max.z as i128 - center.z as i128) as u128;
        proof {
            assert(dx * dx <= 0x4000_0000_0000_0000_0000_0000_0000_0000) by (nonlinear_arith)
                requires
                    dx <= 0x8000_0000_0000_0000,
            ;
            assert(dy * dy <= 0x4000_0000_0000_0000_0000_0000_0000_0000) by (nonlinear_arith)
                requires
                    dy <= 0x8000_0000_0000_0000,
            ;
            assert(dz * dz <= 0x4000_0000_0000_0000_0000_0000_0000_0000) by (nonlinear_arith)
                requires
                    dz <= 0x8000_0000_0000_0000,
            ;
        }
        let d2 = dx * dx + dy * dy + dz * dz;
        let radius = ceil_sqrt(d2);
        proof {
            assert(radius < 0x1_0000_0000_0000_0000) by (nonlinear_arith)
                requires
                    radius == 0 || (radius - 1) * (radius - 1) < d2,
                    d2 <= 0xc000_0000_0000_0000_0000_0000_0000_0000,
            ;
        }
        (center, radius as u64)
    }
}

/// A box grown by a point holds that point.
pub proof fn lemma_union_inside3(b: Box3, p: Tuple3)
    ensures
        inside3(union_point3(b, p), p),
{
}

/// Interpolating at the offset of a point gives the point back, for every
/// point of a box whose coordinates each lie on one of the box's faces (the
/// integer offsets of other points round down).
pub proof fn lemma_lerp_offset3(b: Box3, p: Tuple3)
    requires
        inside3(b, p),
        p.0 == b.0.0 || p.0 == b.1.0,
        p.1 == b.0.1 || p.1 == b.1.1,
        p.2 == b.0.2 || p.2 == b.1.2,
    ensures
        lerp3(b, offset3(b, p)) == p,
{
    lemma_lerp_offset_axis(p.0, b.0.0, b.1.0);
    lemma_lerp_offset_axis(p.1, b.0.1, b.1.1);
    lemma_lerp_offset_axis(p.2, b.0.2, b.1.2);
}

pub proof fn lemma_lerp_offset_axis(p: int, lo: int, hi: int)
    requires
        lo <= p <= hi,
        p == lo || p == hi,
    ensures
        lerp_int(offset_axis(p, lo, hi), lo, hi) == p,
{
    let t = offset_axis(p, lo, hi);
    if hi > lo {
        if p == hi {
            vstd::arithmetic::div_mod::lemma_div_by_self(hi - lo);
            assert(t == 1);
        } else {
            assert(0int / (hi - lo) == 0);
            assert(t == 0);
        }
    } else {
        assert(t == 0);
    }
    assert(lerp_int(0, lo, hi) == lo);
    assert(lerp_int(1, lo, hi) == hi);
}

} // verus!
