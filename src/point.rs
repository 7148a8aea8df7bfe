//! Affine positions in two and three dimensions.
use vstd::prelude::*;
use crate::scalar::{abs_i64, div_trunc, div_trunc_i64, max_i64, max_int, min_i64, min_int};
use crate::vector::{
    lemma_unit_along3, unit_along2, unit_along3, unit_along3_exec,
    abs2, abs3, add2, add3, dot2, dot2_fits, dot3, dot3_exec, dot3_fits, fits2, fits3, max2, max3,
    max_component3, min2, min3, min_component3, negatable2, negatable3, neg2, neg3, scale2,
    scale3, sub2, sub3, Tuple2, Tuple3, Vector2, Vector3,
};

verus! {

/// A position in the plane.
#[derive(Clone, Copy, Debug, Default, PartialEq, Eq, Structural)]
pub struct Point2 {
    pub x: i64,
    pub y: i64,
}

pub type Point2i = Point2;

impl View for Point2 {
    type V = Tuple2;

    open spec fn view(&self) -> Tuple2 {
        (self.x as int, self.y as int)
    }
}

impl Point2 {
    pub fn new(x: i64, y: i64) -> (r: Self)
        ensures
            r@ == (x as int, y as int),
    {
        Point2 { x, y }
    }

    /// Drops the `z` coordinate.
    pub fn from_point3(p: Point3) -> (r: Self)
        ensures
            r@ == (p@.0, p@.1),
    {
        Point2 { x: p.x, y: p.y }
    }

    pub fn neg(&self) -> (r: Self)
        requires
            negatable2(self@),
        ensures
            r@ == neg2(self@),
    {
        Point2 { x: -self.x, y: -self.y }
    }

    pub fn abs(&self) -> (r: Self)
        requires
            negatable2(self@),
        ensures
            r@ == abs2(self@),
    {
        Point2 { x: abs_i64(self.x), y: abs_i64(self.y) }
    }

    /// The squared distance between two points.
    pub fn distance_squared(&self, p2: Point2) -> (r: i64)
        requires
            fits2(sub2(self@, p2@)),
            dot2_fits(sub2(self@, p2@), sub2(self@, p2@)),
        ensures
            r == dot2(sub2(self@, p2@), sub2(self@, p2@)),
    {
        let d = self.sub_point(p2);
        d.dot(d)
    }

    /// The point divided by its length, where that has whole coordinates
    /// (it lies on an axis); `None` elsewhere. It must not be the origin.
    pub fn normalize(&self) -> (r: Option<Point2>)
        requires
            self@ != (0int, 0int),
        ensures
            r.is_some() == unit_along2(self@).is_some(),
            r.is_some() ==> r.unwrap()@ == unit_along2(self@).unwrap(),
            r.is_some() ==> dot2(r.unwrap()@, r.unwrap()@) == 1,
    {
        match Vector2::new(self.x, self.y).normalize() {
            Some(v) => Some(Point2 { x: v.x, y: v.y }),
            None => None,
        }
    }

    pub fn min_component(&self) -> (r: i64)
        ensures
            r == min_int(self.x as int, self.y as int),
    {
        min_i64(self.x, self.y)
    }

    pub fn max_component(&self) -> (r: i64)
        ensures
            r == max_int(self.x as int, self.y as int),
    {
        max_i64(self.x, self.y)
    }

    pub fn max(&self, rhs: Point2) -> (r: Point2)
        ensures
            r@ == max2(self@, rhs@),
    {
        Point2 { x: max_i64(self.x, rhs.x), y: max_i64(self.y, rhs.y) }
    }

    pub fn min(&self, rhs: Point2) -> (r: Point2)
        ensures
            r@ == min2(self@, rhs@),
    {
        Point2 { x: min_i64(self.x, rhs.x), y: min_i64(self.y, rhs.y) }
    }

    /// Integer coordinates are already whole: the point itself.
    pub fn floor(&self) -> (r: Self)
        ensures
            r == *self,
    {
        *self
    }

    /// Integer coordinates are already whole: the point itself.
    pub fn ceil(&self) -> (r: Self)
        ensures
            r == *self,
    {
        *self
    }

    /// A point moved by a vector.
    pub fn add_vector(&self, v: Vector2) -> (r: Point2)
        requires
            fits2(add2(self@, v@)),
        ensures
            r@ == add2(self@, v@),
    {
        Point2 { x: self.x + v.x, y: self.y + v.y }
    }

    /// The coordinate sum of two points, as used for weighted means.
    pub fn add_point(&self, p: Point2) -> (r: Point2)
        requires
            fits2(add2(self@, p@)),
        ensures
            r@ == add2(self@, p@),
    {
        Point2 { x: self.x + p.x, y: self.y + p.y }
    }

    /// The vector from `p` to this point.
    pub fn sub_point(&self, p: Point2) -> (r: Vector2)
        requires
            fits2(sub2(self@, p@)),
        ensures
            r@ == sub2(self@, p@),
    {
        Vector2 { x: self.x - p.x, y: self.y - p.y }
    }

    /// A point moved back by a vector.
    pub fn sub_vector(&self, v: Vector2) -> (r: Point2)
        requires
            fits2(sub2(self@, v@)),
        ensures
            r@ == sub2(self@, v@),
    {
        Point2 { x: self.x - v.x, y: self.y - v.y }
    }

    pub fn mul(&self, s: i64) -> (r: Point2)
        requires
            fits2(scale2(self@, s as int)),
        ensures
            r@ == scale2(self@, s as int),
    {
        Point2 { x: self.x * s, y: self.y * s }
    }

    /// Divides each coordinate by `s`, rounding toward zero; `s` must not be zero.
    pub fn div(&self, s: i64) -> (r: Point2)
        requires
            s != 0,
            s == -1 ==> negatable2(self@),
        ensures
            r@ == (div_trunc(self.x as int, s as int), div_trunc(self.y as int, s as int)),
    {
        Point2 { x: div_trunc_i64(self.x, s), y: div_trunc_i64(self.y, s) }
    }
}

/// A position in space.
#[derive(Clone, Copy, Debug, Default, PartialEq, Eq, Structural)]
pub struct Point3 {
    pub x: i64,
    pub y: i64,
    pub z: i64,
}

pub type Point3i = Point3;

impl View for Point3 {
    type V = Tuple3;

    open spec fn view(&self) -> Tuple3 {
        (self.x as int, self.y as int, self.z as int)
    }
}

impl Point3 {
    pub fn new(x: i64, y: i64, z: i64) -> (r: Self)
        ensures
            r@ == (x as int, y as int, z as int),
    {
        Point3 { x, y, z }
    }

    pub fn neg(&self) -> (r: Self)
        requires
            negatable3(self@),
        ensures
            r@ == neg3(self@),
    {
        Point3 { x: -self.x, y: -self.y, z: -self.z }
    }

    pub fn abs(&self) -> (r: Self)
        requires
            negatable3(self@),
        ensures
            r@ == abs3(self@),
    {
        Point3 { x: abs_i64(self.x), y: abs_i64(self.y), z: abs_i64(self.z) }
    }

    /// The squared distance between two points.
    pub fn distance_squared(&self, p2: Point3) -> (r: i64)
        requires
            fits3(sub3(self@, p2@)),
            dot3_fits(sub3(self@, p2@), sub3(self@, p2@)),
        ensures
            r == dot3(sub3(self@, p2@), sub3(self@, p2@)),
    {
        let d = self.sub_point(p2);
        dot3_exec(d.x, d.y, d.z, d.x, d.y, d.z)
    }

    /// The point divided by its length, where that has whole coordinates
    /// (it lies on an axis); `None` elsewhere. It must not be the origin.
    pub fn normalize(&self) -> (r: Option<Point3>)
        requires
            self@ != (0int, 0int, 0int),
        ensures
            r.is_some() == unit_along3(self@).is_some(),
            r.is_some() ==> r.unwrap()@ == unit_along3(self@).unwrap(),
            r.is_some() ==> dot3(r.unwrap()@, r.unwrap()@) == 1,
    {
        proof {
            if unit_along3(self@).is_some() {
                lemma_unit_along3(self@);
            }
        }
        match unit_along3_exec(self.x, self.y, self.z) {
            Some((x, y, z)) => Some(Point3 { x, y, z }),
            None => None,
        }
    }

    pub fn min_component(&self) -> (r: i64)
        ensures
            r == min_component3(self@),
    {
        min_i64(self.x, min_i64(self.y, self.z))
    }

    pub fn max_component(&self) -> (r: i64)
        ensures
            r == max_component3(self@),
    {
        max_i64(self.x, max_i64(self.y, self.z))
    }

    pub fn max(&self, rhs: &Point3) -> (r: Point3)
        ensures
            r@ == max3(self@, rhs@),
    {
        Point3 { x: max_i64(self.x, rhs.x), y: max_i64(self.y, rhs.y), z: max_i64(self.z, rhs.z) }
    }

    pub fn min(&self, rhs: &Point3) -> (r: Point3)
        ensures
            r@ == min3(self@, rhs@),
    {
        Point3 { x: min_i64(self.x, rhs.x), y: min_i64(self.y, rhs.y), z: min_i64(self.z, rhs.z) }
    }

    /// Integer coordinates are already whole: the point itself.
    pub fn floor(&self) -> (r: Self)
        ensures
            r == *self,
    {
        *self
    }

    /// Integer coordinates are already whole: the point itself.
    pub fn ceil(&self) -> (r: Self)
        ensures
            r == *self,
    {
        *self
    }

    /// A point moved by a vector.
    pub fn add_vector(&self, v: Vector3) -> (r: Point3)
        requires
            fits3(add3(self@, v@)),
        ensures
            r@ == add3(self@, v@),
    {
        Point3 { x: self.x + v.x, y: self.y + v.y, z: self.z + v.z }
    }

    /// The coordinate sum of two points, as used for weighted means.
    pub fn add_point(&self, p: Point3) -> (r: Point3)
        requires
            fits3(add3(self@, p@)),
        ensures
            r@ == add3(self@, p@),
    {
        Point3 { x: self.x + p.x, y: self.y + p.y, z: self.z + p.z }
    }

    /// The vector from `p` to this point.
    pub fn sub_point(&self, p: Point3) -> (r: Vector3)
        requires
            fits3(sub3(self@, p@)),
        ensures
            r@ == sub3(self@, p@),
    {
        Vector3 { x: self.x - p.x, y: self.y - p.y, z: self.z - p.z }
    }

    /// A point moved back by a vector.
    pub fn sub_vector(&self, v: Vector3) -> (r: Point3)
        requires
            fits3(sub3(self@, v@)),
        ensures
            r@ == sub3(self@, v@),
    {
        Point3 { x: self.x - v.x, y: self.y - v.y, z: self.z - v.z }
    }

    pub fn mul(&self, s: i64) -> (r: Point3)
        requires
            fits3(scale3(self@, s as int)),
        ensures
            r@ == scale3(self@, s as int),
    {
        Point3 { x: self.x * s, y: self.y * s, z: self.z * s }
    }

    /// Divides each coordinate by `s`, rounding toward zero; `s` must not be zero.
    pub fn div(&self, s: i64) -> (r: Point3)
        requires
            s != 0,
            s == -1 ==> negatable3(self@),
        ensures
            r@ == (
                div_trunc(self.x as int, s as int),
                div_trunc(self.y as int, s as int),
                div_trunc(self.z as int, s as int),
            ),
    {
        Point3 {
            x: div_trunc_i64(self.x, s),
            y: div_trunc_i64(self.y, s),
            z: div_trunc_i64(self.z, s),
        }
    }
}

} // verus!
