//! Free displacements in two and three dimensions.
use vstd::prelude::*;
use crate::scalar::{abs_i64, abs_int, div_trunc, div_trunc_i64, fits, max_i64, max_int, min_i64, min_int};

verus! {

pub type Tuple2 = (int, int);

pub type Tuple3 = (int, int, int);

pub open spec fn fits2(a: Tuple2) -> bool {
    fits(a.0) && fits(a.1)
}

pub open spec fn fits3(a: Tuple3) -> bool {
    fits(a.0) && fits(a.1) && fits(a.2)
}

pub open spec fn add2(a: Tuple2, b: Tuple2) -> Tuple2 {
    (a.0 + b.0, a.1 + b.1)
}

pub open spec fn sub2(a: Tuple2, b: Tuple2) -> Tuple2 {
    (a.0 - b.0, a.1 - b.1)
}

pub open spec fn neg2(a: Tuple2) -> Tuple2 {
    (-a.0, -a.1)
}

pub open spec fn scale2(a: Tuple2, s: int) -> Tuple2 {
    (a.0 * s, a.1 * s)
}

pub open spec fn abs2(a: Tuple2) -> Tuple2 {
    (abs_int(a.0), abs_int(a.1))
}

pub open spec fn min2(a: Tuple2, b: Tuple2) -> Tuple2 {
    (min_int(a.0, b.0), min_int(a.1, b.1))
}

pub open spec fn max2(a: Tuple2, b: Tuple2) -> Tuple2 {
    (max_int(a.0, b.0), max_int(a.1, b.1))
}

pub open spec fn dot2(a: Tuple2, b: Tuple2) -> int {
    a.0 * b.0 + a.1 * b.1
}

pub open spec fn add3(a: Tuple3, b: Tuple3) -> Tuple3 {
    (a.0 + b.0, a.1 + b.1, a.2 + b.2)
}

pub open spec fn sub3(a: Tuple3, b: Tuple3) -> Tuple3 {
    (a.0 - b.0, a.1 - b.1, a.2 - b.2)
}

pub open spec fn neg3(a: Tuple3) -> Tuple3 {
    (-a.0, -a.1, -a.2)
}

pub open spec fn scale3(a: Tuple3, s: int) -> Tuple3 {
    (a.0 * s, a.1 * s, a.2 * s)
}

pub open spec fn abs3(a: Tuple3) -> Tuple3 {
    (abs_int(a.0), abs_int(a.1), abs_int(a.2))
}

pub open spec fn min3(a: Tuple3, b: Tuple3) -> Tuple3 {
    (min_int(a.0, b.0), min_int(a.1, b.1), min_int(a.2, b.2))
}

pub open spec fn max3(a: Tuple3, b: Tuple3) -> Tuple3 {
    (max_int(a.0, b.0), max_int(a.1, b.1), max_int(a.2, b.2))
}

pub open spec fn min_component3(a: Tuple3) -> int {
    min_int(a.0, min_int(a.1, a.2))
}

pub open spec fn max_component3(a: Tuple3) -> int {
    max_int(a.0, max_int(a.1, a.2))
}

pub open spec fn dot3(a: Tuple3, b: Tuple3) -> int {
    a.0 * b.0 + a.1 * b.1 + a.2 * b.2
}

/// The right-handed cross product.
pub open spec fn cross3(a: Tuple3, b: Tuple3) -> Tuple3 {
    (a.1 * b.2 - a.2 * b.1, a.2 * b.0 - a.0 * b.2, a.0 * b.1 - a.1 * b.0)
}

/// Each product and partial sum of `dot2(a, b)` fits a coordinate.
pub open spec fn dot2_fits(a: Tuple2, b: Tuple2) -> bool {
    fits(a.0 * b.0) && fits(a.1 * b.1) && fits(dot2(a, b))
}

/// Each product and partial sum of `dot3(a, b)` fits a coordinate.
pub open spec fn dot3_fits(a: Tuple3, b: Tuple3) -> bool {
    fits(a.0 * b.0) && fits(a.1 * b.1) && fits(a.2 * b.2) && fits(a.0 * b.0 + a.1 * b.1)
        && fits(dot3(a, b))
}

/// Each product and difference of `cross3(a, b)` fits a coordinate.
pub open spec fn cross3_fits(a: Tuple3, b: Tuple3) -> bool {
    fits(a.1 * b.2) && fits(a.2 * b.1) && fits(a.2 * b.0) && fits(a.0 * b.2) && fits(a.0 * b.1)
        && fits(a.1 * b.0) && fits3(cross3(a, b))
}

/// No coordinate is `i64::MIN`, so each can be negated.
pub open spec fn negatable3(a: Tuple3) -> bool {
    a.0 != i64::MIN && a.1 != i64::MIN && a.2 != i64::MIN
}

pub open spec fn negatable2(a: Tuple2) -> bool {
    a.0 != i64::MIN && a.1 != i64::MIN
}

pub fn dot3_exec(ax: i64, ay: i64, az: i64, bx: i64, by: i64, bz: i64) -> (r: i64)
    requires
        dot3_fits((ax as int, ay as int, az as int), (bx as int, by as int, bz as int)),
    ensures
        r == dot3((ax as int, ay as int, az as int), (bx as int, by as int, bz as int)),
{
    ax * bx + ay * by + az * bz
}

pub open spec fn sign_int(a: int) -> int {
    if a > 0 {
        1
    } else if a < 0 {
        -1
    } else {
        0
    }
}

/// The unit vector along `a`, where it has whole coordinates: when `a` lies
/// along a coordinate axis. Other directions have no whole unit vector.
pub open spec fn unit_along3(a: Tuple3) -> Option<Tuple3> {
    if a.1 == 0 && a.2 == 0 && a.0 != 0 {
        Some((sign_int(a.0), 0, 0))
    } else if a.0 == 0 && a.2 == 0 && a.1 != 0 {
        Some((0, sign_int(a.1), 0))
    } else if a.0 == 0 && a.1 == 0 && a.2 != 0 {
        Some((0, 0, sign_int(a.2)))
    } else {
        None
    }
}

pub open spec fn unit_along2(a: Tuple2) -> Option<Tuple2> {
    if a.1 == 0 && a.0 != 0 {
        Some((sign_int(a.0), 0))
    } else if a.0 == 0 && a.1 != 0 {
        Some((0, sign_int(a.1)))
    } else {
        None
    }
}

fn sign_i64(a: i64) -> (r: i64)
    ensures
        r == sign_int(a as int),
{
    if a > 0 {
        1
    } else if a < 0 {
        -1
    } else {
        0
    }
}

/// The whole unit vector along `(x, y, z)`, if there is one.
pub fn unit_along3_exec(x: i64, y: i64, z: i64) -> (r: Option<(i64, i64, i64)>)
    ensures
        r.is_some() == unit_along3((x as int, y as int, z as int)).is_some(),
        r.is_some() ==> unit_along3((x as int, y as int, z as int)).unwrap() == (
            r.unwrap().0 as int,
            r.unwrap().1 as int,
            r.unwrap().2 as int,
        ),
{
    if y == 0 && z == 0 && x != 0 {
        Some((sign_i64(x), 0, 0))
    } else if x == 0 && z == 0 && y != 0 {
        Some((0, sign_i64(y), 0))
    } else if x == 0 && y == 0 && z != 0 {
        Some((0, 0, sign_i64(z)))
    } else {
        None
    }
}

/// A whole unit vector has length one and points the way of the vector it
/// was taken from: the vector is a positive multiple of it.
pub proof fn lemma_unit_along3(a: Tuple3)
    requires
        unit_along3(a).is_some(),
    ensures
        dot3(unit_along3(a).unwrap(), unit_along3(a).unwrap()) == 1,
        a == scale3(unit_along3(a).unwrap(), max_component3(abs3(a))),
        max_component3(abs3(a)) > 0,
{
    if a.1 == 0 && a.2 == 0 {
        if a.0 > 0 {
            let u = unit_along3(a).unwrap();
            let m = max_component3(abs3(a));
            assert(u == (1int, 0int, 0int));
            assert(m == a.0);
            assert(dot3(u, u) == dot3((1int, 0int, 0int), (1int, 0int, 0int)));
            assert(dot3((1int, 0int, 0int), (1int, 0int, 0int)) == 1) by (nonlinear_arith);
            assert(scale3(u, m) == scale3((1int, 0int, 0int), m));
            assert(scale3((1int, 0int, 0int), m) == a) by (nonlinear_arith)
                requires
                    m == a.0,
                    a.1 == 0 && a.2 == 0,
            ;
        } else {
            let u = unit_along3(a).unwrap();
            let m = max_component3(abs3(a));
            assert(u == (-1int, 0int, 0int));
            assert(m == -a.0);
            assert(dot3(u, u) == dot3((-1int, 0int, 0int), (-1int, 0int, 0int)));
            assert(dot3((-1int, 0int, 0int), (-1int, 0int, 0int)) == 1) by (nonlinear_arith);
            assert(scale3(u, m) == scale3((-1int, 0int, 0int), m));
            assert(scale3((-1int, 0int, 0int), m) == a) by (nonlinear_arith)
                requires
                    m == -a.0,
                    a.1 == 0 && a.2 == 0,
            ;
        }
    } else if a.0 == 0 && a.2 == 0 {
        if a.1 > 0 {
            let u = unit_along3(a).unwrap();
            let m = max_component3(abs3(a));
            assert(u == (0int, 1int, 0int));
            assert(m == a.1);
            assert(dot3(u, u) == dot3((0int, 1int, 0int), (0int, 1int, 0int)));
            assert(dot3((0int, 1int, 0int), (0int, 1int, 0int)) == 1) by (nonlinear_arith);
            assert(scale3(u, m) == scale3((0int, 1int, 0int), m));
            assert(scale3((0int, 1int, 0int), m) == a) by (nonlinear_arith)
                requires
                    m == a.1,
                    a.0 == 0 && a.2 == 0,
            ;
        } else {
            let u = unit_along3(a).unwrap();
            let m = max_component3(abs3(a));
            assert(u == (0int, -1int, 0int));
            assert(m == -a.1);
            assert(dot3(u, u) == dot3((0int, -1int, 0int), (0int, -1int, 0int)));
            assert(dot3((0int, -1int, 0int), (0int, -1int, 0int)) == 1) by (nonlinear_arith);
            assert(scale3(u, m) == scale3((0int, -1int, 0int), m));
            assert(scale3((0int, -1int, 0int), m) == a) by (nonlinear_arith)
                requires
                    m == -a.1,
                    a.0 == 0 && a.2 == 0,
            ;
        }
    } else {
        if a.2 > 0 {
            let u = unit_along3(a).unwrap();
            let m = max_component3(abs3(a));
            assert(u == (0int, 0int, 1int));
            assert(m == a.2);
            assert(dot3(u, u) == dot3((0int, 0int, 1int), (0int, 0int, 1int)));
            assert(dot3((0int, 0int, 1int), (0int, 0int, 1int)) == 1) by (nonlinear_arith);
            assert(scale3(u, m) == scale3((0int, 0int, 1int), m));
            assert(scale3((0int, 0int, 1int), m) == a) by (nonlinear_arith)
                requires
                    m == a.2,
                    a.0 == 0 && a.1 == 0,
            ;
        } else {
            let u = unit_along3(a).unwrap();
            let m = max_component3(abs3(a));
            assert(u == (0int, 0int, -1int));
            assert(m == -a.2);
            assert(dot3(u, u) == dot3((0int, 0int, -1int), (0int, 0int, -1int)));
            assert(dot3((0int, 0int, -1int), (0int, 0int, -1int)) == 1) by (nonlinear_arith);
            assert(scale3(u, m) == scale3((0int, 0int, -1int), m));
            assert(scale3((0int, 0int, -1int), m) == a) by (nonlinear_arith)
                requires
                    m == -a.2,
                    a.0 == 0 && a.1 == 0,
            ;
        }
    }
}

/// A whole unit vector has length one and points the way of the vector it
/// was taken from.
pub proof fn lemma_unit_along2(a: Tuple2)
    requires
        unit_along2(a).is_some(),
    ensures
        dot2(unit_along2(a).unwrap(), unit_along2(a).unwrap()) == 1,
        a == scale2(unit_along2(a).unwrap(), max_int(abs_int(a.0), abs_int(a.1))),
        max_int(abs_int(a.0), abs_int(a.1)) > 0,
{
}

/// A displacement in the plane.
#[derive(Clone, Copy, Debug, Default, PartialEq, Eq, Structural)]
pub struct Vector2 {
    pub x: i64,
    pub y: i64,
}

pub type Vector2i = Vector2;

impl View for Vector2 {
    type V = Tuple2;

    open spec fn view(&self) -> Tuple2 {
        (self.x as int, self.y as int)
    }
}

impl Vector2 {
    pub fn new(x: i64, y: i64) -> (r: Self)
        ensures
            r@ == (x as int, y as int),
    {
        Vector2 { x, y }
    }

    pub fn neg(&self) -> (r: Self)
        requires
            negatable2(self@),
        ensures
            r@ == neg2(self@),
    {
        Vector2 { x: -self.x, y: -self.y }
    }

    pub fn abs(&self) -> (r: Self)
        requires
            negatable2(self@),
        ensures
            r@ == abs2(self@),
    {
        Vector2 { x: abs_i64(self.x), y: abs_i64(self.y) }
    }

    pub fn dot(&self, rhs: Vector2) -> (r: i64)
        requires
            dot2_fits(self@, rhs@),
        ensures
            r == dot2(self@, rhs@),
    {
        self.x * rhs.x + self.y * rhs.y
    }

    pub fn abs_dot(&self, rhs: Vector2) -> (r: i64)
        requires
            dot2_fits(self@, rhs@),
            dot2(self@, rhs@) != i64::MIN,
        ensures
            r == abs_int(dot2(self@, rhs@)),
    {
        abs_i64(self.dot(rhs))
    }

    /// The squared length.
    pub fn length_squared(&self) -> (r: i64)
        requires
            dot2_fits(self@, self@),
        ensures
            r == dot2(self@, self@),
    {
        self.dot(*self)
    }

    /// The vector divided by its length, where that has whole coordinates
    /// (the vector lies along an axis); `None` elsewhere. The vector must
    /// not be zero.
    pub fn normalize(&self) -> (r: Option<Vector2>)
        requires
            self@ != (0int, 0int),
        ensures
            r.is_some() == unit_along2(self@).is_some(),
            r.is_some() ==> r.unwrap()@ == unit_along2(self@).unwrap(),
            r.is_some() ==> dot2(r.unwrap()@, r.unwrap()@) == 1,
    {
        proof {
            if unit_along2(self@).is_some() {
                lemma_unit_along2(self@);
            }
        }
        if self.y == 0 && self.x != 0 {
            Some(Vector2 { x: sign_i64(self.x), y: 0 })
        } else if self.x == 0 && self.y != 0 {
            Some(Vector2 { x: 0, y: sign_i64(self.y) })
        } else {
            None
        }
    }

    pub fn min_component(&self) -> (r: i64)
        ensures
            r == min_int(self.x as int, self.y as int),
    {
        min_i64(self.x, self.y)
    }

    pub fn max_component(&self) -> (r: i64)
        ensures
            r == max_int(self.x as int, self.y as int),
    {
        max_i64(self.x, self.y)
    }

    pub fn max(&self, rhs: Vector2) -> (r: Vector2)
        ensures
            r@ == max2(self@, rhs@),
    {
        Vector2 { x: max_i64(self.x, rhs.x), y: max_i64(self.y, rhs.y) }
    }

    pub fn min(&self, rhs: Vector2) -> (r: Vector2)
        ensures
            r@ == min2(self@, rhs@),
    {
        Vector2 { x: min_i64(self.x, rhs.x), y: min_i64(self.y, rhs.y) }
    }

    pub fn add(&self, rhs: Vector2) -> (r: Vector2)
        requires
            fits2(add2(self@, rhs@)),
        ensures
            r@ == add2(self@, rhs@),
    {
        Vector2 { x: self.x + rhs.x, y: self.y + rhs.y }
    }

    pub fn sub(&self, rhs: Vector2) -> (r: Vector2)
        requires
            fits2(sub2(self@, rhs@)),
        ensures
            r@ == sub2(self@, rhs@),
    {
        Vector2 { x: self.x - rhs.x, y: self.y - rhs.y }
    }

    pub fn mul(&self, s: i64) -> (r: Vector2)
        requires
            fits2(scale2(self@, s as int)),
        ensures
            r@ == scale2(self@, s as int),
    {
        Vector2 { x: self.x * s, y: self.y * s }
    }

    /// Divides each coordinate by `s`, rounding toward zero; `s` must not be zero.
    pub fn div(&self, s: i64) -> (r: Vector2)
        requires
            s != 0,
            s == -1 ==> negatable2(self@),
        ensures
            r@ == (div_trunc(self.x as int, s as int), div_trunc(self.y as int, s as int)),
    {
        Vector2 { x: div_trunc_i64(self.x, s), y: div_trunc_i64(self.y, s) }
    }
}

/// A whole vector of unit length lies along an axis: its coordinates are
/// `-1`, `0` or `1`, exactly one of them not zero.
pub proof fn lemma_unit_length_axis(a: Tuple3)
    requires
        dot3(a, a) == 1,
    ensures
        -1 <= a.0 <= 1 && -1 <= a.1 <= 1 && -1 <= a.2 <= 1,
        (a.0 != 0 && a.1 == 0 && a.2 == 0) || (a.0 == 0 && a.1 != 0 && a.2 == 0) || (a.0 == 0
            && a.1 == 0 && a.2 != 0),
{
    assert(-1 <= a.0 <= 1 && -1 <= a.1 <= 1 && -1 <= a.2 <= 1) by (nonlinear_arith)
        requires
            a.0 * a.0 + a.1 * a.1 + a.2 * a.2 == 1,
    ;
    assert(a.0 * a.0 == abs_int(a.0)) by (nonlinear_arith)
        requires
            -1 <= a.0 <= 1,
    ;
    assert(a.1 * a.1 == abs_int(a.1)) by (nonlinear_arith)
        requires
            -1 <= a.1 <= 1,
    ;
    assert(a.2 * a.2 == abs_int(a.2)) by (nonlinear_arith)
        requires
            -1 <= a.2 <= 1,
    ;
}

/// The cross product of a vector with entries in `[-1, 1]` and one with
/// entries in `[-bound, bound]` fits, with entries in `[-2 bound, 2 bound]`.
pub proof fn lemma_small_cross(a: Tuple3, b: Tuple3, bound: int)
    requires
        -1 <= a.0 <= 1 && -1 <= a.1 <= 1 && -1 <= a.2 <= 1,
        -bound <= b.0 <= bound && -bound <= b.1 <= bound && -bound <= b.2 <= bound,
        0 <= bound <= 2,
    ensures
        cross3_fits(a, b),
        -2 * bound <= cross3(a, b).0 <= 2 * bound,
        -2 * bound <= cross3(a, b).1 <= 2 * bound,
        -2 * bound <= cross3(a, b).2 <= 2 * bound,
{
    assert(-bound <= a.1 * b.2 <= bound) by (nonlinear_arith)
        requires
            -1 <= a.1 <= 1,
            -bound <= b.2 <= bound,
    ;
    assert(-bound <= a.2 * b.1 <= bound) by (nonlinear_arith)
        requires
            -1 <= a.2 <= 1,
            -bound <= b.1 <= bound,
    ;
    assert(-bound <= a.2 * b.0 <= bound) by (nonlinear_arith)
        requires
            -1 <= a.2 <= 1,
            -bound <= b.0 <= bound,
    ;
    assert(-bound <= a.0 * b.2 <= bound) by (nonlinear_arith)
        requires
            -1 <= a.0 <= 1,
            -bound <= b.2 <= bound,
    ;
    assert(-bound <= a.0 * b.1 <= bound) by (nonlinear_arith)
        requires
            -1 <= a.0 <= 1,
            -bound <= b.1 <= bound,
    ;
    assert(-bound <= a.1 * b.0 <= bound) by (nonlinear_arith)
        requires
            -1 <= a.1 <= 1,
            -bound <= b.0 <= bound,
    ;
}

/// The second vector of the frame that `co_ordinate_system` builds around
/// `v`: chosen by whichever of `|x|`, `|y|` is larger.
pub open spec fn frame_second(v: Tuple3) -> Tuple3 {
    if abs_int(v.0) > abs_int(v.1) {
        (-v.2, 0, v.0)
    } else {
        (0, v.2, -v.1)
    }
}

/// The frame built around a unit vector is orthonormal: its three vectors
/// have unit length and are pairwise orthogonal.
pub proof fn lemma_frame_orthonormal(v: Tuple3)
    requires
        dot3(v, v) == 1,
    ensures
        dot3(frame_second(v), frame_second(v)) == 1,
        dot3(cross3(v, frame_second(v)), cross3(v, frame_second(v))) == 1,
        dot3(v, frame_second(v)) == 0,
        dot3(v, cross3(v, frame_second(v))) == 0,
        dot3(frame_second(v), cross3(v, frame_second(v))) == 0,
{
    lemma_unit_length_axis(v);
    let w = frame_second(v);
    let c = cross3(v, w);
    assert(dot3(w, w) == 1 && dot3(c, c) == 1 && dot3(v, w) == 0 && dot3(v, c) == 0 && dot3(
        w,
        c,
    ) == 0) by (nonlinear_arith)
        requires
            -1 <= v.0 <= 1 && -1 <= v.1 <= 1 && -1 <= v.2 <= 1,
            (v.0 != 0 && v.1 == 0 && v.2 == 0) || (v.0 == 0 && v.1 != 0 && v.2 == 0) || (v.0 == 0
                && v.1 == 0 && v.2 != 0),
            w == frame_second(v),
            c == cross3(v, w),
    ;
}

/// A displacement in space.
#[derive(Clone, Copy, Debug, Default, PartialEq, Eq, Structural)]
pub struct Vector3 {
    pub x: i64,
    pub y: i64,
    pub z: i64,
}

pub type Vector3i = Vector3;

impl View for Vector3 {
    type V = Tuple3;

    open spec fn view(&self) -> Tuple3 {
        (self.x as int, self.y as int, self.z as int)
    }
}

impl Vector3 {
    pub fn new(x: i64, y: i64, z: i64) -> (r: Self)
        ensures
            r@ == (x as int, y as int, z as int),
    {
        Vector3 { x, y, z }
    }

    pub fn neg(&self) -> (r: Self)
        requires
            negatable3(self@),
        ensures
            r@ == neg3(self@),
    {
        Vector3 { x: -self.x, y: -self.y, z: -self.z }
    }

    pub fn abs(&self) -> (r: Self)
        requires
            negatable3(self@),
        ensures
            r@ == abs3(self@),
    {
        Vector3 { x: abs_i64(self.x), y: abs_i64(self.y), z: abs_i64(self.z) }
    }

    pub fn dot(&self, rhs: &Vector3) -> (r: i64)
        requires
            dot3_fits(self@, rhs@),
        ensures
            r == dot3(self@, rhs@),
    {
        dot3_exec(self.x, self.y, self.z, rhs.x, rhs.y, rhs.z)
    }

    pub fn abs_dot(&self, rhs: &Vector3) -> (r: i64)
        requires
            dot3_fits(self@, rhs@),
            dot3(self@, rhs@) != i64::MIN,
        ensures
            r == abs_int(dot3(self@, rhs@)),
    {
        abs_i64(self.dot(rhs))
    }

    /// The right-handed cross product; not commutative.
    pub fn cross(&self, rhs: &Vector3) -> (r: Vector3)
        requires
            cross3_fits(self@, rhs@),
        ensures
            r@ == cross3(self@, rhs@),
    {
        Vector3 {
            x: self.y * rhs.z - self.z * rhs.y,
            y: self.z * rhs.x - self.x * rhs.z,
            z: self.x * rhs.y - self.y * rhs.x,
        }
    }

    /// Two more vectors that complete the unit vector `self` to a
    /// right-handed orthonormal frame. The second is built from whichever of
    /// `|x|`, `|y|` is larger, which keeps its denominator away from zero;
    /// the third is `self x second`.
    pub fn co_ordinate_system(&self) -> (r: (Vector3, Vector3))
        requires
            dot3(self@, self@) == 1,
        ensures
            r.0@ == frame_second(self@),
            r.1@ == cross3(self@, frame_second(self@)),
            dot3(r.0@, r.0@) == 1,
            dot3(r.1@, r.1@) == 1,
            dot3(self@, r.0@) == 0,
            dot3(self@, r.1@) == 0,
            dot3(r.0@, r.1@) == 0,
    {
        proof {
            lemma_unit_length_axis(self@);
            lemma_frame_orthonormal(self@);
            lemma_small_cross(self@, frame_second(self@), 1);
        }
        // The denominators below, sqrt(x^2 + z^2) and sqrt(y^2 + z^2), are one
        // for a whole unit vector on the branch taken.
        let v2 = if abs_i64(self.x) > abs_i64(self.y) {
            Vector3 { x: -self.z, y: 0, z: self.x }
        } else {
            Vector3 { x: 0, y: self.z, z: -self.y }
        };
        let v3 = self.cross(&v2);
        (v2, v3)
    }

    /// The squared length.
    pub fn length_squared(&self) -> (r: i64)
        requires
            dot3_fits(self@, self@),
        ensures
            r == dot3(self@, self@),
    {
        self.dot(self)
    }

    /// The vector divided by its length, where that has whole coordinates
    /// (the vector lies along an axis); `None` elsewhere. The vector must
    /// not be zero.
    pub fn normalize(&self) -> (r: Option<Vector3>)
        requires
            self@ != (0int, 0int, 0int),
        ensures
            r.is_some() == unit_along3(self@).is_some(),
            r.is_some() ==> r.unwrap()@ == unit_along3(self@).unwrap(),
            r.is_some() ==> dot3(r.unwrap()@, r.unwrap()@) == 1,
    {
        proof {
            if unit_along3(self@).is_some() {
                lemma_unit_along3(self@);
            }
        }
        match unit_along3_exec(self.x, self.y, self.z) {
            Some((x, y, z)) => Some(Vector3 { x, y, z }),
            None => None,
        }
    }

    pub fn min_component(&self) -> (r: i64)
        ensures
            r == min_component3(self@),
    {
        min_i64(self.x, min_i64(self.y, self.z))
    }

    pub fn max_component(&self) -> (r: i64)
        ensures
            r == max_component3(self@),
    {
        max_i64(self.x, max_i64(self.y, self.z))
    }

    pub fn max(&self, rhs: Vector3) -> (r: Vector3)
        ensures
            r@ == max3(self@, rhs@),
    {
        Vector3 { x: max_i64(self.x, rhs.x), y: max_i64(self.y, rhs.y), z: max_i64(self.z, rhs.z) }
    }

    pub fn min(&self, rhs: Vector3) -> (r: Vector3)
        ensures
            r@ == min3(self@, rhs@),
    {
        Vector3 { x: min_i64(self.x, rhs.x), y: min_i64(self.y, rhs.y), z: min_i64(self.z, rhs.z) }
    }

    pub fn add(&self, rhs: Vector3) -> (r: Vector3)
        requires
            fits3(add3(self@, rhs@)),
        ensures
            r@ == add3(self@, rhs@),
    {
        Vector3 { x: self.x + rhs.x, y: self.y + rhs.y, z: self.z + rhs.z }
    }

    pub fn sub(&self, rhs: Vector3) -> (r: Vector3)
        requires
            fits3(sub3(self@, rhs@)),
        ensures
            r@ == sub3(self@, rhs@),
    {
        Vector3 { x: self.x - rhs.x, y: self.y - rhs.y, z: self.z - rhs.z }
    }

    pub fn mul(&self, s: i64) -> (r: Vector3)
        requires
            fits3(scale3(self@, s as int)),
        ensures
            r@ == scale3(self@, s as int),
    {
        Vector3 { x: self.x * s, y: self.y * s, z: self.z * s }
    }

    /// Divides each coordinate by `s`, rounding toward zero; `s` must not be zero.
    pub fn div(&self, s: i64) -> (r: Vector3)
        requires
            s != 0,
            s == -1 ==> negatable3(self@),
        ensures
            r@ == (
                div_trunc(self.x as int, s as int),
                div_trunc(self.y as int, s as int),
                div_trunc(self.z as int, s as int),
            ),
    {
        Vector3 {
            x: div_trunc_i64(self.x, s),
            y: div_trunc_i64(self.y, s),
            z: div_trunc_i64(self.z, s),
        }
    }
}

/// The cross product is anti-commutative: `cross(v, w) == -cross(w, v)`.
pub proof fn lemma_cross_anti_commutative(v: Tuple3, w: Tuple3)
    ensures
        cross3(v, w) == neg3(cross3(w, v)),
{
    assert(v.1 * w.2 == w.2 * v.1) by (nonlinear_arith);
    assert(v.2 * w.1 == w.1 * v.2) by (nonlinear_arith);
    assert(v.2 * w.0 == w.0 * v.2) by (nonlinear_arith);
    assert(v.0 * w.2 == w.2 * v.0) by (nonlinear_arith);
    assert(v.0 * w.1 == w.1 * v.0) by (nonlinear_arith);
    assert(v.1 * w.0 == w.0 * v.1) by (nonlinear_arith);
}

} // verus!
