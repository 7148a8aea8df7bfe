//! Surface normals: kept apart from vectors, as they transform differently.
use vstd::prelude::*;
use crate::scalar::{abs_i64, abs_int, div_trunc, div_trunc_i64, max_i64, min_i64};
use crate::vector::{
    lemma_unit_along3, unit_along3, unit_along3_exec,
    add3, dot3, dot3_exec, dot3_fits, fits3, max_component3, min_component3, negatable3, neg3,
    scale3, sub3, Tuple3, Vector3,
};

verus! {

/// A direction perpendicular to a surface.
#[derive(Clone, Copy, Debug, Default, PartialEq, Eq, Structural)]
pub struct Normal3 {
    pub x: i64,
    pub y: i64,
    pub z: i64,
}

impl View for Normal3 {
    type V = Tuple3;

    open spec fn view(&self) -> Tuple3 {
        (self.x as int, self.y as int, self.z as int)
    }
}

/// `n` negated when it points away from `v`, else `n`.
pub open spec fn face_forward3(n: Tuple3, v: Tuple3) -> Tuple3 {
    if dot3(n, v) < 0 {
        neg3(n)
    } else {
        n
    }
}

/// Negating a factor negates the dot product.
pub proof fn lemma_dot_neg(n: Tuple3, v: Tuple3)
    ensures
        dot3(neg3(n), v) == -dot3(n, v),
{
    assert(dot3(neg3(n), v) == -dot3(n, v)) by (nonlinear_arith);
}

/// A face-forwarded normal never points away from the reference direction.
pub proof fn lemma_face_forward_agrees(n: Tuple3, v: Tuple3)
    ensures
        dot3(face_forward3(n, v), v) >= 0,
{
    lemma_dot_neg(n, v);
}

impl Normal3 {
    pub fn new(x: i64, y: i64, z: i64) -> (r: Self)
        ensures
            r@ == (x as int, y as int, z as int),
    {
        Normal3 { x, y, z }
    }

    /// The normal with the same coordinates as `v`.
    pub fn from_vector(v: &Vector3) -> (r: Self)
        ensures
            r@ == v@,
    {
        Normal3 { x: v.x, y: v.y, z: v.z }
    }

    /// The vector with the same coordinates.
    pub fn to_vector(&self) -> (r: Vector3)
        ensures
            r@ == self@,
    {
        Vector3 { x: self.x, y: self.y, z: self.z }
    }

    pub fn neg(&self) -> (r: Self)
        requires
            negatable3(self@),
        ensures
            r@ == neg3(self@),
    {
        Normal3 { x: -self.x, y: -self.y, z: -self.z }
    }

    /// The squared length.
    pub fn length_squared(&self) -> (r: i64)
        requires
            dot3_fits(self@, self@),
        ensures
            r == dot3(self@, self@),
    {
        dot3_exec(self.x, self.y, self.z, self.x, self.y, self.z)
    }

    /// The normal divided by its length, where that has whole coordinates
    /// (it lies along an axis); `None` elsewhere. It must not be zero.
    pub fn normalize(&self) -> (r: Option<Normal3>)
        requires
            self@ != (0int, 0int, 0int),
        ensures
            r.is_some() == unit_along3(self@).is_some(),
            r.is_some() ==> r.unwrap()@ == unit_along3(self@).unwrap(),
            r.is_some() ==> dot3(r.unwrap()@, r.unwrap()@) == 1,
    {
        proof {
            if unit_along3(self@).is_some() {
                lemma_unit_along3(self@);
            }
        }
        match unit_along3_exec(self.x, self.y, self.z) {
            Some((x, y, z)) => Some(Normal3 { x, y, z }),
            None => None,
        }
    }

    pub fn min_component(&self) -> (r: i64)
        ensures
            r == min_component3(self@),
    {
        min_i64(self.x, min_i64(self.y, self.z))
    }

    pub fn max_component(&self) -> (r: i64)
        ensures
            r == max_component3(self@),
    {
        max_i64(self.x, max_i64(self.y, self.z))
    }

    pub fn dot(&self, rhs: &Vector3) -> (r: i64)
        requires
            dot3_fits(self@, rhs@),
        ensures
            r == dot3(self@, rhs@),
    {
        dot3_exec(self.x, self.y, self.z, rhs.x, rhs.y, rhs.z)
    }

    pub fn abs_dot(&self, rhs: &Vector3) -> (r: i64)
        requires
            dot3_fits(self@, rhs@),
            dot3(self@, rhs@) != i64::MIN,
        ensures
            r == abs_int(dot3(self@, rhs@)),
    {
        abs_i64(self.dot(rhs))
    }

    /// The normal negated exactly when it points away from `v`; the result
    /// never points away from `v`.
    pub fn face_forward(&self, v: &Vector3) -> (r: Self)
        requires
            dot3_fits(self@, v@),
            negatable3(self@),
        ensures
            r@ == face_forward3(self@, v@),
            dot3(r@, v@) >= 0,
    {
        proof {
            lemma_face_forward_agrees(self@, v@);
        }
        if self.dot(v) < 0 {
            self.neg()
        } else {
            *self
        }
    }

    pub fn add(&self, rhs: Normal3) -> (r: Normal3)
        requires
            fits3(add3(self@, rhs@)),
        ensures
            r@ == add3(self@, rhs@),
    {
        Normal3 { x: self.x + rhs.x, y: self.y + rhs.y, z: self.z + rhs.z }
    }

    pub fn sub(&self, rhs: Normal3) -> (r: Normal3)
        requires
            fits3(sub3(self@, rhs@)),
        ensures
            r@ == sub3(self@, rhs@),
    {
        Normal3 { x: self.x - rhs.x, y: self.y - rhs.y, z: self.z - rhs.z }
    }

    pub fn mul(&self, s: i64) -> (r: Normal3)
        requires
            fits3(scale3(self@, s as int)),
        ensures
            r@ == scale3(self@, s as int),
    {
        Normal3 { x: self.x * s, y: self.y * s, z: self.z * s }
    }

    /// Divides each coordinate by `s`, rounding toward zero; `s` must not be zero.
    pub fn div(&self, s: i64) -> (r: Normal3)
        requires
            s != 0,
            s == -1 ==> negatable3(self@),
        ensures
            r@ == (
                div_trunc(self.x as int, s as int),
                div_trunc(self.y as int, s as int),
                div_trunc(self.z as int, s as int),
            ),
    {
        Normal3 {
            x: div_trunc_i64(self.x, s),
            y: div_trunc_i64(self.y, s),
            z: div_trunc_i64(self.z, s),
        }
    }
}

} // verus!
