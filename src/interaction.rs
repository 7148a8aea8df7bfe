//! Ray/surface hit records and their shading frames.
use vstd::prelude::*;
use crate::normal::{face_forward3, lemma_face_forward_agrees, Normal3};
use crate::point::{Point2, Point3};
use crate::vector::{
    cross3, cross3_fits, dot3, dot3_fits, lemma_unit_along3, negatable3, neg3, unit_along3, Tuple3,
    Vector3,
};

verus! {

/// The media on the two sides of a surface.
#[derive(Clone, Copy, Debug, PartialEq, Eq, Structural)]
pub struct MediumInterface {}

/// The orientation flags of the shape that was hit.
#[derive(Clone, Copy, Debug, PartialEq, Eq, Structural)]
pub struct ShapeOrientation {
    pub reverse_orientation: bool,
    pub transform_swaps_handedness: bool,
}

/// Whether the normals of a hit on this shape are to be negated: when it
/// reverses orientation or its transform swaps handedness, but not both.
/// Without a shape nothing is negated.
pub open spec fn flips(shape: Option<ShapeOrientation>) -> bool {
    match shape {
        Some(s) => s.reverse_orientation != s.transform_swaps_handedness,
        None => false,
    }
}

fn flips_exec(shape: Option<ShapeOrientation>) -> (r: bool)
    ensures
        r == flips(shape),
{
    match shape {
        Some(s) => s.reverse_orientation != s.transform_swaps_handedness,
        None => false,
    }
}

/// A shading frame, which may differ from the geometric one (interpolated
/// or mapped normals).
#[derive(Clone, Copy, Debug, PartialEq, Eq, Structural)]
pub struct Shading {
    pub normal: Normal3,
    pub dp_du: Vector3,
    pub dp_dv: Vector3,
    pub dn_du: Normal3,
    pub dn_dv: Normal3,
}

/// A ray's hit on a surface, with its own shading frame.
#[derive(Clone, Copy, Debug, PartialEq, Eq, Structural)]
pub struct SurfaceInteraction {
    pub point: Point3,
    pub normal: Normal3,
    /// A bound on the error in `point`.
    pub point_error: Vector3,
    /// The outgoing direction.
    pub wo: Vector3,
    pub medium_interface: Option<MediumInterface>,
    pub uv: Point2,
    pub dp_du: Vector3,
    pub dp_dv: Vector3,
    pub dn_du: Normal3,
    pub dn_dv: Normal3,
    pub shading: Shading,
    pub shape: Option<ShapeOrientation>,
}

/// The shading normal made from two tangents: their cross product, brought
/// to unit length where that has whole coordinates (along an axis), else
/// kept as it is; either way it points the same way.
pub open spec fn shading_normal_of(dp_du: Tuple3, dp_dv: Tuple3) -> Tuple3 {
    let c = cross3(dp_du, dp_dv);
    match unit_along3(c) {
        Some(u) => u,
        None => c,
    }
}

/// Negating both factors keeps a dot product and what it computes.
proof fn lemma_dot_neg_both(a: Tuple3, b: Tuple3)
    ensures
        dot3(neg3(a), neg3(b)) == dot3(a, b),
        dot3_fits(neg3(a), neg3(b)) == dot3_fits(a, b),
{
    assert((-a.0) * (-b.0) == a.0 * b.0) by (nonlinear_arith);
    assert((-a.1) * (-b.1) == a.1 * b.1) by (nonlinear_arith);
    assert((-a.2) * (-b.2) == a.2 * b.2) by (nonlinear_arith);
}

proof fn lemma_dot_symmetric(a: Tuple3, b: Tuple3)
    ensures
        dot3(a, b) == dot3(b, a),
        dot3_fits(a, b) == dot3_fits(b, a),
{
    assert(a.0 * b.0 == b.0 * a.0) by (nonlinear_arith);
    assert(a.1 * b.1 == b.1 * a.1) by (nonlinear_arith);
    assert(a.2 * b.2 == b.2 * a.2) by (nonlinear_arith);
}

impl SurfaceInteraction {
    /// A hit with no surface parametrization: `uv` and the derivatives are
    /// zero, and the shading frame has the geometric normal.
    pub fn new(
        point: Point3,
        normal: Normal3,
        point_error: Vector3,
        wo: Vector3,
        medium_interface: Option<MediumInterface>,
    ) -> (r: SurfaceInteraction)
        ensures
            r.point == point,
            r.normal == normal,
            r.point_error == point_error,
            r.wo == wo,
            r.medium_interface == medium_interface,
            r.uv@ == (0int, 0int),
            r.dp_du@ == (0int, 0int, 0int),
            r.dp_dv@ == (0int, 0int, 0int),
            r.dn_du@ == (0int, 0int, 0int),
            r.dn_dv@ == (0int, 0int, 0int),
            r.shading == (Shading {
                normal,
                dp_du: r.dp_du,
                dp_dv: r.dp_dv,
                dn_du: r.dn_du,
                dn_dv: r.dn_dv,
            }),
            r.shape.is_none(),
    {
        let zero = Vector3 { x: 0, y: 0, z: 0 };
        let zero_n = Normal3 { x: 0, y: 0, z: 0 };
        SurfaceInteraction {
            point,
            normal,
            point_error,
            wo,
            medium_interface,
            uv: Point2 { x: 0, y: 0 },
            dp_du: zero,
            dp_dv: zero,
            dn_du: zero_n,
            dn_dv: zero_n,
            shading: Shading { normal, dp_du: zero, dp_dv: zero, dn_du: zero_n, dn_dv: zero_n },
            shape: None,
        }
    }

    /// A hit with its surface parametrization. The shading frame starts as
    /// the geometric one; when the shape's flags call for it, the normal
    /// (and so the shading normal) is negated.
    pub fn new_surface(
        point: Point3,
        normal: Normal3,
        point_error: Vector3,
        wo: Vector3,
        medium_interface: Option<MediumInterface>,
        uv: Point2,
        dp_du: Vector3,
        dp_dv: Vector3,
        dn_du: Normal3,
        dn_dv: Normal3,
        shape: Option<ShapeOrientation>,
    ) -> (r: SurfaceInteraction)
        requires
            negatable3(normal@),
        ensures
            r.normal@ == (if flips(shape) {
                neg3(normal@)
            } else {
                normal@
            }),
            r.shading == (Shading { normal: r.normal, dp_du, dp_dv, dn_du, dn_dv }),
            r.point == point,
            r.point_error == point_error,
            r.wo == wo,
            r.medium_interface == medium_interface,
            r.uv == uv,
            r.dp_du == dp_du,
            r.dp_dv == dp_dv,
            r.dn_du == dn_du,
            r.dn_dv == dn_dv,
            r.shape == shape,
    {
        let n = if flips_exec(shape) {
            normal.neg()
        } else {
            normal
        };
        SurfaceInteraction {
            point,
            normal: n,
            point_error,
            wo,
            medium_interface,
            uv,
            dp_du,
            dp_dv,
            dn_du,
            dn_dv,
            shading: Shading { normal: n, dp_du, dp_dv, dn_du, dn_dv },
            shape,
        }
    }

    /// Whether this is a hit on a surface: its normal is not zero.
    pub fn is_surface_interaction(&self) -> (r: bool)
        ensures
            r == (self.normal@ != (0int, 0int, 0int)),
    {
        self.normal.x != 0 || self.normal.y != 0 || self.normal.z != 0
    }

    /// Sets the shading frame from the tangents `dp_du`, `dp_dv` and the
    /// normal derivatives. The shading normal is `shading_normal_of(dp_du,
    /// dp_dv)`; both normals are negated when the shape's flags call for
    /// it. Then, when the orientation is authoritative, the geometric normal
    /// is turned toward the shading normal; otherwise the shading normal is
    /// turned toward the geometric one. Either way the two end up on the
    /// same side.
    pub fn set_shading_geometry(
        &mut self,
        dp_du: Vector3,
        dp_dv: Vector3,
        dn_du: Normal3,
        dn_dv: Normal3,
        orientation_is_authoritative: bool,
    )
        requires
            cross3_fits(dp_du@, dp_dv@),
            cross3(dp_du@, dp_dv@) != (0int, 0int, 0int),
            negatable3(cross3(dp_du@, dp_dv@)),
            negatable3(old(self).normal@),
            dot3_fits(old(self).normal@, shading_normal_of(dp_du@, dp_dv@)),
        ensures
            ({
                let sn = shading_normal_of(dp_du@, dp_dv@);
                let n1 = if flips(old(self).shape) {
                    neg3(old(self).normal@)
                } else {
                    old(self).normal@
                };
                let sn1 = if flips(old(self).shape) {
                    neg3(sn)
                } else {
                    sn
                };
                &&& final(self).normal@ == (if orientation_is_authoritative {
                    face_forward3(n1, sn1)
                } else {
                    n1
                })
                &&& final(self).shading.normal@ == (if orientation_is_authoritative {
                    sn1
                } else {
                    face_forward3(sn1, n1)
                })
            }),
            dot3(final(self).normal@, final(self).shading.normal@) >= 0,
            final(self).shading.dp_du == dp_du,
            final(self).shading.dp_dv == dp_dv,
            final(self).shading.dn_du == dn_du,
            final(self).shading.dn_dv == dn_dv,
            final(self).point == old(self).point,
            final(self).point_error == old(self).point_error,
            final(self).wo == old(self).wo,
            final(self).medium_interface == old(self).medium_interface,
            final(self).uv == old(self).uv,
            final(self).dp_du == old(self).dp_du,
            final(self).dp_dv == old(self).dp_dv,
            final(self).dn_du == old(self).dn_du,
            final(self).dn_dv == old(self).dn_dv,
            final(self).shape == old(self).shape,
    {
        let c = dp_du.cross(&dp_dv);
        let sn = match c.normalize() {
            Some(u) => u,
            None => c,
        };
        proof {
            if unit_along3(c@).is_some() {
                lemma_unit_along3(c@);
            }
            assert(sn@ == shading_normal_of(dp_du@, dp_dv@));
            lemma_dot_neg_both(self.normal@, sn@);
        }
        let mut n = self.normal;
        let mut s = Normal3::from_vector(&sn);
        if flips_exec(self.shape) {
            n = n.neg();
            s = s.neg();
        }
        proof {
            lemma_dot_symmetric(n@, s@);
            lemma_face_forward_agrees(n@, s@);
            lemma_face_forward_agrees(s@, n@);
            lemma_dot_symmetric(face_forward3(s@, n@), n@);
        }
        if orientation_is_authoritative {
            n = n.face_forward(&s.to_vector());
        } else {
            s = s.face_forward(&n.to_vector());
        }
        self.normal = n;
        self.shading = Shading { normal: s, dp_du, dp_dv, dn_du, dn_dv };
    }
}

} // verus!
