//! Parametric rays and ray differentials.
use vstd::prelude::*;
use crate::point::Point3;
use crate::scalar::{div_trunc, div_trunc_i64, fits};
use crate::vector::{add3, fits3, scale3, Tuple3, Vector3};

verus! {

/// The participating medium a ray travels through.
#[derive(Clone, Copy, Debug, PartialEq, Eq, Structural)]
pub struct Medium {}

/// A half line `origin + t * direction` for `t` up to `t_max`.
#[derive(Clone, Copy, Debug, PartialEq, Eq, Structural)]
pub struct Ray {
    pub origin: Point3,
    /// Not required to have unit length.
    pub direction: Vector3,
    pub t_max: i64,
    /// The time of the ray, for geometry that moves.
    pub time: i64,
    pub medium: Option<Medium>,
}

/// The point at parameter `t` of the line through `o` along `d`.
pub open spec fn point_at3(o: Tuple3, d: Tuple3, t: int) -> Tuple3 {
    add3(o, scale3(d, t))
}

pub open spec fn point_at_fits(o: Tuple3, d: Tuple3, t: int) -> bool {
    fits3(scale3(d, t)) && fits3(point_at3(o, d, t))
}

fn point_at_exec(o: Point3, d: Vector3, t: i64) -> (r: Point3)
    requires
        point_at_fits(o@, d@, t as int),
    ensures
        r@ == point_at3(o@, d@, t as int),
{
    o.add_vector(d.mul(t))
}

impl Ray {
    pub fn new(origin: Point3, direction: Vector3, t_max: i64, time: i64, medium: Option<Medium>) -> (r: Ray)
        ensures
            r == (Ray { origin, direction, t_max, time, medium }),
    {
        Ray { origin, direction, t_max, time, medium }
    }

    /// A ray with no upper bound on its parameter, at time zero, in no medium.
    pub fn unbounded(origin: Point3, direction: Vector3) -> (r: Ray)
        ensures
            r == (Ray { origin, direction, t_max: i64::MAX, time: 0, medium: None }),
    {
        Ray { origin, direction, t_max: i64::MAX, time: 0, medium: None }
    }

    pub fn get_origin(&self) -> (r: Point3)
        ensures
            r == self.origin,
    {
        self.origin
    }

    pub fn get_direction(&self) -> (r: Vector3)
        ensures
            r == self.direction,
    {
        self.direction
    }

    /// `origin + direction * t`.
    pub fn point_at(&self, t: i64) -> (r: Point3)
        requires
            point_at_fits(self.origin@, self.direction@, t as int),
        ensures
            r@ == point_at3(self.origin@, self.direction@, t as int),
    {
        point_at_exec(self.origin, self.direction, t)
    }
}

/// `base` moved toward `aux` by the factor `num / den`:
/// `base + (aux - base) * num / den`, the quotient rounded toward zero.
pub open spec fn scale_toward(base: int, aux: int, num: int, den: int) -> int {
    base + div_trunc((aux - base) * num, den)
}

pub open spec fn scale_toward3(base: Tuple3, aux: Tuple3, num: int, den: int) -> Tuple3 {
    (
        scale_toward(base.0, aux.0, num, den),
        scale_toward(base.1, aux.1, num, den),
        scale_toward(base.2, aux.2, num, den),
    )
}

pub open spec fn scale_toward_fits(base: int, aux: int, num: int, den: int) -> bool {
    fits(aux - base) && fits((aux - base) * num) && fits(scale_toward(base, aux, num, den))
}

pub open spec fn scale_toward3_fits(base: Tuple3, aux: Tuple3, num: int, den: int) -> bool {
    scale_toward_fits(base.0, aux.0, num, den) && scale_toward_fits(base.1, aux.1, num, den)
        && scale_toward_fits(base.2, aux.2, num, den)
}

fn scale_toward_i64(base: i64, aux: i64, num: i64, den: i64) -> (r: i64)
    requires
        den > 0,
        scale_toward_fits(base as int, aux as int, num as int, den as int),
    ensures
        r == scale_toward(base as int, aux as int, num as int, den as int),
{
    base + div_trunc_i64((aux - base) * num, den)
}

/// Whether `scale_toward(base, aux, num, den)` can be computed with machine
/// integers.
fn scale_toward_fits_exec(base: i64, aux: i64, num: i64, den: i64) -> (r: bool)
    requires
        den > 0,
    ensures
        r == scale_toward_fits(base as int, aux as int, num as int, den as int),
{
    let d: i128 = aux as i128 - base as i128;
    if d < i64::MIN as i128 || d > i64::MAX as i128 {
        return false;
    }
    proof {
        assert(-0x4000_0000_0000_0000_0000_0000_0000_0000 <= d * num
            <= 0x4000_0000_0000_0000_0000_0000_0000_0000) by (nonlinear_arith)
            requires
                -0x8000_0000_0000_0000 <= d <= 0x7fff_ffff_ffff_ffff,
                -0x8000_0000_0000_0000 <= num <= 0x7fff_ffff_ffff_ffff,
        ;
    }
    let p: i128 = d * (num as i128);
    if p < i64::MIN as i128 || p > i64::MAX as i128 {
        return false;
    }
    let q = div_trunc_i64(p as i64, den);
    let t: i128 = base as i128 + q as i128;
    i64::MIN as i128 <= t && t <= i64::MAX as i128
}

fn scale_toward3_fits_exec(base: (i64, i64, i64), aux: (i64, i64, i64), num: i64, den: i64) -> (r: bool)
    requires
        den > 0,
    ensures
        r == scale_toward3_fits(
            (base.0 as int, base.1 as int, base.2 as int),
            (aux.0 as int, aux.1 as int, aux.2 as int),
            num as int,
            den as int,
        ),
{
    scale_toward_fits_exec(base.0, aux.0, num, den) && scale_toward_fits_exec(base.1, aux.1, num, den)
        && scale_toward_fits_exec(base.2, aux.2, num, den)
}

/// A ray with two auxiliary rays, offset by one pixel in x and in y, that
/// estimate the footprint of a sample.
#[derive(Clone, Copy, Debug, PartialEq, Eq, Structural)]
pub struct RayDifferential {
    pub origin: Point3,
    pub direction: Vector3,
    pub t_max: i64,
    pub time: i64,
    pub medium: Option<Medium>,
    /// Without it the auxiliary rays count as absent, whatever they hold.
    pub is_differential: bool,
    pub rx_origin: Option<Point3>,
    pub rx_direction: Option<Vector3>,
    pub ry_origin: Option<Point3>,
    pub ry_direction: Option<Vector3>,
}

impl RayDifferential {
    /// A ray without auxiliary rays.
    pub fn new(origin: Point3, direction: Vector3, t_max: i64, time: i64, medium: Option<Medium>) -> (r: RayDifferential)
        ensures
            r == (RayDifferential {
                origin,
                direction,
                t_max,
                time,
                medium,
                is_differential: false,
                rx_origin: None,
                rx_direction: None,
                ry_origin: None,
                ry_direction: None,
            }),
    {
        RayDifferential {
            origin,
            direction,
            t_max,
            time,
            medium,
            is_differential: false,
            rx_origin: None,
            rx_direction: None,
            ry_origin: None,
            ry_direction: None,
        }
    }

    /// The ray with auxiliary rays `(rx_origin, rx_direction)` and
    /// `(ry_origin, ry_direction)`.
    pub fn with_differentials(
        ray: Ray,
        rx_origin: Point3,
        rx_direction: Vector3,
        ry_origin: Point3,
        ry_direction: Vector3,
    ) -> (r: RayDifferential)
        ensures
            r == (RayDifferential {
                origin: ray.origin,
                direction: ray.direction,
                t_max: ray.t_max,
                time: ray.time,
                medium: ray.medium,
                is_differential: true,
                rx_origin: Some(rx_origin),
                rx_direction: Some(rx_direction),
                ry_origin: Some(ry_origin),
                ry_direction: Some(ry_direction),
            }),
    {
        RayDifferential {
            origin: ray.origin,
            direction: ray.direction,
            t_max: ray.t_max,
            time: ray.time,
            medium: ray.medium,
            is_differential: true,
            rx_origin: Some(rx_origin),
            rx_direction: Some(rx_direction),
            ry_origin: Some(ry_origin),
            ry_direction: Some(ry_direction),
        }
    }

    /// The primary ray alone.
    pub fn to_ray(&self) -> (r: Ray)
        ensures
            r == (Ray {
                origin: self.origin,
                direction: self.direction,
                t_max: self.t_max,
                time: self.time,
                medium: self.medium,
            }),
    {
        Ray {
            origin: self.origin,
            direction: self.direction,
            t_max: self.t_max,
            time: self.time,
            medium: self.medium,
        }
    }

    pub fn get_origin(&self) -> (r: Point3)
        ensures
            r == self.origin,
    {
        self.origin
    }

    pub fn get_direction(&self) -> (r: Vector3)
        ensures
            r == self.direction,
    {
        self.direction
    }

    /// `origin + direction * t`.
    pub fn point_at(&self, t: i64) -> (r: Point3)
        requires
            point_at_fits(self.origin@, self.direction@, t as int),
        ensures
            r@ == point_at3(self.origin@, self.direction@, t as int),
    {
        point_at_exec(self.origin, self.direction, t)
    }

    /// Whether the auxiliary rays are present and populated.
    pub open spec fn has_differentials(&self) -> bool {
        self.is_differential && self.rx_origin.is_some() && self.rx_direction.is_some()
            && self.ry_origin.is_some() && self.ry_direction.is_some()
    }

    /// Updates the auxiliary rays for a sample spacing of `num / den`: each
    /// auxiliary origin and direction moves toward the primary one, to
    /// `primary + (auxiliary - primary) * num / den`.
    pub fn scale_differential(&mut self, num: i64, den: i64)
        requires
            old(self).has_differentials(),
            den > 0,
            scale_toward3_fits(old(self).origin@, old(self).rx_origin.unwrap()@, num as int, den as int),
            scale_toward3_fits(old(self).origin@, old(self).ry_origin.unwrap()@, num as int, den as int),
            scale_toward3_fits(
                old(self).direction@,
                old(self).rx_direction.unwrap()@,
                num as int,
                den as int,
            ),
            scale_toward3_fits(
                old(self).direction@,
                old(self).ry_direction.unwrap()@,
                num as int,
                den as int,
            ),
        ensures
            final(self).has_differentials(),
            final(self).to_ray_spec() == old(self).to_ray_spec(),
            final(self).rx_origin.unwrap()@ == scale_toward3(
                old(self).origin@,
                old(self).rx_origin.unwrap()@,
                num as int,
                den as int,
            ),
            final(self).ry_origin.unwrap()@ == scale_toward3(
                old(self).origin@,
                old(self).ry_origin.unwrap()@,
                num as int,
                den as int,
            ),
            final(self).rx_direction.unwrap()@ == scale_toward3(
                old(self).direction@,
                old(self).rx_direction.unwrap()@,
                num as int,
                den as int,
            ),
            final(self).ry_direction.unwrap()@ == scale_toward3(
                old(self).direction@,
                old(self).ry_direction.unwrap()@,
                num as int,
                den as int,
            ),
    {
        let o = self.origin;
        let d = self.direction;
        let rxo = self.rx_origin.unwrap();
        let ryo = self.ry_origin.unwrap();
        let rxd = self.rx_direction.unwrap();
        let ryd = self.ry_direction.unwrap();
        self.rx_origin = Some(
            Point3 {
                x: scale_toward_i64(o.x, rxo.x, num, den),
                y: scale_toward_i64(o.y, rxo.y, num, den),
                z: scale_toward_i64(o.z, rxo.z, num, den),
            },
        );
        self.ry_origin = Some(
            Point3 {
                x: scale_toward_i64(o.x, ryo.x, num, den),
                y: scale_toward_i64(o.y, ryo.y, num, den),
                z: scale_toward_i64(o.z, ryo.z, num, den),
            },
        );
        self.rx_direction = Some(
            Vector3 {
                x: scale_toward_i64(d.x, rxd.x, num, den),
                y: scale_toward_i64(d.y, rxd.y, num, den),
                z: scale_toward_i64(d.z, rxd.z, num, den),
            },
        );
        self.ry_direction = Some(
            Vector3 {
                x: scale_toward_i64(d.x, ryd.x, num, den),
                y: scale_toward_i64(d.y, ryd.y, num, den),
                z: scale_toward_i64(d.z, ryd.z, num, den),
            },
        );
    }

    /// Scales the auxiliary rays by `num / den` as `scale_differential`
    /// does, where they are present and the result can be computed with
    /// machine integers; otherwise leaves the ray as it is. Says which.
    pub fn try_scale_differential(&mut self, num: i64, den: i64) -> (r: bool)
        requires
            den > 0,
        ensures
            r == (old(self).has_differentials() && scale_toward3_fits(
                old(self).origin@,
                old(self).rx_origin.unwrap()@,
                num as int,
                den as int,
            ) && scale_toward3_fits(
                old(self).origin@,
                old(self).ry_origin.unwrap()@,
                num as int,
                den as int,
            ) && scale_toward3_fits(
                old(self).direction@,
                old(self).rx_direction.unwrap()@,
                num as int,
                den as int,
            ) && scale_toward3_fits(
                old(self).direction@,
                old(self).ry_direction.unwrap()@,
                num as int,
                den as int,
            )),
            !r ==> *final(self) == *old(self),
            r ==> final(self).has_differentials() && final(self).to_ray_spec() == old(
                self,
            ).to_ray_spec(),
    {
        if !(self.is_differential && self.rx_origin.is_some() && self.rx_direction.is_some()
            && self.ry_origin.is_some() && self.ry_direction.is_some()) {
            return false;
        }
        let o = self.origin;
        let d = self.direction;
        let rxo = self.rx_origin.unwrap();
        let ryo = self.ry_origin.unwrap();
        let rxd = self.rx_direction.unwrap();
        let ryd = self.ry_direction.unwrap();
        let ok = scale_toward3_fits_exec((o.x, o.y, o.z), (rxo.x, rxo.y, rxo.z), num, den)
            && scale_toward3_fits_exec((o.x, o.y, o.z), (ryo.x, ryo.y, ryo.z), num, den)
            && scale_toward3_fits_exec((d.x, d.y, d.z), (rxd.x, rxd.y, rxd.z), num, den)
            && scale_toward3_fits_exec((d.x, d.y, d.z), (ryd.x, ryd.y, ryd.z), num, den);
        if ok {
            self.scale_differential(num, den);
        }
        ok
    }

    /// The primary ray's fields.
    pub open spec fn to_ray_spec(&self) -> Ray {
        Ray {
            origin: self.origin,
            direction: self.direction,
            t_max: self.t_max,
            time: self.time,
            medium: self.medium,
        }
    }
}

} // verus!
