//! The intersection contract of primitives, and the scene that owns an
//! aggregate of them together with the lights.
use vstd::prelude::*;
use crate::bounds3::Bound3;
use crate::interaction::SurfaceInteraction;
use crate::point::{Point2, Point3};
use crate::ray::{Ray, RayDifferential};
use crate::vector::Vector3;

verus! {

/// Geometry that rays can hit: a single shape or an aggregate of many.
pub trait Primitive {
    /// The box that holds the primitive.
    spec fn bound_of(&self) -> Bound3;

    /// Whether `ray` hits the primitive at a parameter up to its `t_max`.
    spec fn hit_by(&self, ray: Ray) -> bool;

    fn world_bound(&self) -> (r: Bound3)
        ensures
            r == self.bound_of(),
    ;

    /// The nearest hit along the ray, if any.
    fn intersect(&self, ray: &Ray) -> (r: Option<SurfaceInteraction>)
        ensures
            r.is_some() == self.hit_by(*ray),
    ;

    /// Whether there is a hit, without computing it; it gives the same
    /// answer as `intersect`.
    fn intersect_p(&self, ray: &Ray) -> (r: bool)
        ensures
            r == self.hit_by(*ray),
    ;
}

/// The two points between which a shadow ray must be unobstructed for a
/// light sample to count.
#[derive(Clone, Copy, Debug, PartialEq, Eq, Structural)]
pub struct VisibilityTester {
    pub p0: Point3,
    pub p1: Point3,
}

/// A sample of the light arriving at a point.
#[derive(Clone, Copy, Debug, PartialEq, Eq, Structural)]
pub struct LightSample {
    pub radiance: i64,
    /// The direction toward the light.
    pub wi: Vector3,
    pub pdf: i64,
    pub visibility: VisibilityTester,
}

/// A light source.
pub trait Light: Sized {
    /// That this light is `before` after one `preprocess` with the world
    /// bound `world_bound`; each light says what its preprocessing keeps.
    spec fn preprocessed_from(&self, before: Self, world_bound: Bound3) -> bool;

    /// Lets the light capture what it needs of the scene before rendering,
    /// such as its extent.
    fn preprocess(&mut self, world_bound: &Bound3)
        ensures
            final(self).preprocessed_from(*old(self), *world_bound),
    ;

    /// Samples the light arriving at the hit `interaction`, with the
    /// sample point `u`.
    fn sample_li(&self, interaction: &SurfaceInteraction, u: Point2) -> LightSample;

    /// The radiance the light emits along a ray that escapes the scene.
    fn le(&self, ray: &RayDifferential) -> i64;
}

/// The empty aggregate: it holds no shapes, so its bound is empty and no
/// ray hits it.
#[derive(Clone, Copy, Debug, PartialEq, Eq, Structural)]
pub struct GeneralPrimitive {}

impl Primitive for GeneralPrimitive {
    open spec fn bound_of(&self) -> Bound3 {
        Bound3 {
            p_min: Point3 { x: i64::MAX, y: i64::MAX, z: i64::MAX },
            p_max: Point3 { x: i64::MIN, y: i64::MIN, z: i64::MIN },
        }
    }

    open spec fn hit_by(&self, ray: Ray) -> bool {
        false
    }

    fn world_bound(&self) -> (r: Bound3) {
        Bound3::new()
    }

    fn intersect(&self, ray: &Ray) -> (r: Option<SurfaceInteraction>) {
        None
    }

    fn intersect_p(&self, ray: &Ray) -> (r: bool) {
        false
    }
}

/// A scene: an aggregate primitive, the lights, and the aggregate's bound,
/// computed once when the scene is built.
pub struct Scene<P: Primitive, L: Light> {
    pub lights: Vec<L>,
    pub aggregate: P,
    pub world_bound: Bound3,
}

impl<P: Primitive, L: Light> Scene<P, L> {
    /// Builds the scene: computes the world bound from the aggregate, then
    /// preprocesses each light once, in order, with that bound.
    pub fn new(aggregate: P, lights: Vec<L>) -> (r: Scene<P, L>)
        ensures
            r.aggregate == aggregate,
            r.world_bound == aggregate.bound_of(),
            r.lights@.len() == lights@.len(),
            forall|i: int|
                0 <= i < lights@.len() ==> #[trigger] r.lights@[i].preprocessed_from(
                    lights@[i],
                    r.world_bound,
                ),
    {
        let world_bound = aggregate.world_bound();
        let ghost given = lights@;
        let mut pending = lights;
        let mut done: Vec<L> = Vec::new();
        while pending.len() > 0
            invariant
                done@.len() + pending@.len() == given.len(),
                pending@ == given.subrange(done@.len() as int, given.len() as int),
                forall|i: int|
                    0 <= i < done@.len() ==> #[trigger] done@[i].preprocessed_from(
                        given[i],
                        world_bound,
                    ),
            decreases pending@.len(),
        {
            let mut light = pending.remove(0);
            light.preprocess(&world_bound);
            done.push(light);
            proof {
                assert(pending@ =~= given.subrange(done@.len() as int, given.len() as int));
            }
        }
        Scene { lights: done, aggregate, world_bound }
    }

    /// The nearest hit of the ray in the scene, if any.
    pub fn intersect(&self, ray: &Ray) -> (r: Option<SurfaceInteraction>)
        ensures
            r.is_some() == self.aggregate.hit_by(*ray),
    {
        self.aggregate.intersect(ray)
    }

    /// Whether the ray hits anything in the scene.
    pub fn intersect_p(&self, ray: &Ray) -> (r: bool)
        ensures
            r == self.aggregate.hit_by(*ray),
    {
        self.aggregate.intersect_p(ray)
    }
}

} // verus!
