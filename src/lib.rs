//! The geometric and intersection core of an offline ray tracer, for the
//! integer kind of its algebra: vectors, points, normals, bounds, transforms,
//! rays, shading frames, scenes and the tiled sampling loop.
pub mod scalar;
pub mod vector;
pub mod point;
pub mod normal;
pub mod bounds2;
pub mod bounds3;
pub mod tiles;
pub mod ray;
pub mod transform;
pub mod interaction;
pub mod scene;
pub mod integrator;
pub mod window;

pub use bounds2::{Bound2, Bound2i};
pub use bounds3::{Bound3, Bound3i};
pub use integrator::{
    differential_scale, render, render_bound, render_tile, Camera, CameraSample, Film, FilmTile, RenderError,
    Sampler, SamplerIntegrator, Workspace,
};
pub use interaction::{MediumInterface, Shading, ShapeOrientation, SurfaceInteraction};
pub use normal::Normal3;
pub use point::{Point2, Point2i, Point3, Point3i};
pub use ray::{Medium, Ray, RayDifferential};
pub use scalar::lerp;
pub use scene::{GeneralPrimitive, Light, LightSample, Primitive, Scene, VisibilityTester};
pub use tiles::{tile_bounds, tile_count, tile_pixels, tile_seed, tiles, Tile, TILE_SIZE};
pub use transform::{DegenerateTransform, Matrix4x4, Transform};
pub use vector::{Vector2, Vector2i, Vector3, Vector3i};
pub use window::Window;
