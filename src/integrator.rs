//! The tile-parallel sampling loop of a sampler integrator. The camera,
//! sampler, film and radiance estimate are collaborators behind traits;
//! the loop decides the tiles, seeds, pixels and which samples are
//! evaluated.
use vstd::prelude::*;
use crate::bounds2::Bound2;
use crate::point::Point2;
use crate::ray::RayDifferential;
use crate::scalar::{fits, isqrt_u128};
use crate::scene::{Light, Primitive, Scene};
use crate::tiles::{pixel_box, tile_counts, tile_pixels, tileable, tiles, Tile, TILE_SIZE};

verus! {

/// What a sampler hands the camera for one sample.
#[derive(Clone, Copy, Debug, PartialEq, Eq, Structural)]
pub struct CameraSample {
    /// The position on the film.
    pub p_film: Point2,
    pub p_lens: Point2,
    pub time: i64,
}

pub trait Camera {
    /// The pixels to sample.
    fn sample_bound(&self) -> Bound2;

    /// The ray for a sample and the weight of its contribution.
    fn generate_ray_differential(&self, sample: &CameraSample) -> (i64, RayDifferential);
}

pub trait Sampler: Sized {
    /// A fresh sampler of the same kind whose sequence is fixed by `seed`.
    fn clone_seeded(&self, seed: i64) -> Self;

    fn samples_per_pixel(&self) -> i64;

    fn get_camera_sample(&mut self, pixel: Point2) -> CameraSample;
}

/// The accumulation buffer of one tile.
pub trait FilmTile {
    fn add_sample(&mut self, p_film: Point2, radiance: i64, weight: i64);
}

/// The image: it hands out tiles and takes them back, adding each tile's
/// samples to its pixels, so the order of merges does not matter.
pub trait Film<T: FilmTile> {
    fn get_film_tile(&self, bound: &Bound2) -> T;

    fn merge_film_tile(&mut self, tile: T);
}

/// Scratch memory that one task reuses for every sample it evaluates.
pub struct Workspace {
    pub scratch: Vec<i64>,
}

/// An integrator driven by the sampling loop: what it precomputes once,
/// and its radiance estimate `Li` along a ray.
pub trait SamplerIntegrator<P: Primitive, L: Light> {
    fn preprocess(&mut self, scene: &Scene<P, L>);

    fn li(&self, ray: &RayDifferential, scene: &Scene<P, L>, workspace: &mut Workspace, depth: i64) -> i64;
}

/// Why a render cannot start.
#[derive(Clone, Copy, Debug, PartialEq, Eq, Structural)]
pub enum RenderError {
    /// The camera's sample bound is inverted, or too large to tile.
    SampleBound,
}

/// The factor `1 / sqrt(samples_per_pixel)` by which the auxiliary rays are
/// scaled, as `(1, floor(sqrt(samples_per_pixel)))`.
pub fn differential_scale(samples_per_pixel: i64) -> (r: (i64, i64))
    requires
        samples_per_pixel >= 1,
    ensures
        r.0 == 1,
        r.1 >= 1,
        r.1 * r.1 <= samples_per_pixel < (r.1 + 1) * (r.1 + 1),
{
    let s = isqrt_u128(samples_per_pixel as u128);
    proof {
        assert(s <= samples_per_pixel) by (nonlinear_arith)
            requires
                s * s <= samples_per_pixel,
                samples_per_pixel >= 1,
        ;
        assert(s >= 1) by (nonlinear_arith)
            requires
                samples_per_pixel < (s + 1) * (s + 1),
                samples_per_pixel >= 1,
        ;
    }
    (1, s as i64)
}

/// The radiance a sample contributes: the integrator's estimate where the
/// ray has positive weight and its differentials could be scaled, zero
/// elsewhere.
fn sample_radiance<P: Primitive, L: Light, I: SamplerIntegrator<P, L>>(
    integrator: &I,
    scene: &Scene<P, L>,
    workspace: &mut Workspace,
    weight: i64,
    ray: &RayDifferential,
    scaled: bool,
) -> (r: i64)
    ensures
        !(weight > 0 && scaled) ==> r == 0,
{
    if weight > 0 && scaled {
        integrator.li(ray, scene, workspace, 0)
    } else {
        0
    }
}

/// Renders one tile: a sampler seeded with the tile's seed, a film tile over
/// the tile's pixels, and for each pixel in raster order each of its
/// samples, added to the film tile, which then goes back to the film.
/// Returns the tile sampler's samples per pixel and the number of samples
/// added: that many for every pixel of the tile (none where it is not
/// positive).
pub fn render_tile<P, L, I, C, S, T, F>(
    integrator: &I,
    scene: &Scene<P, L>,
    camera: &C,
    sampler: &S,
    film: &mut F,
    tile: &Tile,
) -> (r: (i64, u128))
    where
        P: Primitive,
        L: Light,
        I: SamplerIntegrator<P, L>,
        C: Camera,
        S: Sampler,
        T: FilmTile,
        F: Film<T>,
    requires
        pixel_box(tile.bound@, TILE_SIZE as int),
    ensures
        r.1 == (tile.bound.p_max.x - tile.bound.p_min.x) * (tile.bound.p_max.y
            - tile.bound.p_min.y) * (if r.0 > 0 {
            r.0 as int
        } else {
            0
        }),
{
    let mut tile_sampler = sampler.clone_seeded(tile.seed);
    let mut film_tile = film.get_film_tile(&tile.bound);
    let mut workspace = Workspace { scratch: Vec::new() };
    let spp = tile_sampler.samples_per_pixel();
    let (num, den) = if spp >= 1 {
        differential_scale(spp)
    } else {
        (1, 1)
    };
    proof {
        assert((tile.bound.p_max.x - tile.bound.p_min.x) * (tile.bound.p_max.y
            - tile.bound.p_min.y) <= 256) by (nonlinear_arith)
            requires
                0 < tile.bound.p_max.x - tile.bound.p_min.x <= 16,
                0 < tile.bound.p_max.y - tile.bound.p_min.y <= 16,
        ;
    }
    let pixels = tile_pixels(&tile.bound);
    let ghost per: int = if spp > 0 {
        spp as int
    } else {
        0
    };
    let ghost npix: int = pixels@.len() as int;
    proof {
        assert(pixels@.len() <= 256) by (nonlinear_arith)
            requires
                pixels@.len() == (tile.bound.p_max.x - tile.bound.p_min.x) * (tile.bound.p_max.y
                    - tile.bound.p_min.y),
                0 < tile.bound.p_max.x - tile.bound.p_min.x <= 16,
                0 < tile.bound.p_max.y - tile.bound.p_min.y <= 16,
        ;
    }
    let mut count: u128 = 0;
    let mut i: usize = 0;
    while i < pixels.len()
        invariant
            den >= 1,
            i <= pixels@.len(),
            npix == pixels@.len() <= 256,
            per == (if spp > 0 {
                spp as int
            } else {
                0
            }),
            count == i * per,
        decreases pixels@.len() - i,
    {
        let pixel = pixels[i];
        let mut s: i64 = 0;
        proof {
            assert(i * per + per <= 256 * 0x8000_0000_0000_0000) by (nonlinear_arith)
                requires
                    i < 256,
                    0 <= per < 0x8000_0000_0000_0000,
            ;
        }
        while s < spp
            invariant
                den >= 1,
                0 <= s,
                s <= spp || spp <= 0,
                spp <= 0 ==> s == 0,
                per == (if spp > 0 {
                    spp as int
                } else {
                    0
                }),
                count == i * per + s,
                i * per + per <= 256 * 0x8000_0000_0000_0000,
            decreases spp - s,
        {
            let sample = tile_sampler.get_camera_sample(pixel);
            let (weight, ray) = camera.generate_ray_differential(&sample);
            let mut ray = ray;
            let scaled = ray.try_scale_differential(num, den);
            let radiance = sample_radiance(integrator, scene, &mut workspace, weight, &ray, scaled);
            film_tile.add_sample(sample.p_film, radiance, weight);
            count = count + 1;
            s = s + 1;
        }
        proof {
            assert(s == per);
            assert((i + 1) * per == i * per + per) by (nonlinear_arith);
        }
        i = i + 1;
    }
    proof {
        assert(count == npix * per);
    }
    film.merge_film_tile(film_tile);
    (spp, count)
}

/// Renders the scene: preprocesses the integrator once, then renders the
/// camera's sample bound as `render_bound` does. Returns that bound and the
/// number of tiles, or an error where the bound cannot be tiled.
pub fn render<P, L, I, C, S, T, F>(
    integrator: &mut I,
    scene: &Scene<P, L>,
    camera: &C,
    sampler: &S,
    film: &mut F,
) -> (r: Result<(Bound2, usize), RenderError>)
    where
        P: Primitive,
        L: Light,
        I: SamplerIntegrator<P, L>,
        C: Camera,
        S: Sampler,
        T: FilmTile,
        F: Film<T>,
    ensures
        r is Ok ==> ({
            let (b, n) = r.unwrap();
            let counts = tile_counts(b@, TILE_SIZE as int);
            tileable(b@, TILE_SIZE as int) && n == counts.0 * counts.1
        }),
        r is Err ==> r == Err::<(Bound2, usize), RenderError>(RenderError::SampleBound),
{
    integrator.preprocess(scene);
    let bound = camera.sample_bound();
    match render_bound(&*integrator, scene, camera, sampler, film, &bound) {
        Ok(n) => Ok((bound, n)),
        Err(e) => Err(e),
    }
}

/// Renders the sample bound `bound`: cuts it into tiles of `TILE_SIZE` and
/// renders each in raster order with `render_tile`. Succeeds exactly when
/// the bound can be tiled with machine integers, and returns the number of
/// tiles.
pub fn render_bound<P, L, I, C, S, T, F>(
    integrator: &I,
    scene: &Scene<P, L>,
    camera: &C,
    sampler: &S,
    film: &mut F,
    bound: &Bound2,
) -> (r: Result<usize, RenderError>)
    where
        P: Primitive,
        L: Light,
        I: SamplerIntegrator<P, L>,
        C: Camera,
        S: Sampler,
        T: FilmTile,
        F: Film<T>,
    ensures
        r is Ok <==> (tileable(bound@, TILE_SIZE as int) && fits(tile_counts(
            bound@,
            TILE_SIZE as int,
        ).0 * tile_counts(bound@, TILE_SIZE as int).1)),
        r is Ok ==> r.unwrap() == tile_counts(bound@, TILE_SIZE as int).0 * tile_counts(
            bound@,
            TILE_SIZE as int,
        ).1,
        r is Err ==> r == Err::<usize, RenderError>(RenderError::SampleBound),
{
    if !tileable_exec(bound) {
        return Err(RenderError::SampleBound);
    }
    let all = tiles(bound, TILE_SIZE);
    let mut i: usize = 0;
    while i < all.len()
        invariant
            i <= all@.len(),
            forall|j: int|
                0 <= j < all@.len() ==> #[trigger] crate::tiles::tile_at(
                    all@[j],
                    j,
                    bound@,
                    TILE_SIZE as int,
                ),
        decreases all@.len() - i,
    {
        proof {
            assert(crate::tiles::tile_at(all@[i as int], i as int, bound@, TILE_SIZE as int));
        }
        render_tile(integrator, scene, camera, sampler, film, &all[i]);
        i = i + 1;
    }
    Ok(all.len())
}

/// Whether the bound can be cut into tiles of `TILE_SIZE`, and the number
/// of tiles fits a coordinate.
fn tileable_exec(b: &Bound2) -> (r: bool)
    ensures
        r == (tileable(b@, TILE_SIZE as int) && fits(tile_counts(b@, TILE_SIZE as int).0
            * tile_counts(b@, TILE_SIZE as int).1)),
{
    if b.p_min.x > b.p_max.x || b.p_min.y > b.p_max.y {
        return false;
    }
    if b.p_max.x > i64::MAX - TILE_SIZE || b.p_max.y > i64::MAX - TILE_SIZE {
        return false;
    }
    let ex: i128 = b.p_max.x as i128 - b.p_min.x as i128 + TILE_SIZE as i128;
    let ey: i128 = b.p_max.y as i128 - b.p_min.y as i128 + TILE_SIZE as i128;
    if ex > i64::MAX as i128 || ey > i64::MAX as i128 {
        return false;
    }
    let nx: i128 = (ex - 1) / (TILE_SIZE as i128);
    let ny: i128 = (ey - 1) / (TILE_SIZE as i128);
    proof {
        assert(nx <= ex && ny <= ey);
        assert(0 <= nx * ny <= ex * ey) by (nonlinear_arith)
            requires
                0 <= nx <= ex,
                0 <= ny <= ey,
        ;
        assert(ex * ey <= 0x7fff_ffff_ffff_ffff * 0x7fff_ffff_ffff_ffff) by (nonlinear_arith)
            requires
                0 <= ex <= 0x7fff_ffff_ffff_ffff,
                0 <= ey <= 0x7fff_ffff_ffff_ffff,
        ;
    }
    let n = nx * ny;
    n <= i64::MAX as i128
}

} // verus!
