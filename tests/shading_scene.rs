use raycore::normal::Normal3;
use raycore::{
    differential_scale, render, render_bound, render_tile, tiles, Bound2, Bound3, Camera, CameraSample, Film, FilmTile,
    GeneralPrimitive, Light, LightSample, Point2, Point3, Primitive, Ray, RayDifferential, RenderError,
    Sampler, SamplerIntegrator, Scene, ShapeOrientation, SurfaceInteraction, Vector3,
    VisibilityTester, Workspace,
};

fn hit(normal: Normal3, shape: Option<ShapeOrientation>) -> SurfaceInteraction {
    SurfaceInteraction::new_surface(
        Point3::new(0, 0, 0),
        normal,
        Vector3::new(0, 0, 0),
        Vector3::new(0, 0, 1),
        None,
        Point2::new(0, 0),
        Vector3::new(1, 0, 0),
        Vector3::new(0, 1, 0),
        Normal3::new(0, 0, 0),
        Normal3::new(0, 0, 0),
        shape,
    )
}

#[test]
fn new_interaction_has_zero_parametrization() {
    let si = SurfaceInteraction::new(
        Point3::new(1, 2, 3),
        Normal3::new(0, 1, 0),
        Vector3::new(0, 0, 0),
        Vector3::new(1, 0, 0),
        None,
    );
    assert_eq!(si.uv, Point2::new(0, 0));
    assert_eq!(si.shading.normal, Normal3::new(0, 1, 0));
    assert!(si.is_surface_interaction());
    let none = SurfaceInteraction::new(
        Point3::new(0, 0, 0),
        Normal3::new(0, 0, 0),
        Vector3::new(0, 0, 0),
        Vector3::new(0, 0, 0),
        None,
    );
    assert!(!none.is_surface_interaction());
}

#[test]
fn shape_flags_negate_the_normals() {
    let n = Normal3::new(0, 0, 1);
    let flip = ShapeOrientation { reverse_orientation: true, transform_swaps_handedness: false };
    let both = ShapeOrientation { reverse_orientation: true, transform_swaps_handedness: true };
    assert_eq!(hit(n, Some(flip)).normal, Normal3::new(0, 0, -1));
    assert_eq!(hit(n, Some(flip)).shading.normal, Normal3::new(0, 0, -1));
    assert_eq!(hit(n, Some(both)).normal, n);
    assert_eq!(hit(n, None).normal, n);
}

#[test]
fn authoritative_orientation_turns_the_geometric_normal() {
    // The tangents give the shading normal +z; the geometric normal is -z.
    let mut si = hit(Normal3::new(0, 0, -1), None);
    si.set_shading_geometry(
        Vector3::new(2, 0, 0),
        Vector3::new(0, 3, 0),
        Normal3::new(0, 0, 0),
        Normal3::new(0, 0, 0),
        true,
    );
    assert_eq!(si.shading.normal, Normal3::new(0, 0, 1));
    assert_eq!(si.normal, Normal3::new(0, 0, 1));
    assert_eq!(si.shading.dp_du, Vector3::new(2, 0, 0));
}

#[test]
fn non_authoritative_orientation_turns_the_shading_normal() {
    let mut si = hit(Normal3::new(0, 0, -1), None);
    si.set_shading_geometry(
        Vector3::new(2, 0, 0),
        Vector3::new(0, 3, 0),
        Normal3::new(0, 0, 0),
        Normal3::new(0, 0, 0),
        false,
    );
    assert_eq!(si.normal, Normal3::new(0, 0, -1));
    assert_eq!(si.shading.normal, Normal3::new(0, 0, -1));
}

#[test]
fn shading_normal_off_axis_keeps_its_direction() {
    let mut si = hit(Normal3::new(1, 1, 1), None);
    si.set_shading_geometry(
        Vector3::new(1, 1, 0),
        Vector3::new(0, 1, 1),
        Normal3::new(0, 0, 0),
        Normal3::new(0, 0, 0),
        false,
    );
    // cross((1,1,0), (0,1,1)) = (1,-1,1), not along an axis: kept as it is.
    assert_eq!(si.shading.normal, Normal3::new(1, -1, 1));
    assert!(si.normal.dot(&si.shading.normal.to_vector()) >= 0);
}

#[test]
fn general_primitive_is_empty() {
    let p = GeneralPrimitive {};
    let ray = Ray::unbounded(Point3::new(0, 0, 0), Vector3::new(1, 0, 0));
    assert!(p.intersect(&ray).is_none());
    assert!(!p.intersect_p(&ray));
    assert_eq!(p.world_bound(), Bound3::new());
}

struct CountingLight {
    calls: u32,
    seen: Option<Bound3>,
}

impl Light for CountingLight {
    fn preprocessed_from(&self, before: Self, world_bound: Bound3) -> bool {
        self.calls == before.calls + 1 && self.seen == Some(world_bound)
    }

    fn preprocess(&mut self, world_bound: &Bound3) {
        self.calls += 1;
        self.seen = Some(*world_bound);
    }

    fn sample_li(&self, interaction: &SurfaceInteraction, _u: Point2) -> LightSample {
        LightSample {
            radiance: self.calls as i64,
            wi: Vector3::new(0, 0, 1),
            pdf: 1,
            visibility: VisibilityTester { p0: interaction.point, p1: Point3::new(0, 0, 100) },
        }
    }

    fn le(&self, _ray: &RayDifferential) -> i64 {
        0
    }
}

#[test]
fn scene_preprocesses_each_light_once() {
    let lights = vec![
        CountingLight { calls: 0, seen: None },
        CountingLight { calls: 0, seen: None },
        CountingLight { calls: 5, seen: None },
    ];
    let scene = Scene::new(GeneralPrimitive {}, lights);
    assert_eq!(scene.world_bound, Bound3::new());
    assert_eq!(scene.lights.len(), 3);
    assert_eq!(scene.lights[0].calls, 1);
    assert_eq!(scene.lights[1].calls, 1);
    assert_eq!(scene.lights[2].calls, 6);
    assert_eq!(scene.lights[0].seen, Some(Bound3::new()));
    let fresh = CountingLight { calls: 5, seen: None };
    assert!(scene.lights[2].preprocessed_from(fresh, scene.world_bound));
    let si = hit(Normal3::new(0, 0, 1), None);
    let sample = scene.lights[2].sample_li(&si, Point2::new(0, 0));
    assert_eq!(sample.radiance, 6);
    assert_eq!(sample.visibility.p0, si.point);
    let ray = Ray::unbounded(Point3::new(0, 0, 0), Vector3::new(0, 1, 0));
    assert!(scene.intersect(&ray).is_none());
    assert!(!scene.intersect_p(&ray));
}

#[test]
fn differential_scale_is_one_over_root_spp() {
    assert_eq!(differential_scale(1), (1, 1));
    assert_eq!(differential_scale(16), (1, 4));
    assert_eq!(differential_scale(15), (1, 3));
}

struct PixelCamera {
    bound: Bound2,
}

impl Camera for PixelCamera {
    fn sample_bound(&self) -> Bound2 {
        self.bound
    }

    fn generate_ray_differential(&self, sample: &CameraSample) -> (i64, RayDifferential) {
        let o = Point3::new(sample.p_film.x, sample.p_film.y, 0);
        let ray = Ray::unbounded(o, Vector3::new(0, 0, 1));
        let rd = RayDifferential::with_differentials(
            ray,
            Point3::new(o.x + 4, o.y, 0),
            Vector3::new(0, 0, 1),
            Point3::new(o.x, o.y + 4, 0),
            Vector3::new(0, 0, 1),
        );
        // Pixels in column 0 get no weight.
        (if sample.p_film.x == 0 { 0 } else { 1 }, rd)
    }
}

struct SeededSampler {
    seed: i64,
    spp: i64,
}

impl Sampler for SeededSampler {
    fn clone_seeded(&self, seed: i64) -> Self {
        SeededSampler { seed, spp: self.spp }
    }

    fn samples_per_pixel(&self) -> i64 {
        self.spp
    }

    fn get_camera_sample(&mut self, pixel: Point2) -> CameraSample {
        CameraSample { p_film: pixel, p_lens: Point2::new(0, 0), time: self.seed }
    }
}

struct Tile {
    samples: Vec<(Point2, i64, i64)>,
}

impl FilmTile for Tile {
    fn add_sample(&mut self, p_film: Point2, radiance: i64, weight: i64) {
        self.samples.push((p_film, radiance, weight));
    }
}

struct Image {
    samples: Vec<(Point2, i64, i64)>,
    tiles: usize,
}

impl Film<Tile> for Image {
    fn get_film_tile(&self, _bound: &Bound2) -> Tile {
        Tile { samples: Vec::new() }
    }

    fn merge_film_tile(&mut self, tile: Tile) {
        self.tiles += 1;
        self.samples.extend(tile.samples);
    }
}

struct AuxSpread {
    preprocessed: u32,
}

impl SamplerIntegrator<GeneralPrimitive, CountingLight> for AuxSpread {
    fn preprocess(&mut self, _scene: &Scene<GeneralPrimitive, CountingLight>) {
        self.preprocessed += 1;
    }

    fn li(
        &self,
        ray: &RayDifferential,
        _scene: &Scene<GeneralPrimitive, CountingLight>,
        _workspace: &mut Workspace,
        depth: i64,
    ) -> i64 {
        // The spread of the x auxiliary ray, so the test sees the scaling.
        ray.rx_origin.unwrap().x - ray.origin.x + depth
    }
}

#[test]
fn render_samples_every_pixel() {
    let scene = Scene::new(GeneralPrimitive {}, Vec::<CountingLight>::new());
    let camera = PixelCamera { bound: Bound2::from_points(&Point2::new(0, 0), &Point2::new(20, 18)) };
    let sampler = SeededSampler { seed: 0, spp: 4 };
    let mut film = Image { samples: Vec::new(), tiles: 0 };
    let mut integrator = AuxSpread { preprocessed: 0 };
    let r = render(&mut integrator, &scene, &camera, &sampler, &mut film);
    let (b, n) = r.unwrap();
    assert_eq!(b, camera.bound);
    assert_eq!(n, 4);
    assert_eq!(film.tiles, 4);
    assert_eq!(integrator.preprocessed, 1);
    assert_eq!(film.samples.len(), 20 * 18 * 4);
    for x in 0..20 {
        for y in 0..18 {
            let here: Vec<_> = film.samples.iter().filter(|s| s.0 == Point2::new(x, y)).collect();
            assert_eq!(here.len(), 4);
            for s in here {
                // Weight zero in column 0: no radiance; elsewhere the spread 4
                // scaled by 1 / sqrt(4).
                let expected = if x == 0 { (0, 0) } else { (2, 1) };
                assert_eq!((s.1, s.2), expected);
            }
        }
    }
}

#[test]
fn render_refuses_an_inverted_bound() {
    let scene = Scene::new(GeneralPrimitive {}, Vec::<CountingLight>::new());
    let camera = PixelCamera {
        bound: Bound2 { p_min: Point2::new(5, 5), p_max: Point2::new(0, 0) },
    };
    let sampler = SeededSampler { seed: 0, spp: 1 };
    let mut film = Image { samples: Vec::new(), tiles: 0 };
    let mut integrator = AuxSpread { preprocessed: 0 };
    let r = render(&mut integrator, &scene, &camera, &sampler, &mut film);
    assert_eq!(r.unwrap_err(), RenderError::SampleBound);
    assert_eq!(film.tiles, 0);
}

#[test]
fn render_bound_tiles_exactly_the_given_bound() {
    let scene = Scene::new(GeneralPrimitive {}, Vec::<CountingLight>::new());
    let bound = Bound2::from_points(&Point2::new(0, 0), &Point2::new(33, 16));
    let camera = PixelCamera { bound };
    let sampler = SeededSampler { seed: 0, spp: 2 };
    let mut film = Image { samples: Vec::new(), tiles: 0 };
    let integrator = AuxSpread { preprocessed: 0 };
    assert_eq!(render_bound(&integrator, &scene, &camera, &sampler, &mut film, &bound), Ok(3));
    assert_eq!(film.samples.len(), 33 * 16 * 2);
    let inverted = Bound2 { p_min: Point2::new(1, 0), p_max: Point2::new(0, 0) };
    assert_eq!(
        render_bound(&integrator, &scene, &camera, &sampler, &mut film, &inverted),
        Err(RenderError::SampleBound)
    );
}

#[test]
fn render_tile_counts_samples_per_pixel() {
    let scene = Scene::new(GeneralPrimitive {}, Vec::<CountingLight>::new());
    let bound = Bound2::from_points(&Point2::new(0, 0), &Point2::new(20, 5));
    let camera = PixelCamera { bound };
    let integrator = AuxSpread { preprocessed: 0 };
    let mut film = Image { samples: Vec::new(), tiles: 0 };
    let all = tiles(&bound, 16);
    let edge = &all[1];
    let (spp, count) = render_tile(&integrator, &scene, &camera, &SeededSampler { seed: 0, spp: 3 }, &mut film, edge);
    assert_eq!((spp, count), (3, 4 * 5 * 3));
    let (spp, count) = render_tile(&integrator, &scene, &camera, &SeededSampler { seed: 0, spp: 0 }, &mut film, edge);
    assert_eq!((spp, count), (0, 0));
}
