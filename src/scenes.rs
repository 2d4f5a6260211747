//! Ready-made scenes.
use vstd::prelude::*;
use crate::params::{AspectRatio, CameraParameters, RenderParameters};
use crate::ratio::{frac, whole3, Ratio, Triple};
use crate::scene::{MaterialSpec, Scene, SphereSpec};

verus! {

/// `cos(pi / 4)`, to the precision of a 64-bit float.
pub const COS_QUARTER_PI_NUM: i64 = 7071067811865476;

/// Denominator of `COS_QUARTER_PI_NUM`.
pub const COS_QUARTER_PI_DEN: i64 = 10000000000000000;

/// Image settings of the ready-made scenes: 400 pixels wide at 16:9, with
/// the default sampling.
pub open spec fn wide_400() -> RenderParameters {
    RenderParameters {
        image_width: 400,
        aspect_ratio: AspectRatio { width: 16, height: 9 },
        samples_per_pixel: 100,
        max_bounces: 50,
    }
}

/// The default camera, moved to `(-2, 2, 1)` and looking at `(0, 0, -1)`,
/// with the given vertical field of view in degrees.
pub open spec fn overlooking(vfov: int) -> CameraParameters {
    CameraParameters {
        look_at: whole3(0, 0, -1),
        look_from: whole3(-2, 2, 1),
        vfov: frac(vfov, 1),
        focal_length: frac(1, 1),
        focus_distance: frac(1, 1),
        defocus_angle: frac(0, 1),
    }
}

/// The camera settings of `overlooking`.
fn overlooking_camera(vfov: i64) -> (c: CameraParameters)
    ensures
        c == overlooking(vfov as int),
        c.wf(),
{
    let mut c = CameraParameters::default();
    c.look_from = Triple::whole(-2, 2, 1);
    c.look_at = Triple::whole(0, 0, -1);
    c.vfov = Ratio::whole(vfov);
    c
}

/// Two touching diffuse spheres of radius `cos(pi / 4)`, blue on the left and
/// red on the right, centered at `(-r, 0, -1)` and `(r, 0, -1)`.
pub fn two_sphere() -> (s: Scene)
    ensures
        s.wf(),
        s@.materials == seq![
            MaterialSpec::Lambertian { albedo: whole3(0, 0, 1) },
            MaterialSpec::Lambertian { albedo: whole3(1, 0, 0) },
        ],
        s@.spheres == seq![
            SphereSpec {
                center: Triple {
                    x: frac(-COS_QUARTER_PI_NUM, COS_QUARTER_PI_DEN as int),
                    y: frac(0, 1),
                    z: frac(-1, 1),
                },
                radius: frac(COS_QUARTER_PI_NUM as int, COS_QUARTER_PI_DEN as int),
                material: 0,
            },
            SphereSpec {
                center: Triple {
                    x: frac(COS_QUARTER_PI_NUM as int, COS_QUARTER_PI_DEN as int),
                    y: frac(0, 1),
                    z: frac(-1, 1),
                },
                radius: frac(COS_QUARTER_PI_NUM as int, COS_QUARTER_PI_DEN as int),
                material: 1,
            },
        ],
        s@.camera == overlooking(90),
        s@.render == wide_400(),
{
    let r = Ratio::new(COS_QUARTER_PI_NUM, COS_QUARTER_PI_DEN);
    let minus_r = Ratio::new(-COS_QUARTER_PI_NUM, COS_QUARTER_PI_DEN);
    let mut world = Scene::new(overlooking_camera(90), RenderParameters::default());
    let mat_l = world.add_material(MaterialSpec::Lambertian { albedo: Triple::whole(0, 0, 1) });
    let mat_r = world.add_material(MaterialSpec::Lambertian { albedo: Triple::whole(1, 0, 0) });
    world.add_sphere(Triple::new(minus_r, Ratio::whole(0), Ratio::whole(-1)), r, mat_l);
    world.add_sphere(Triple::new(r, Ratio::whole(0), Ratio::whole(-1)), r, mat_r);
    assert(world@.materials =~= seq![
        MaterialSpec::Lambertian { albedo: whole3(0, 0, 1) },
        MaterialSpec::Lambertian { albedo: whole3(1, 0, 0) },
    ]);
    assert(world@.spheres =~= seq![
        SphereSpec {
            center: Triple {
                x: frac(-COS_QUARTER_PI_NUM, COS_QUARTER_PI_DEN as int),
                y: frac(0, 1),
                z: frac(-1, 1),
            },
            radius: frac(COS_QUARTER_PI_NUM as int, COS_QUARTER_PI_DEN as int),
            material: 0,
        },
        SphereSpec {
            center: Triple {
                x: frac(COS_QUARTER_PI_NUM as int, COS_QUARTER_PI_DEN as int),
                y: frac(0, 1),
                z: frac(-1, 1),
            },
            radius: frac(COS_QUARTER_PI_NUM as int, COS_QUARTER_PI_DEN as int),
            material: 1,
        },
    ]);
    world
}

/// `n / 10` in specifications.
pub open spec fn tenths(n: int) -> Ratio {
    frac(n, 10)
}

/// The triple `(x, y, z) / 10` in specifications.
pub open spec fn tenths3(x: int, y: int, z: int) -> Triple {
    Triple { x: tenths(x), y: tenths(y), z: tenths(z) }
}

/// The materials of `three_sphere`: ground, left glass, air bubble, center
/// and right metal.
pub open spec fn three_sphere_materials() -> Seq<MaterialSpec> {
    seq![
        MaterialSpec::Lambertian { albedo: tenths3(8, 8, 0) },
        MaterialSpec::Dielectric { refraction_index: tenths(15) },
        MaterialSpec::Dielectric { refraction_index: frac(10, 15) },
        MaterialSpec::Lambertian { albedo: tenths3(1, 2, 5) },
        MaterialSpec::Metal { albedo: tenths3(8, 6, 2), roughness: frac(1, 1) },
    ]
}

/// The spheres of `three_sphere`.
pub open spec fn three_sphere_spheres() -> Seq<SphereSpec> {
    seq![
        SphereSpec { center: tenths3(0, 0, -12), radius: tenths(5), material: 3 },
        SphereSpec { center: tenths3(10, 0, -10), radius: tenths(5), material: 4 },
        SphereSpec { center: tenths3(-10, 0, -10), radius: tenths(5), material: 1 },
        SphereSpec { center: tenths3(-10, 0, -10), radius: tenths(4), material: 2 },
        SphereSpec { center: tenths3(0, -1005, -10), radius: frac(100, 1), material: 0 },
    ]
}

/// `(x, y, z) / 10`.
fn tenths_triple(x: i64, y: i64, z: i64) -> (t: Triple)
    ensures
        t == tenths3(x as int, y as int, z as int),
        t.wf(),
{
    Triple::new(Ratio::new(x, 10), Ratio::new(y, 10), Ratio::new(z, 10))
}

/// A diffuse sphere on a large diffuse ground, between a glass sphere with an
/// air bubble on the left and a rough metal sphere on the right, seen through
/// a 20 degree field of view.
pub fn three_sphere() -> (s: Scene)
    ensures
        s.wf(),
        s@.materials == three_sphere_materials(),
        s@.spheres == three_sphere_spheres(),
        s@.camera == overlooking(20),
        s@.render == wide_400(),
{
    let mut world = Scene::new(overlooking_camera(20), RenderParameters::default());
    let ground = world.add_material(MaterialSpec::Lambertian { albedo: tenths_triple(8, 8, 0) });
    let left = world.add_material(MaterialSpec::Dielectric { refraction_index: Ratio::new(15, 10) });
    let bubble = world.add_material(
        MaterialSpec::Dielectric { refraction_index: Ratio::new(10, 15) },
    );
    let center = world.add_material(MaterialSpec::Lambertian { albedo: tenths_triple(1, 2, 5) });
    let right = world.add_material(
        MaterialSpec::Metal { albedo: tenths_triple(8, 6, 2), roughness: Ratio::whole(1) },
    );
    world.add_sphere(tenths_triple(0, 0, -12), Ratio::new(5, 10), center);
    world.add_sphere(tenths_triple(10, 0, -10), Ratio::new(5, 10), right);
    world.add_sphere(tenths_triple(-10, 0, -10), Ratio::new(5, 10), left);
    world.add_sphere(tenths_triple(-10, 0, -10), Ratio::new(4, 10), bubble);
    world.add_sphere(tenths_triple(0, -1005, -10), Ratio::whole(100), ground);
    assert(world@.materials =~= three_sphere_materials());
    assert(world@.spheres =~= three_sphere_spheres());
    world
}

} // verus!
