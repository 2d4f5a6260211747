use ray_tracer::params::{AspectRatio, CameraParameters, RenderParameters};
use ray_tracer::ratio::{Ratio, Triple};
use ray_tracer::scene::{MaterialSpec, Scene, SphereSpec};
use ray_tracer::scenes::{three_sphere, two_sphere};

fn tenths(x: i64, y: i64, z: i64) -> Triple {
    Triple::new(Ratio::new(x, 10), Ratio::new(y, 10), Ratio::new(z, 10))
}

#[test]
fn default_render_parameters() {
    let r = RenderParameters::default();
    assert_eq!(r.image_width, 400);
    assert_eq!(r.aspect_ratio, AspectRatio { width: 16, height: 9 });
    assert_eq!(r.samples_per_pixel, 100);
    assert_eq!(r.max_bounces, 50);
    assert_eq!(r.image_height(), 225);
}

#[test]
fn image_height_rounds_down() {
    let mut r = RenderParameters::default();
    r.image_width = 401;
    assert_eq!(r.image_height(), 225);
    r.image_width = 399;
    assert_eq!(r.image_height(), 224);
    r.aspect_ratio = AspectRatio { width: 1, height: 1 };
    assert_eq!(r.image_height(), 399);
}

#[test]
fn image_height_is_at_least_one() {
    let mut r = RenderParameters::default();
    r.image_width = 1;
    assert_eq!(r.image_height(), 1);
    r.image_width = 0;
    assert_eq!(r.image_height(), 1);
}

#[test]
fn image_height_of_largest_sizes() {
    let r = RenderParameters {
        image_width: u32::MAX,
        aspect_ratio: AspectRatio { width: 1, height: u32::MAX },
        samples_per_pixel: 1,
        max_bounces: 1,
    };
    assert_eq!(r.image_height(), (u32::MAX as u64) * (u32::MAX as u64));
}

#[test]
fn default_camera() {
    let c = CameraParameters::default();
    assert_eq!(c.look_at, Triple::whole(0, 0, 0));
    assert_eq!(c.look_from, Triple::whole(1, 1, 0));
    assert_eq!(c.vfov, Ratio::whole(90));
    assert_eq!(c.focus_distance, Ratio::whole(1));
    assert!(!c.uses_defocus());
}

#[test]
fn defocus_only_for_positive_angle() {
    let mut c = CameraParameters::default();
    c.defocus_angle = Ratio::new(6, 10);
    assert!(c.uses_defocus());
    c.defocus_angle = Ratio::new(-1, 2);
    assert!(!c.uses_defocus());
}

#[test]
fn materials_are_shared_by_handle() {
    let mut s = Scene::new(CameraParameters::default(), RenderParameters::default());
    let glass = s.add_material(MaterialSpec::Dielectric { refraction_index: Ratio::new(3, 2) });
    let matte = s.add_material(MaterialSpec::Lambertian { albedo: tenths(5, 5, 5) });
    assert_eq!((glass, matte), (0, 1));
    s.add_sphere(Triple::whole(0, 0, -1), Ratio::new(1, 2), glass);
    s.add_sphere(Triple::whole(0, 1, -1), Ratio::new(1, 2), glass);
    assert_eq!(s.materials().len(), 2);
    assert_eq!(s.spheres().len(), 2);
    assert_eq!(s.spheres()[1].material, glass);
    assert_eq!(s.camera(), CameraParameters::default());
    assert_eq!(s.render_parameters(), RenderParameters::default());
}

#[test]
fn two_sphere_scene() {
    let s = two_sphere();
    let r = Ratio::new(7071067811865476, 10000000000000000);
    let minus_r = Ratio::new(-7071067811865476, 10000000000000000);
    assert_eq!(
        s.materials(),
        &vec![
            MaterialSpec::Lambertian { albedo: Triple::whole(0, 0, 1) },
            MaterialSpec::Lambertian { albedo: Triple::whole(1, 0, 0) },
        ]
    );
    assert_eq!(
        s.spheres(),
        &vec![
            SphereSpec { center: Triple::new(minus_r, Ratio::whole(0), Ratio::whole(-1)), radius: r, material: 0 },
            SphereSpec { center: Triple::new(r, Ratio::whole(0), Ratio::whole(-1)), radius: r, material: 1 },
        ]
    );
    assert_eq!(s.camera().look_from, Triple::whole(-2, 2, 1));
    assert_eq!(s.camera().look_at, Triple::whole(0, 0, -1));
    assert_eq!(s.camera().vfov, Ratio::whole(90));
    assert_eq!(s.render_parameters(), RenderParameters::default());
    assert_eq!(r.num as f64 / r.den as f64, (std::f64::consts::PI / 4.0).cos());
}

#[test]
fn three_sphere_scene() {
    let s = three_sphere();
    assert_eq!(
        s.materials(),
        &vec![
            MaterialSpec::Lambertian { albedo: tenths(8, 8, 0) },
            MaterialSpec::Dielectric { refraction_index: Ratio::new(15, 10) },
            MaterialSpec::Dielectric { refraction_index: Ratio::new(10, 15) },
            MaterialSpec::Lambertian { albedo: tenths(1, 2, 5) },
            MaterialSpec::Metal { albedo: tenths(8, 6, 2), roughness: Ratio::whole(1) },
        ]
    );
    let spheres = s.spheres();
    assert_eq!(spheres.len(), 5);
    assert_eq!(spheres[0], SphereSpec { center: tenths(0, 0, -12), radius: Ratio::new(5, 10), material: 3 });
    assert_eq!(spheres[3], SphereSpec { center: tenths(-10, 0, -10), radius: Ratio::new(4, 10), material: 2 });
    assert_eq!(spheres[4], SphereSpec { center: tenths(0, -1005, -10), radius: Ratio::whole(100), material: 0 });
    assert_eq!(s.camera().vfov, Ratio::whole(20));
    assert!(!s.camera().uses_defocus());
    assert_eq!(s.render_parameters().image_height(), 225);
}
