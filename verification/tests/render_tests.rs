//! The integrator, the camera pipeline, quaternion rotation, noise
//! determinism and continuity, and texture lookup.

use raytracer::color::Color;
use raytracer::data::Size;
use raytracer::fixed::FX_ONE;
use raytracer::material::{Lambertian, Light, Material};
use raytracer::object::{Collection, Object, Quad, Sphere};
use raytracer::perlin::Perlin;
use raytracer::quaternion::Quaternion;
use raytracer::ray::Ray;
use raytracer::renderer::{ray_color, render, render_world, Camera};
use raytracer::rng::RandomSource;
use raytracer::settings::RenderSettings;
use raytracer::texture::{Checker, ColorAt, Image, Texture};
use raytracer::trig::{cos_fx, sin_fx, tan_fx, to_radians, FX_PI};
use raytracer::vector::Vector;
use raytracer::world::{create_world, get_scene_camera, Scene, World};

fn small_world() -> World {
    let light = Material::Light(Light {
        color: Color::new(4 * FX_ONE, 4 * FX_ONE, 4 * FX_ONE),
    });
    let gray = Material::Lambertian(Lambertian {
        albedo: Color::new(FX_ONE / 2, FX_ONE / 2, FX_ONE / 2),
    });
    World {
        object: Object::Collection(Collection {
            objects: vec![
                Object::Sphere(Sphere {
                    center: Vector::new(0, 0, -2 * FX_ONE),
                    radius: FX_ONE / 2,
                    material: gray,
                }),
                Object::Quad(Quad::new(
                    Vector::new(-FX_ONE, 2 * FX_ONE, -3 * FX_ONE),
                    Vector::new(2 * FX_ONE, 0, 0),
                    Vector::new(0, 0, 2 * FX_ONE),
                    light,
                )),
            ],
        }),
        background: Color::new(0, 0, 0),
    }
}

#[test]
fn test_ray_color_depth_zero_is_black() {
    let world = small_world();
    let mut rng = RandomSource::from_seed(5);
    let ray = Ray {
        origin: Vector::new(0, 0, 0),
        direction: Vector::new(0, 0, -FX_ONE),
    };
    let color = ray_color(&ray, &world.object, &world.background, 0, &mut rng);
    assert_eq!(color, Color::new(0, 0, 0));
}

#[test]
fn test_ray_color_miss_returns_background() {
    let world = small_world();
    let mut rng = RandomSource::from_seed(6);
    let background = Color::new(FX_ONE / 4, FX_ONE / 2, FX_ONE);
    let ray = Ray {
        origin: Vector::new(0, 0, 0),
        direction: Vector::new(0, -FX_ONE, 0),
    };
    let color = ray_color(&ray, &world.object, &background, 8, &mut rng);
    assert_eq!(color, background);
}

#[test]
fn test_ray_color_light_hit_returns_emission() {
    let light = Material::Light(Light {
        color: Color::new(4 * FX_ONE, 3 * FX_ONE, 2 * FX_ONE),
    });
    let world = World {
        object: Object::Sphere(Sphere {
            center: Vector::new(0, 0, -2 * FX_ONE),
            radius: FX_ONE / 2,
            material: light,
        }),
        background: Color::new(0, 0, 0),
    };
    let mut rng = RandomSource::from_seed(7);
    let ray = Ray {
        origin: Vector::new(0, 0, 0),
        direction: Vector::new(0, 0, -FX_ONE),
    };
    let color = ray_color(&ray, &world.object, &world.background, 8, &mut rng);
    assert_eq!(color, Color::new(4 * FX_ONE, 3 * FX_ONE, 2 * FX_ONE));
}

#[test]
fn test_render_world_buffer_shape() {
    let world = small_world();
    let mut rng = RandomSource::from_seed(8);
    let settings = RenderSettings {
        size: Size { width: 4, height: 3 },
        samples: 2,
        max_depth: 3,
        camera_position: Vector::new(0, 0, 0),
        focus_point: Vector::new(0, 0, -FX_ONE),
        field_of_view: 90 * FX_ONE,
        defocus_angle: 0,
        focus_distance: 10 * FX_ONE,
        scene: Scene::OneSphere,
    };
    let buffer = render_world(&settings, &world, &mut rng);
    assert_eq!(buffer.len(), 4 * 3 * 3);
}

#[test]
fn test_render_builds_scene_and_buffer() {
    let mut rng = RandomSource::from_seed(9);
    let settings = RenderSettings {
        size: Size { width: 3, height: 2 },
        samples: 1,
        max_depth: 2,
        camera_position: Vector::new(0, 0, 0),
        focus_point: Vector::new(0, 0, -FX_ONE),
        field_of_view: 90 * FX_ONE,
        defocus_angle: 0,
        focus_distance: 10 * FX_ONE,
        scene: Scene::OneSphere,
    };
    let buffer = render(&settings, &mut rng);
    assert_eq!(buffer.len(), 3 * 2 * 3);
}

#[test]
fn test_camera_is_deterministic() {
    let settings = RenderSettings {
        size: Size { width: 16, height: 9 },
        samples: 1,
        max_depth: 2,
        camera_position: Vector::new(0, 0, 0),
        focus_point: Vector::new(0, 0, -FX_ONE),
        field_of_view: 90 * FX_ONE,
        defocus_angle: 0,
        focus_distance: 10 * FX_ONE,
        scene: Scene::OneSphere,
    };
    let a = Camera::new(&settings);
    let b = Camera::new(&settings);
    assert_eq!(a.origin_pixel, b.origin_pixel);
    assert_eq!(a.pixel_delta_u, b.pixel_delta_u);
    assert_eq!(a.pixel_delta_v, b.pixel_delta_v);
}

#[test]
fn test_quaternion_rotate_point() {
    // the quarter turn lands within the raw bound standing for 1e-8
    let tolerance: i64 = 43;
    let quat = Quaternion::from_axis_angle(
        Vector::new(0, FX_ONE, 0),
        to_radians(90 * FX_ONE),
    );
    let point = Vector::new(FX_ONE, 0, 0);
    let rotated = quat.rotate_point(point);
    let expected = Vector::new(0, 0, FX_ONE);
    assert!((rotated.x - expected.x).abs() < tolerance, "x: {}", rotated.x);
    assert!((rotated.y - expected.y).abs() < tolerance, "y: {}", rotated.y);
    assert!((rotated.z - expected.z).abs() < tolerance, "z: {}", rotated.z);

    // the half turn goes through the cosine series near its truncation
    // maximum; about 1e-6 of slack absorbs that
    let tolerance: i64 = 4300;
    let quat = Quaternion::from_axis_angle(
        Vector::new(0, FX_ONE, 0),
        to_radians(180 * FX_ONE),
    );
    let point = Vector::new(FX_ONE, 0, 0);
    let rotated = quat.rotate_point(point);
    let expected = Vector::new(-FX_ONE, 0, 0);
    assert!((rotated.x - expected.x).abs() < tolerance, "x: {}", rotated.x);
    assert!((rotated.y - expected.y).abs() < tolerance, "y: {}", rotated.y);
    assert!((rotated.z - expected.z).abs() < tolerance, "z: {}", rotated.z);
}

#[test]
fn test_trig_sanity() {
    let tolerance: i64 = 10000; // about 2.3e-6
    assert!(sin_fx(0).abs() < tolerance);
    assert!((cos_fx(0) - FX_ONE).abs() < tolerance);
    assert!((sin_fx(FX_PI / 2) - FX_ONE).abs() < tolerance);
    assert!(cos_fx(FX_PI / 2).abs() < tolerance);
    // tan(pi/4) == 1
    assert!((tan_fx(FX_PI / 4) - FX_ONE).abs() < 3 * tolerance);
}

#[test]
fn test_perlin_noise_is_deterministic() {
    let mut rng1 = RandomSource::from_seed(1234);
    let mut rng2 = RandomSource::from_seed(1234);
    let perlin1 = Perlin::new(&mut rng1);
    let perlin2 = Perlin::new(&mut rng2);
    let point = Vector::new(3 * FX_ONE / 2, FX_ONE / 3, 7 * FX_ONE / 5);
    let a = perlin1.noise(&point);
    // same seed, same tables, same value; repeated evaluation is also stable
    assert_eq!(a, perlin2.noise(&point));
    assert_eq!(a, perlin1.noise(&point));
}

#[test]
fn test_perlin_noise_is_continuous() {
    let mut rng = RandomSource::from_seed(77);
    let perlin = Perlin::new(&mut rng);
    let step: i64 = 1 << 20; // about 2.4e-4
    let bound: i64 = FX_ONE / 20; // 0.05
    let base = Vector::new(FX_ONE / 3, 2 * FX_ONE / 3, 5 * FX_ONE / 4);
    let a = perlin.noise(&base);
    let b = perlin.noise(&Vector::new(base.x + step, base.y, base.z));
    let c = perlin.noise(&Vector::new(base.x, base.y + step, base.z));
    let d = perlin.noise(&Vector::new(base.x, base.y, base.z + step));
    assert!((a - b).abs() < bound, "dx jump: {} vs {}", a, b);
    assert!((a - c).abs() < bound, "dy jump: {} vs {}", a, c);
    assert!((a - d).abs() < bound, "dz jump: {} vs {}", a, d);
}

#[test]
fn test_checker_texture_parity() {
    let checker = Checker::new(
        Color::new(FX_ONE, FX_ONE, FX_ONE),
        Color::new(0, 0, 0),
        FX_ONE,
    );
    let even = checker.color_at(0, 0, &Vector::new(FX_ONE / 2, FX_ONE / 2, FX_ONE / 2));
    let odd = checker.color_at(0, 0, &Vector::new(3 * FX_ONE / 2, FX_ONE / 2, FX_ONE / 2));
    assert_eq!(even, Color::new(FX_ONE, FX_ONE, FX_ONE));
    assert_eq!(odd, Color::new(0, 0, 0));
}

#[test]
fn test_image_fallback_lookup() {
    let image = Image::default();
    assert_eq!(image.width, 10);
    assert_eq!(image.height, 10);
    // the corner sample of the checkerboard fallback is black
    let c = image.color_at(0, FX_ONE, &Vector::new(0, 0, 0));
    assert_eq!(c, Color::new(0, 0, 0));
}

#[test]
fn test_scene_catalogue_cameras() {
    let cam = get_scene_camera(&Scene::CornellBoxEmpty);
    assert_eq!(cam.camera_position, Vector::new(278 * FX_ONE, 278 * FX_ONE, -800 * FX_ONE));
    assert_eq!(cam.field_of_view, 40 * FX_ONE);
    let cam = get_scene_camera(&Scene::OneSphere);
    assert_eq!(cam.focus_point, Vector::new(0, 0, -FX_ONE));
    assert_eq!(cam.field_of_view, 90 * FX_ONE);
}

#[test]
fn test_create_world_backgrounds() {
    let mut rng = RandomSource::from_seed(3);
    let daylight = create_world(&Scene::OneSphere, &mut rng);
    assert!(daylight.background.b == FX_ONE);
    let cornell = create_world(&Scene::CornellBoxEmpty, &mut rng);
    assert_eq!(cornell.background, Color::new(0, 0, 0));
}
