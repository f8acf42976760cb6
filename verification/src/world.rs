//! Scene catalogue: the selectable worlds and their starting cameras.

use crate::color::{Color, C3};
use crate::fixed::{fx_div_s, fx_int_s, fx_add, fx_div, fx_mul, fx_neg, fx_of_int, fx_ratio,
    FX_ONE};
use crate::material::{Deflect, Dielectric, Lambertian, Light, Material, Metal, Simple};
use crate::object::{build_cuboid, object_wf, Collection, Object, Quad, Sphere};
use crate::quaternion::Quaternion;
use crate::rng::RandomSource;
use crate::settings::CameraSettings;
use crate::texture::{Image, Noise, Texture};
use crate::trig::{cos_fx, to_radians, FX_HALF, FX_PI};
use crate::vector::{Vector, V3};
use vstd::prelude::*;

verus! {

/// The selectable scenes.
#[derive(Clone, Copy, Debug, PartialEq, Eq, Structural)]
pub enum Scene {
    OneSphere,
    MetalSpheres,
    GlassSpheres,
    ThreeSpheres,
    HollowGlassSphere,
    RedAndBlue,
    ManySpheres,
    Earth,
    TwoPerlinSpheres,
    Quads,
    SimpleLight,
    CornellBoxEmpty,
    CornellBoxTwoBoxes,
}

impl Default for Scene {
    fn default() -> (r: Self)
        ensures
            r == Scene::CornellBoxTwoBoxes,
    {
        Scene::CornellBoxTwoBoxes
    }
}

/// A renderable world: the object tree and the color behind every missed
/// ray.
pub struct World {
    pub object: Object,
    pub background: Color,
}

/// The pale blue sky used behind the daylight scenes.
pub open spec fn sky_s() -> C3 {
    C3 { r: fx_div_s(7, 10), g: fx_div_s(8, 10), b: FX_ONE as int }
}

/// The background each scene is rendered against: black for the emissive
/// scenes, sky for the rest.
pub open spec fn scene_background_s(scene: Scene) -> C3 {
    match scene {
        Scene::SimpleLight => C3 { r: 0, g: 0, b: 0 },
        Scene::CornellBoxEmpty => C3 { r: 0, g: 0, b: 0 },
        Scene::CornellBoxTwoBoxes => C3 { r: 0, g: 0, b: 0 },
        _ => sky_s(),
    }
}

fn sky() -> (c: Color)
    ensures
        c@ == sky_s(),
{
    Color { r: fx_ratio(7, 10), g: fx_ratio(8, 10), b: FX_ONE }
}

/// The camera position each scene starts from.
pub open spec fn scene_camera_position_s(scene: Scene) -> V3 {
    match scene {
        Scene::ManySpheres => V3 { x: fx_int_s(13), y: fx_int_s(2), z: fx_int_s(3) },
        Scene::Earth => V3 { x: 0, y: 0, z: fx_int_s(12) },
        Scene::TwoPerlinSpheres => V3 { x: fx_int_s(13), y: fx_int_s(2), z: fx_int_s(3) },
        Scene::Quads => V3 { x: 0, y: 0, z: fx_int_s(9) },
        Scene::SimpleLight => V3 { x: fx_int_s(26), y: fx_int_s(3), z: fx_int_s(6) },
        Scene::CornellBoxEmpty => V3 { x: fx_int_s(278), y: fx_int_s(278), z: fx_int_s(-800) },
        Scene::CornellBoxTwoBoxes => V3 { x: fx_int_s(278), y: fx_int_s(278), z: fx_int_s(-800) },
        _ => V3 { x: 0, y: 0, z: 0 },
    }
}

/// The focus point each scene starts from.
pub open spec fn scene_focus_point_s(scene: Scene) -> V3 {
    match scene {
        Scene::ManySpheres => V3 { x: 0, y: 0, z: 0 },
        Scene::Earth => V3 { x: 0, y: 0, z: 0 },
        Scene::TwoPerlinSpheres => V3 { x: 0, y: 0, z: 0 },
        Scene::Quads => V3 { x: 0, y: 0, z: 0 },
        Scene::SimpleLight => V3 { x: 0, y: fx_int_s(2), z: 0 },
        Scene::CornellBoxEmpty => V3 { x: fx_int_s(278), y: fx_int_s(278), z: 0 },
        Scene::CornellBoxTwoBoxes => V3 { x: fx_int_s(278), y: fx_int_s(278), z: 0 },
        _ => V3 { x: 0, y: 0, z: fx_int_s(-1) },
    }
}

/// The vertical field of view, in degrees, each scene starts from.
pub open spec fn scene_field_of_view_s(scene: Scene) -> int {
    match scene {
        Scene::ManySpheres => fx_int_s(20),
        Scene::Earth => fx_int_s(20),
        Scene::TwoPerlinSpheres => fx_int_s(20),
        Scene::Quads => fx_int_s(80),
        Scene::SimpleLight => fx_int_s(20),
        Scene::CornellBoxEmpty => fx_int_s(40),
        Scene::CornellBoxTwoBoxes => fx_int_s(40),
        _ => fx_int_s(90),
    }
}

/// The starting camera of a scene.
pub fn get_scene_camera(scene: &Scene) -> (r: CameraSettings)
    ensures
        r.camera_position@ == scene_camera_position_s(*scene),
        r.focus_point@ == scene_focus_point_s(*scene),
        r.field_of_view as int == scene_field_of_view_s(*scene),
{
    match scene {
        Scene::ManySpheres => CameraSettings {
            camera_position: Vector { x: fx_of_int(13), y: fx_of_int(2), z: fx_of_int(3) },
            focus_point: Vector { x: 0, y: 0, z: 0 },
            field_of_view: fx_of_int(20),
        },
        Scene::Earth => CameraSettings {
            camera_position: Vector { x: 0, y: 0, z: fx_of_int(12) },
            focus_point: Vector { x: 0, y: 0, z: 0 },
            field_of_view: fx_of_int(20),
        },
        Scene::TwoPerlinSpheres => CameraSettings {
            camera_position: Vector { x: fx_of_int(13), y: fx_of_int(2), z: fx_of_int(3) },
            focus_point: Vector { x: 0, y: 0, z: 0 },
            field_of_view: fx_of_int(20),
        },
        Scene::Quads => CameraSettings {
            camera_position: Vector { x: 0, y: 0, z: fx_of_int(9) },
            focus_point: Vector { x: 0, y: 0, z: 0 },
            field_of_view: fx_of_int(80),
        },
        Scene::SimpleLight => CameraSettings {
            camera_position: Vector { x: fx_of_int(26), y: fx_of_int(3), z: fx_of_int(6) },
            focus_point: Vector { x: 0, y: fx_of_int(2), z: 0 },
            field_of_view: fx_of_int(20),
        },
        Scene::CornellBoxEmpty => CameraSettings {
            camera_position: Vector {
                x: fx_of_int(278),
                y: fx_of_int(278),
                z: fx_of_int(-800),
            },
            focus_point: Vector { x: fx_of_int(278), y: fx_of_int(278), z: 0 },
            field_of_view: fx_of_int(40),
        },
        Scene::CornellBoxTwoBoxes => CameraSettings {
            camera_position: Vector {
                x: fx_of_int(278),
                y: fx_of_int(278),
                z: fx_of_int(-800),
            },
            focus_point: Vector { x: fx_of_int(278), y: fx_of_int(278), z: 0 },
            field_of_view: fx_of_int(40),
        },
        _ => CameraSettings {
            camera_position: Vector { x: 0, y: 0, z: 0 },
            focus_point: Vector { x: 0, y: 0, z: fx_of_int(-1) },
            field_of_view: fx_of_int(90),
        },
    }
}

/// Build the chosen scene. Every object in the result is well formed, and
/// the background matches the scene's catalogue entry.
pub fn create_world(scene: &Scene, rng: &mut RandomSource) -> (r: World)
    ensures
        object_wf(r.object),
        r.background@ == scene_background_s(*scene),
{
    match scene {
        Scene::OneSphere => create_scene_one_sphere(),
        Scene::MetalSpheres => create_scene_metal_spheres(),
        Scene::GlassSpheres => create_scene_glass_spheres(),
        Scene::ThreeSpheres => create_scene_three_spheres(),
        Scene::HollowGlassSphere => create_scene_hollow_glass_sphere(),
        Scene::RedAndBlue => create_scene_red_and_blue(),
        Scene::ManySpheres => create_scene_many_spheres(rng),
        Scene::Earth => create_scene_earth(Image::fallback()),
        Scene::TwoPerlinSpheres => create_scene_two_perlin_spheres(rng),
        Scene::Quads => create_scene_quads(),
        Scene::SimpleLight => create_scene_simple_light(rng),
        Scene::CornellBoxEmpty => create_scene_cornell_box_empty(),
        Scene::CornellBoxTwoBoxes => create_scene_cornell_box_two_boxes(),
    }
}

fn lambertian(r: i64, g: i64, b: i64) -> (m: Material)
    ensures
        m.deflect_wf(),
        m == Material::Lambertian(Lambertian { albedo: Color { r, g, b } }),
{
    Material::Lambertian(Lambertian { albedo: Color { r, g, b } })
}

/// Two diffuse spheres: the subject and the ground below it.
pub fn create_scene_one_sphere() -> (r: World)
    ensures
        object_wf(r.object),
        r.object matches Object::Collection(c) && c.objects@.len() == 2,
        r.background@ == sky_s(),
{
    let mut objects: Vec<Object> = Vec::new();
    objects.push(
        Object::Sphere(
            Sphere {
                center: Vector { x: 0, y: 0, z: fx_of_int(-1) },
                radius: fx_ratio(1, 2),
                material: lambertian(fx_ratio(1, 10), fx_ratio(2, 10), fx_ratio(5, 10)),
            },
        ),
    );
    objects.push(
        Object::Sphere(
            Sphere {
                center: Vector { x: 0, y: fx_ratio(-201, 2), z: fx_of_int(-1) },
                radius: fx_of_int(100),
                material: lambertian(fx_ratio(1, 10), fx_ratio(2, 10), fx_ratio(5, 10)),
            },
        ),
    );
    proof {
        assert forall|i: int| 0 <= i < objects@.len() implies object_wf(
            #[trigger] objects@[i],
        ) by {}
    }
    World { object: Object::Collection(Collection { objects }), background: sky() }
}

/// The classic ground, center, and two metal spheres.
pub fn create_scene_metal_spheres() -> (r: World)
    ensures
        object_wf(r.object),
        r.object matches Object::Collection(c) && c.objects@.len() == 4,
        r.background@ == sky_s(),
{
    let mut objects: Vec<Object> = Vec::new();
    objects.push(
        Object::Sphere(
            Sphere {
                center: Vector { x: 0, y: fx_ratio(-201, 2), z: fx_of_int(-1) },
                radius: fx_of_int(100),
                material: lambertian(fx_ratio(8, 10), fx_ratio(8, 10), 0),
            },
        ),
    );
    objects.push(
        Object::Sphere(
            Sphere {
                center: Vector { x: 0, y: 0, z: fx_of_int(-1) },
                radius: fx_ratio(1, 2),
                material: lambertian(fx_ratio(7, 10), fx_ratio(3, 10), fx_ratio(3, 10)),
            },
        ),
    );
    objects.push(
        Object::Sphere(
            Sphere {
                center: Vector { x: fx_of_int(-1), y: 0, z: fx_of_int(-1) },
                radius: fx_ratio(1, 2),
                material: Material::Metal(
                    Metal {
                        albedo: Color {
                            r: fx_ratio(8, 10),
                            g: fx_ratio(8, 10),
                            b: fx_ratio(8, 10),
                        },
                        fuzz: fx_ratio(3, 10),
                    },
                ),
            },
        ),
    );
    objects.push(
        Object::Sphere(
            Sphere {
                center: Vector { x: fx_of_int(1), y: 0, z: fx_of_int(-1) },
                radius: fx_ratio(1, 2),
                material: Material::Metal(
                    Metal {
                        albedo: Color {
                            r: fx_ratio(8, 10),
                            g: fx_ratio(6, 10),
                            b: fx_ratio(2, 10),
                        },
                        fuzz: FX_ONE,
                    },
                ),
            },
        ),
    );
    proof {
        assert forall|i: int| 0 <= i < objects@.len() implies object_wf(
            #[trigger] objects@[i],
        ) by {}
    }
    World { object: Object::Collection(Collection { objects }), background: sky() }
}

/// Ground with two glass spheres and one fuzzy metal sphere.
pub fn create_scene_glass_spheres() -> (r: World)
    ensures
        object_wf(r.object),
        r.object matches Object::Collection(c) && c.objects@.len() == 4,
        r.background@ == sky_s(),
{
    let mut objects: Vec<Object> = Vec::new();
    objects.push(
        Object::Sphere(
            Sphere {
                center: Vector { x: 0, y: fx_ratio(-201, 2), z: fx_of_int(-1) },
                radius: fx_of_int(100),
                material: lambertian(fx_ratio(8, 10), fx_ratio(8, 10), 0),
            },
        ),
    );
    objects.push(
        Object::Sphere(
            Sphere {
                center: Vector { x: 0, y: 0, z: fx_of_int(-1) },
                radius: fx_ratio(1, 2),
                material: Material::Dielectric(Dielectric { refraction_index: fx_ratio(3, 2) }),
            },
        ),
    );
    objects.push(
        Object::Sphere(
            Sphere {
                center: Vector { x: fx_of_int(-1), y: 0, z: fx_of_int(-1) },
                radius: fx_ratio(1, 2),
                material: Material::Dielectric(Dielectric { refraction_index: fx_ratio(3, 2) }),
            },
        ),
    );
    objects.push(
        Object::Sphere(
            Sphere {
                center: Vector { x: fx_of_int(1), y: 0, z: fx_of_int(-1) },
                radius: fx_ratio(1, 2),
                material: Material::Metal(
                    Metal {
                        albedo: Color {
                            r: fx_ratio(8, 10),
                            g: fx_ratio(6, 10),
                            b: fx_ratio(2, 10),
                        },
                        fuzz: FX_ONE,
                    },
                ),
            },
        ),
    );
    proof {
        assert forall|i: int| 0 <= i < objects@.len() implies object_wf(
            #[trigger] objects@[i],
        ) by {}
    }
    World { object: Object::Collection(Collection { objects }), background: sky() }
}

/// Ground, a diffuse center sphere, one glass and one polished metal sphere.
pub fn create_scene_three_spheres() -> (r: World)
    ensures
        object_wf(r.object),
        r.object matches Object::Collection(c) && c.objects@.len() == 4,
        r.background@ == sky_s(),
{
    let mut objects: Vec<Object> = Vec::new();
    objects.push(
        Object::Sphere(
            Sphere {
                center: Vector { x: 0, y: fx_ratio(-201, 2), z: fx_of_int(-1) },
                radius: fx_of_int(100),
                material: lambertian(fx_ratio(8, 10), fx_ratio(8, 10), 0),
            },
        ),
    );
    objects.push(
        Object::Sphere(
            Sphere {
                center: Vector { x: 0, y: 0, z: fx_of_int(-1) },
                radius: fx_ratio(1, 2),
                material: lambertian(fx_ratio(1, 10), fx_ratio(2, 10), fx_ratio(5, 10)),
            },
        ),
    );
    objects.push(
        Object::Sphere(
            Sphere {
                center: Vector { x: fx_of_int(-1), y: 0, z: fx_of_int(-1) },
                radius: fx_ratio(1, 2),
                material: Material::Dielectric(Dielectric { refraction_index: fx_ratio(3, 2) }),
            },
        ),
    );
    objects.push(
        Object::Sphere(
            Sphere {
                center: Vector { x: fx_of_int(1), y: 0, z: fx_of_int(-1) },
                radius: fx_ratio(1, 2),
                material: Material::Metal(
                    Metal {
                        albedo: Color {
                            r: fx_ratio(8, 10),
                            g: fx_ratio(6, 10),
                            b: fx_ratio(2, 10),
                        },
                        fuzz: 0,
                    },
                ),
            },
        ),
    );
    proof {
        assert forall|i: int| 0 <= i < objects@.len() implies object_wf(
            #[trigger] objects@[i],
        ) by {}
    }
    World { object: Object::Collection(Collection { objects }), background: sky() }
}

/// As the three-sphere scene, with the glass sphere hollowed out by a
/// negative-radius inner shell.
pub fn create_scene_hollow_glass_sphere() -> (r: World)
    ensures
        object_wf(r.object),
        r.object matches Object::Collection(c) && c.objects@.len() == 5,
        r.background@ == sky_s(),
{
    let mut objects: Vec<Object> = Vec::new();
    objects.push(
        Object::Sphere(
            Sphere {
                center: Vector { x: 0, y: fx_ratio(-201, 2), z: fx_of_int(-1) },
                radius: fx_of_int(100),
                material: lambertian(fx_ratio(8, 10), fx_ratio(8, 10), 0),
            },
        ),
    );
    objects.push(
        Object::Sphere(
            Sphere {
                center: Vector { x: 0, y: 0, z: fx_of_int(-1) },
                radius: fx_ratio(1, 2),
                material: lambertian(fx_ratio(1, 10), fx_ratio(2, 10), fx_ratio(5, 10)),
            },
        ),
    );
    objects.push(
        Object::Sphere(
            Sphere {
                center: Vector { x: fx_of_int(-1), y: 0, z: fx_of_int(-1) },
                radius: fx_ratio(1, 2),
                material: Material::Dielectric(Dielectric { refraction_index: fx_ratio(3, 2) }),
            },
        ),
    );
    objects.push(
        Object::Sphere(
            Sphere {
                center: Vector { x: fx_of_int(-1), y: 0, z: fx_of_int(-1) },
                radius: fx_ratio(-2, 5),
                material: Material::Dielectric(Dielectric { refraction_index: fx_ratio(3, 2) }),
            },
        ),
    );
    objects.push(
        Object::Sphere(
            Sphere {
                center: Vector { x: fx_of_int(1), y: 0, z: fx_of_int(-1) },
                radius: fx_ratio(1, 2),
                material: Material::Metal(
                    Metal {
                        albedo: Color {
                            r: fx_ratio(8, 10),
                            g: fx_ratio(6, 10),
                            b: fx_ratio(2, 10),
                        },
                        fuzz: 0,
                    },
                ),
            },
        ),
    );
    proof {
        assert forall|i: int| 0 <= i < objects@.len() implies object_wf(
            #[trigger] objects@[i],
        ) by {}
    }
    World { object: Object::Collection(Collection { objects }), background: sky() }
}

/// Two touching spheres, one blue and one red, sized by the cosine of a
/// quarter turn.
pub fn create_scene_red_and_blue() -> (r: World)
    ensures
        object_wf(r.object),
        r.object matches Object::Collection(c) && c.objects@.len() == 2,
        r.background@ == sky_s(),
{
    let radius: i64 = cos_fx(fx_div(FX_PI, fx_of_int(4)));
    let mut objects: Vec<Object> = Vec::new();
    objects.push(
        Object::Sphere(
            Sphere {
                center: Vector { x: fx_neg(radius), y: 0, z: fx_of_int(-1) },
                radius,
                material: lambertian(0, 0, FX_ONE),
            },
        ),
    );
    objects.push(
        Object::Sphere(
            Sphere {
                center: Vector { x: radius, y: 0, z: fx_of_int(-1) },
                radius,
                material: lambertian(FX_ONE, 0, 0),
            },
        ),
    );
    proof {
        assert forall|i: int| 0 <= i < objects@.len() implies object_wf(
            #[trigger] objects@[i],
        ) by {}
    }
    World { object: Object::Collection(Collection { objects }), background: sky() }
}

/// The large random field: a ground sphere, a grid of small random spheres,
/// and three showcase spheres.
pub fn create_scene_many_spheres(rng: &mut RandomSource) -> (r: World)
    ensures
        object_wf(r.object),
        r.object matches Object::Collection(c) && c.objects@.len() >= 4,
        r.background@ == sky_s(),
{
    let mut objects: Vec<Object> = Vec::new();
    objects.push(
        Object::Sphere(
            Sphere {
                center: Vector { x: 0, y: fx_of_int(-1000), z: 0 },
                radius: fx_of_int(1000),
                material: lambertian(fx_ratio(1, 2), fx_ratio(1, 2), fx_ratio(1, 2)),
            },
        ),
    );

    let mut a: i64 = -11;
    while a < 11
        invariant
            forall|i: int| 0 <= i < objects@.len() ==> object_wf(#[trigger] objects@[i]),
            objects@.len() >= 1,
            -11 <= a <= 11,
        decreases 11 - a,
    {
        let mut b: i64 = -11;
        while b < 11
            invariant
                forall|i: int| 0 <= i < objects@.len() ==> object_wf(#[trigger] objects@[i]),
                objects@.len() >= 1,
                -11 <= b <= 11,
                -11 <= a < 11,
            decreases 11 - b,
        {
            let choose_mat: i64 = rng.next_in_range(0, FX_ONE);
            let jitter_x: i64 = fx_mul(fx_ratio(9, 10), rng.next_in_range(0, FX_ONE));
            let jitter_z: i64 = fx_mul(fx_ratio(9, 10), rng.next_in_range(0, FX_ONE));
            let center = Vector {
                x: fx_add(fx_of_int(a), jitter_x),
                y: fx_ratio(1, 5),
                z: fx_add(fx_of_int(b), jitter_z),
            };
            let anchor = Vector { x: fx_of_int(4), y: fx_ratio(1, 5), z: 0 };
            if center.sub(anchor).length() > fx_ratio(9, 10) {
                if choose_mat < fx_ratio(65, 100) {
                    let albedo = Color::random(rng).mul(Color::random(rng));
                    objects.push(
                        Object::Sphere(
                            Sphere {
                                center,
                                radius: fx_ratio(1, 5),
                                material: Material::Lambertian(Lambertian { albedo }),
                            },
                        ),
                    );
                } else if choose_mat < fx_ratio(80, 100) {
                    let albedo = Color::random_with_range(rng, FX_HALF, FX_ONE);
                    let fuzz: i64 = fx_mul(rng.next_in_range(0, FX_ONE), fx_ratio(1, 2));
                    objects.push(
                        Object::Sphere(
                            Sphere {
                                center,
                                radius: fx_ratio(1, 5),
                                material: Material::Metal(Metal { albedo, fuzz }),
                            },
                        ),
                    );
                } else {
                    objects.push(
                        Object::Sphere(
                            Sphere {
                                center,
                                radius: fx_ratio(1, 5),
                                material: Material::Dielectric(
                                    Dielectric { refraction_index: fx_ratio(3, 2) },
                                ),
                            },
                        ),
                    );
                }
            }
            b = b + 1;
        }
        a = a + 1;
    }

    objects.push(
        Object::Sphere(
            Sphere {
                center: Vector { x: 0, y: fx_of_int(1), z: 0 },
                radius: fx_of_int(1),
                material: Material::Dielectric(Dielectric { refraction_index: fx_ratio(3, 2) }),
            },
        ),
    );
    objects.push(
        Object::Sphere(
            Sphere {
                center: Vector { x: fx_of_int(-4), y: fx_of_int(1), z: 0 },
                radius: fx_of_int(1),
                material: lambertian(fx_ratio(4, 10), fx_ratio(2, 10), fx_ratio(1, 10)),
            },
        ),
    );
    objects.push(
        Object::Sphere(
            Sphere {
                center: Vector { x: fx_of_int(4), y: fx_of_int(1), z: 0 },
                radius: fx_of_int(1),
                material: Material::Metal(
                    Metal {
                        albedo: Color {
                            r: fx_ratio(7, 10),
                            g: fx_ratio(6, 10),
                            b: fx_ratio(5, 10),
                        },
                        fuzz: 0,
                    },
                ),
            },
        ),
    );
    proof {
        assert forall|i: int| 0 <= i < objects@.len() implies object_wf(
            #[trigger] objects@[i],
        ) by {}
    }
    World { object: Object::Collection(Collection { objects }), background: sky() }
}

/// A single textured globe. The raster is supplied by the caller, so a real
/// asset can be used where one can be loaded and the checkerboard fallback
/// elsewhere.
pub fn create_scene_earth(earth: Image) -> (r: World)
    requires
        earth.wf(),
    ensures
        object_wf(r.object),
        r.object matches Object::Sphere(_),
        r.background@ == sky_s(),
{
    let earth_material = Material::Simple(Simple { texture: Texture::Image(earth) });
    let object = Object::Sphere(
        Sphere {
            center: Vector { x: 0, y: 0, z: fx_of_int(-12) },
            radius: fx_of_int(2),
            material: earth_material,
        },
    );
    World { object, background: sky() }
}

/// Two spheres sharing one gradient-noise texture.
pub fn create_scene_two_perlin_spheres(rng: &mut RandomSource) -> (r: World)
    ensures
        object_wf(r.object),
        r.object matches Object::Collection(c) && c.objects@.len() == 2,
        r.background@ == sky_s(),
{
    let perlin_texture = Texture::Noise(Noise::new(fx_of_int(4), rng));
    let mut objects: Vec<Object> = Vec::new();
    objects.push(
        Object::Sphere(
            Sphere {
                center: Vector { x: 0, y: fx_of_int(-1000), z: 0 },
                radius: fx_of_int(1000),
                material: Material::Simple(Simple { texture: perlin_texture.duplicate() }),
            },
        ),
    );
    objects.push(
        Object::Sphere(
            Sphere {
                center: Vector { x: 0, y: fx_of_int(2), z: 0 },
                radius: fx_of_int(2),
                material: Material::Simple(Simple { texture: perlin_texture }),
            },
        ),
    );
    proof {
        assert forall|i: int| 0 <= i < objects@.len() implies object_wf(
            #[trigger] objects@[i],
        ) by {}
    }
    World { object: Object::Collection(Collection { objects }), background: sky() }
}

fn quad_color(r: i64, g: i64, b: i64) -> (m: Material)
    ensures
        m.deflect_wf(),
{
    Material::Lambertian(Lambertian { albedo: Color { r, g, b } })
}

/// Five colored quads facing the camera.
pub fn create_scene_quads() -> (r: World)
    ensures
        object_wf(r.object),
        r.object matches Object::Collection(c) && c.objects@.len() == 5,
        r.background@ == sky_s(),
{
    let mut objects: Vec<Object> = Vec::new();
    objects.push(
        Object::Quad(
            Quad::new(
                Vector { x: fx_of_int(-3), y: fx_of_int(-2), z: fx_of_int(5) },
                Vector { x: 0, y: 0, z: fx_of_int(-4) },
                Vector { x: 0, y: fx_of_int(4), z: 0 },
                quad_color(FX_ONE, fx_ratio(2, 10), fx_ratio(2, 10)),
            ),
        ),
    );
    objects.push(
        Object::Quad(
            Quad::new(
                Vector { x: fx_of_int(-2), y: fx_of_int(-2), z: 0 },
                Vector { x: fx_of_int(4), y: 0, z: 0 },
                Vector { x: 0, y: fx_of_int(4), z: 0 },
                quad_color(fx_ratio(2, 10), FX_ONE, fx_ratio(2, 10)),
            ),
        ),
    );
    objects.push(
        Object::Quad(
            Quad::new(
                Vector { x: fx_of_int(3), y: fx_of_int(-2), z: fx_of_int(1) },
                Vector { x: 0, y: 0, z: fx_of_int(4) },
                Vector { x: 0, y: fx_of_int(4), z: 0 },
                quad_color(fx_ratio(2, 10), fx_ratio(2, 10), FX_ONE),
            ),
        ),
    );
    objects.push(
        Object::Quad(
            Quad::new(
                Vector { x: fx_of_int(-2), y: fx_of_int(3), z: fx_of_int(1) },
                Vector { x: fx_of_int(4), y: 0, z: 0 },
                Vector { x: 0, y: 0, z: fx_of_int(4) },
                quad_color(FX_ONE, fx_ratio(5, 10), 0),
            ),
        ),
    );
    objects.push(
        Object::Quad(
            Quad::new(
                Vector { x: fx_of_int(-2), y: fx_of_int(-3), z: fx_of_int(5) },
                Vector { x: fx_of_int(4), y: 0, z: 0 },
                Vector { x: 0, y: 0, z: fx_of_int(-4) },
                quad_color(fx_ratio(2, 10), fx_ratio(8, 10), fx_ratio(8, 10)),
            ),
        ),
    );
    proof {
        assert forall|i: int| 0 <= i < objects@.len() implies object_wf(
            #[trigger] objects@[i],
        ) by {}
    }
    World { object: Object::Collection(Collection { objects }), background: sky() }
}

/// Two noise spheres lit by one rectangular lamp, on a black background.
pub fn create_scene_simple_light(rng: &mut RandomSource) -> (r: World)
    ensures
        object_wf(r.object),
        r.object matches Object::Collection(c) && c.objects@.len() == 3,
        r.background@ == (C3 { r: 0, g: 0, b: 0 }),
{
    let perlin_texture = Texture::Noise(Noise::new(fx_of_int(4), rng));
    let mut objects: Vec<Object> = Vec::new();
    objects.push(
        Object::Sphere(
            Sphere {
                center: Vector { x: 0, y: fx_of_int(-1000), z: 0 },
                radius: fx_of_int(1000),
                material: Material::Simple(Simple { texture: perlin_texture.duplicate() }),
            },
        ),
    );
    objects.push(
        Object::Sphere(
            Sphere {
                center: Vector { x: 0, y: fx_of_int(2), z: 0 },
                radius: fx_of_int(2),
                material: Material::Simple(Simple { texture: perlin_texture }),
            },
        ),
    );
    objects.push(
        Object::Quad(
            Quad::new(
                Vector { x: fx_of_int(3), y: fx_of_int(1), z: fx_of_int(-2) },
                Vector { x: fx_of_int(2), y: 0, z: 0 },
                Vector { x: 0, y: fx_of_int(2), z: 0 },
                Material::Light(
                    Light {
                        color: Color { r: fx_of_int(4), g: fx_of_int(4), b: fx_of_int(4) },
                    },
                ),
            ),
        ),
    );
    proof {
        assert forall|i: int| 0 <= i < objects@.len() implies object_wf(
            #[trigger] objects@[i],
        ) by {}
    }
    World { object: Object::Collection(Collection { objects }), background: Color::black() }
}

fn cornell_walls(objects: &mut Vec<Object>)
    requires
        forall|i: int| 0 <= i < old(objects)@.len() ==> object_wf(#[trigger] old(objects)@[i]),
    ensures
        forall|i: int| 0 <= i < final(objects)@.len() ==> object_wf(#[trigger] final(objects)@[i]),
        final(objects)@.len() == old(objects)@.len() + 6,
{
    objects.push(
        Object::Quad(
            Quad::new(
                Vector { x: fx_of_int(555), y: 0, z: 0 },
                Vector { x: 0, y: fx_of_int(555), z: 0 },
                Vector { x: 0, y: 0, z: fx_of_int(555) },
                quad_color(fx_ratio(12, 100), fx_ratio(45, 100), fx_ratio(15, 100)),
            ),
        ),
    );
    objects.push(
        Object::Quad(
            Quad::new(
                Vector { x: 0, y: 0, z: 0 },
                Vector { x: 0, y: fx_of_int(555), z: 0 },
                Vector { x: 0, y: 0, z: fx_of_int(555) },
                quad_color(fx_ratio(65, 100), fx_ratio(5, 100), fx_ratio(5, 100)),
            ),
        ),
    );
    objects.push(
        Object::Quad(
            Quad::new(
                Vector { x: fx_of_int(343), y: fx_of_int(554), z: fx_of_int(332) },
                Vector { x: fx_of_int(-130), y: 0, z: 0 },
                Vector { x: 0, y: 0, z: fx_of_int(-105) },
                Material::Light(
                    Light {
                        color: Color { r: fx_of_int(15), g: fx_of_int(15), b: fx_of_int(15) },
                    },
                ),
            ),
        ),
    );
    objects.push(
        Object::Quad(
            Quad::new(
                Vector { x: 0, y: 0, z: 0 },
                Vector { x: fx_of_int(555), y: 0, z: 0 },
                Vector { x: 0, y: 0, z: fx_of_int(555) },
                quad_color(fx_ratio(73, 100), fx_ratio(73, 100), fx_ratio(73, 100)),
            ),
        ),
    );
    objects.push(
        Object::Quad(
            Quad::new(
                Vector { x: fx_of_int(555), y: fx_of_int(555), z: fx_of_int(555) },
                Vector { x: fx_of_int(-555), y: 0, z: 0 },
                Vector { x: 0, y: 0, z: fx_of_int(-555) },
                quad_color(fx_ratio(73, 100), fx_ratio(73, 100), fx_ratio(73, 100)),
            ),
        ),
    );
    objects.push(
        Object::Quad(
            Quad::new(
                Vector { x: 0, y: 0, z: fx_of_int(555) },
                Vector { x: fx_of_int(555), y: 0, z: 0 },
                Vector { x: 0, y: fx_of_int(555), z: 0 },
                quad_color(fx_ratio(73, 100), fx_ratio(73, 100), fx_ratio(73, 100)),
            ),
        ),
    );
}

/// The Cornell box without contents: five white/red/green walls and a lamp.
pub fn create_scene_cornell_box_empty() -> (r: World)
    ensures
        object_wf(r.object),
        r.object matches Object::Collection(c) && c.objects@.len() == 6,
        r.background@ == (C3 { r: 0, g: 0, b: 0 }),
{
    let mut objects: Vec<Object> = Vec::new();
    cornell_walls(&mut objects);
    proof {
        assert forall|i: int| 0 <= i < objects@.len() implies object_wf(
            #[trigger] objects@[i],
        ) by {}
    }
    World { object: Object::Collection(Collection { objects }), background: Color::black() }
}

/// The Cornell box with one rotated white box inside it.
pub fn create_scene_cornell_box_two_boxes() -> (r: World)
    ensures
        object_wf(r.object),
        r.object matches Object::Collection(c) && c.objects@.len() == 12,
        r.background@ == (C3 { r: 0, g: 0, b: 0 }),
{
    let mut objects: Vec<Object> = Vec::new();
    cornell_walls(&mut objects);

    let white = quad_color(fx_ratio(73, 100), fx_ratio(73, 100), fx_ratio(73, 100));
    let quat = Quaternion::from_axis_angle(
        Vector { x: 0, y: FX_ONE, z: 0 },
        to_radians(fx_of_int(30)),
    );
    let faces = build_cuboid(
        Vector { x: fx_of_int(265), y: 0, z: fx_of_int(295) },
        Vector { x: fx_of_int(430), y: fx_of_int(330), z: fx_of_int(460) },
        quat,
        white,
    );
    let mut i: usize = 0;
    while i < faces.len()
        invariant
            forall|j: int| 0 <= j < objects@.len() ==> object_wf(#[trigger] objects@[j]),
            forall|j: int|
                0 <= j < faces@.len() ==> (#[trigger] faces@[j]).material.deflect_wf(),
            i <= faces.len(),
            faces@.len() == 6,
            objects@.len() == 6 + i,
        decreases faces.len() - i,
    {
        let q = faces[i].duplicate();
        objects.push(Object::Quad(q));
        i = i + 1;
    }
    proof {
        assert forall|i: int| 0 <= i < objects@.len() implies object_wf(
            #[trigger] objects@[i],
        ) by {}
    }
    World { object: Object::Collection(Collection { objects }), background: Color::black() }
}

} // verus!
