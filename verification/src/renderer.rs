//! Camera construction, per-pixel stochastic sampling and the recursive
//! light-transport integrator.

use crate::color::{c_add, c_average, c_black, c_mul, channel_to_byte, Clamp, Color, GammaCorrect, C3};
use crate::fixed::{fx_add, fx_clamp_s, fx_div, fx_div_s, fx_int_s, fx_mul, fx_mul_s, fx_neg,
    fx_of_int, fx_sqrt_s, FX_ONE};
use crate::material::{Deflect, Emit};
use crate::object::{collection_hit_s, object_hit_s, object_wf, Object};
use crate::ray::Ray;
use crate::rng::RandomSource;
use crate::settings::RenderSettings;
use crate::trig::{tan_fx, tan_s, to_radians, to_radians_s, FX_HALF};
use crate::vector::{
    v_add, v_cross, v_div, v_length, v_length_squared, v_neg, v_normalize, v_scale, v_sub, Point,
    Vector, V3,
};
use crate::world::World;
use vstd::prelude::*;

verus! {

/// Lower bound of the hit interval: the fixed-point value standing for
/// 0.001, which keeps a scattered ray from immediately re-hitting its own
/// surface.
pub const RAY_T_MIN: i64 = 4294967;

/// A hit found in a well-formed object tree carries a well-formed material.
pub proof fn lemma_object_hit_material_wf(o: Object, ray: Ray, t_min: int, t_max: int)
    requires
        object_wf(o),
    ensures
        object_hit_s(o, ray, t_min, t_max) matches Some(h) ==> h.material.deflect_wf(),
    decreases o, 0int, 1int,
{
    match o {
        Object::Sphere(s) => {},
        Object::Quad(q) => {},
        Object::Collection(c) => {
            lemma_collection_hit_material_wf(
                c.objects@,
                ray,
                t_min,
                t_max,
                c.objects@.len() as int,
            );
        },
    }
}

pub proof fn lemma_collection_hit_material_wf(
    objects: Seq<Object>,
    ray: Ray,
    t_min: int,
    t_max: int,
    n: int,
)
    requires
        forall|i: int| 0 <= i < objects.len() ==> object_wf(#[trigger] objects[i]),
    ensures
        collection_hit_s(objects, ray, t_min, t_max, n) matches Some(h)
            ==> h.material.deflect_wf(),
    decreases objects, n, 0int,
{
    if n <= 0 || objects.len() < n {
    } else {
        lemma_collection_hit_material_wf(objects, ray, t_min, t_max, n - 1);
        lemma_object_hit_material_wf(objects[n - 1], ray, t_min, t_max);
    }
}

/// The outcomes the radiance estimate can take for a ray: black on an
/// exhausted depth budget; the background on a miss; exactly the emission
/// on a hit whose material never deflects; and otherwise the emission plus
/// the attenuated radiance of some scattered ray leaving the hit point,
/// itself a possible radiance outcome at one less depth.
#[verifier::opaque]
pub open spec fn possible_radiance_s(
    obj: Object,
    background: C3,
    depth: int,
    ray: Ray,
    c: C3,
) -> bool
    decreases depth,
{
    &&& depth == 0 ==> c == c_black()
    &&& depth > 0 && object_hit_s(obj, ray, RAY_T_MIN as int, i64::MAX as int) is None ==> c
        == background
    &&& depth > 0 ==> (object_hit_s(obj, ray, RAY_T_MIN as int, i64::MAX as int) matches Some(h)
        ==> {
        &&& !h.material.deflects() ==> c == h.material.emit_spec(h.u, h.v, h.point)
        &&& h.material.deflects() ==> exists|rest: C3, scattered: Ray|
            #![auto]
            {
                &&& scattered.origin@ == h.point
                &&& possible_radiance_s(obj, background, depth - 1, scattered, rest)
                &&& c == c_add(
                    h.material.emit_spec(h.u, h.v, h.point),
                    c_mul(h.material.attenuation_spec(h.u, h.v, h.point), rest),
                )
            }
    })
}

/// The recursive path-tracing estimate of the radiance arriving along a
/// ray. The result is one of the outcomes `possible_radiance_s` spells out;
/// in particular an exhausted depth budget yields black.
pub fn ray_color(
    ray: &Ray,
    obj: &Object,
    background: &Color,
    depth: u32,
    rng: &mut RandomSource,
) -> (c: Color)
    requires
        object_wf(*obj),
    ensures
        depth == 0 ==> c@ == c_black(),
        possible_radiance_s(*obj, background@, depth as int, *ray, c@),
    decreases depth,
{
    proof {
        reveal(possible_radiance_s);
    }
    if depth == 0 {
        return Color::black();
    }

    let hit = obj.hit_dispatch(ray, RAY_T_MIN, i64::MAX);
    match hit {
        None => *background,
        Some(hit) => {
            proof {
                lemma_object_hit_material_wf(*obj, *ray, RAY_T_MIN as int, i64::MAX as int);
            }
            let color_from_emission = hit.material.emit(hit.u, hit.v, &hit.point);
            match hit.material.deflect(ray, &hit, rng) {
                None => color_from_emission,
                Some(deflection) => {
                    let continued = ray_color(&deflection.ray, obj, background, depth - 1, rng);
                    let result = color_from_emission.add(deflection.attenuation.mul(continued));
                    proof {
                        assert(deflection.ray.origin@ == hit.point@ && possible_radiance_s(
                            *obj,
                            background@,
                            depth as int - 1,
                            deflection.ray,
                            continued@,
                        ));
                    }
                    result
                },
            }
        },
    }
}

/// Precomputed camera frame: the world position of pixel (0, 0), the
/// per-pixel steps, and the defocus disk.
pub struct Camera {
    pub origin_pixel: Point,
    pub pixel_delta_u: Vector,
    pub pixel_delta_v: Vector,
    pub camera_position: Point,
    pub defocus_angle: i64,
    pub defocus_u: Vector,
    pub defocus_v: Vector,
}

/// Mathematical view of the camera frame.
pub ghost struct CameraV {
    pub origin_pixel: V3,
    pub pixel_delta_u: V3,
    pub pixel_delta_v: V3,
    pub camera_position: V3,
    pub defocus_angle: int,
    pub defocus_u: V3,
    pub defocus_v: V3,
}

impl View for Camera {
    type V = CameraV;

    open spec fn view(&self) -> CameraV {
        CameraV {
            origin_pixel: self.origin_pixel@,
            pixel_delta_u: self.pixel_delta_u@,
            pixel_delta_v: self.pixel_delta_v@,
            camera_position: self.camera_position@,
            defocus_angle: self.defocus_angle as int,
            defocus_u: self.defocus_u@,
            defocus_v: self.defocus_v@,
        }
    }
}

/// The camera frame derived from a configuration: orthonormal basis from
/// the view direction, viewport from the field of view and focal length,
/// and the defocus disk from the defocus angle.
#[verifier::opaque]
pub open spec fn camera_s(
    camera_position: V3,
    focus_point: V3,
    field_of_view: int,
    defocus_angle: int,
    focus_distance: int,
    width: int,
    height: int,
) -> CameraV {
    let v_up = V3 { x: 0, y: FX_ONE as int, z: 0 };
    let focal_length = v_length(v_sub(camera_position, focus_point));
    let theta = to_radians_s(field_of_view);
    let half_tan = tan_s(fx_div_s(theta, fx_int_s(2)));
    let viewport_height = fx_mul_s(fx_mul_s(fx_int_s(2), half_tan), focal_length);
    let viewport_width = fx_div_s(fx_mul_s(viewport_height, fx_int_s(width)), fx_int_s(height));
    let w_basis = v_normalize(v_sub(camera_position, focus_point));
    let u_basis = v_normalize(v_cross(v_up, w_basis));
    let v_basis = v_cross(w_basis, u_basis);
    let viewport_u = v_scale(u_basis, viewport_width);
    let viewport_v = v_scale(v_neg(v_basis), viewport_height);
    let pixel_delta_u = v_div(viewport_u, fx_int_s(width));
    let pixel_delta_v = v_div(viewport_v, fx_int_s(height));
    let viewport_origin = v_sub(
        v_sub(
            v_sub(camera_position, v_scale(w_basis, focal_length)),
            v_div(viewport_u, fx_int_s(2)),
        ),
        v_div(viewport_v, fx_int_s(2)),
    );
    let origin_pixel = v_add(viewport_origin, v_div(v_add(pixel_delta_u, pixel_delta_v), fx_int_s(2)));
    let defocus_radius = fx_mul_s(
        focus_distance,
        tan_s(to_radians_s(fx_div_s(defocus_angle, fx_int_s(2)))),
    );
    CameraV {
        origin_pixel,
        pixel_delta_u,
        pixel_delta_v,
        camera_position,
        defocus_angle,
        defocus_u: v_scale(u_basis, defocus_radius),
        defocus_v: v_scale(v_basis, defocus_radius),
    }
}

impl Camera {
    pub fn new(settings: &RenderSettings) -> (cam: Camera)
        ensures
            cam@ == camera_s(
                settings.camera_position@,
                settings.focus_point@,
                settings.field_of_view as int,
                settings.defocus_angle as int,
                settings.focus_distance as int,
                settings.size.width as int,
                settings.size.height as int,
            ),
    {
        let v_up = Vector { x: 0, y: FX_ONE, z: 0 };
        let focal_length: i64 = settings.camera_position.sub(settings.focus_point).length();
        let theta: i64 = to_radians(settings.field_of_view);
        let half_tan: i64 = tan_fx(fx_div(theta, fx_of_int(2)));
        let viewport_height: i64 = fx_mul(fx_mul(fx_of_int(2), half_tan), focal_length);
        let viewport_width: i64 = fx_div(
            fx_mul(viewport_height, fx_of_int(settings.size.width as i64)),
            fx_of_int(settings.size.height as i64),
        );
        let w_basis = settings.camera_position.sub(settings.focus_point).normalize();
        let u_basis = v_up.cross(&w_basis).normalize();
        let v_basis = w_basis.cross(&u_basis);
        let viewport_u = u_basis.mul(viewport_width);
        let viewport_v = v_basis.neg().mul(viewport_height);
        let pixel_delta_u = viewport_u.div(fx_of_int(settings.size.width as i64));
        let pixel_delta_v = viewport_v.div(fx_of_int(settings.size.height as i64));
        let viewport_origin = settings.camera_position.sub(w_basis.mul(focal_length)).sub(
            viewport_u.div(fx_of_int(2)),
        ).sub(viewport_v.div(fx_of_int(2)));
        let origin_pixel = viewport_origin.add(
            pixel_delta_u.add(pixel_delta_v).div(fx_of_int(2)),
        );
        let defocus_radius: i64 = fx_mul(
            settings.focus_distance,
            tan_fx(to_radians(fx_div(settings.defocus_angle, fx_of_int(2)))),
        );
        let cam = Camera {
            origin_pixel,
            pixel_delta_u,
            pixel_delta_v,
            camera_position: settings.camera_position,
            defocus_angle: settings.defocus_angle,
            defocus_u: u_basis.mul(defocus_radius),
            defocus_v: v_basis.mul(defocus_radius),
        };
        proof {
            reveal(camera_s);
        }
        cam
    }
}

/// The world position of the center of pixel `(x, y)`.
pub open spec fn pixel_center_s(cam: CameraV, x: int, y: int) -> V3 {
    v_add(
        v_add(cam.origin_pixel, v_scale(cam.pixel_delta_u, fx_int_s(x))),
        v_scale(cam.pixel_delta_v, fx_int_s(y)),
    )
}

/// A primary ray admissible for the given pixel center: jittered within the
/// pixel footprint by independent draws from `[-1/2, 1/2)`, its origin on
/// the defocus disk when a positive defocus angle is configured and at the
/// camera position otherwise, its direction from the origin to the jittered
/// sample.
#[verifier::opaque]
pub open spec fn admissible_primary_ray_s(cam: CameraV, center: V3, ray: Ray) -> bool {
    exists|a: int, b: int|
        #![auto]
        {
            &&& -(FX_HALF as int) <= a && a < FX_HALF as int
            &&& -(FX_HALF as int) <= b && b < FX_HALF as int
            &&& ray.direction@ == v_sub(
                v_add(center, v_add(v_scale(cam.pixel_delta_u, a), v_scale(cam.pixel_delta_v, b))),
                ray.origin@,
            )
            &&& cam.defocus_angle <= 0 ==> ray.origin@ == cam.camera_position
            &&& cam.defocus_angle > 0 ==> exists|p: V3|
                #![auto]
                v_length_squared(p) < FX_ONE as int && p.z == 0 && ray.origin@ == v_add(
                    v_add(cam.camera_position, v_scale(cam.defocus_u, p.x)),
                    v_scale(cam.defocus_v, p.y),
                )
        }
}

/// Uniform jitter within one pixel footprint.
fn pixel_sample_square(du: Vector, dv: Vector, rng: &mut RandomSource) -> (r: Vector)
    ensures
        exists|a: int, b: int|
            #![auto]
            -(FX_HALF as int) <= a && a < FX_HALF as int && -(FX_HALF as int) <= b && b
                < FX_HALF as int && r@ == v_add(v_scale(du@, a), v_scale(dv@, b)),
{
    let px: i64 = fx_add(fx_neg(FX_HALF), rng.next_in_range(0, FX_ONE));
    let py: i64 = fx_add(fx_neg(FX_HALF), rng.next_in_range(0, FX_ONE));
    let r = du.mul(px).add(dv.mul(py));
    proof {
        assert(-(FX_HALF as int) <= px as int && (px as int) < FX_HALF as int && -(
        FX_HALF as int) <= py as int && (py as int) < FX_HALF as int && r@ == v_add(
            v_scale(du@, px as int),
            v_scale(dv@, py as int),
        ));
    }
    r
}

/// A point on the camera's defocus disk.
fn defocus_disk_sample(
    camera_position: Point,
    defocus_u: Vector,
    defocus_v: Vector,
    rng: &mut RandomSource,
) -> (r: Point)
    ensures
        exists|p: V3|
            #![auto]
            v_length_squared(p) < FX_ONE as int && p.z == 0 && r@ == v_add(
                v_add(camera_position@, v_scale(defocus_u@, p.x)),
                v_scale(defocus_v@, p.y),
            ),
{
    let p = Vector::random_in_unit_disk(rng);
    let r = camera_position.add(defocus_u.mul(p.x)).add(defocus_v.mul(p.y));
    proof {
        assert(v_length_squared(p@) < FX_ONE as int && p@.z == 0 && r@ == v_add(
            v_add(camera_position@, v_scale(defocus_u@, p@.x)),
            v_scale(defocus_v@, p@.y),
        ));
    }
    r
}

/// One jittered primary ray for the pixel centered at `pixel_center`: an
/// admissible primary ray in the sense of `admissible_primary_ray_s`.
fn get_ray(cam: &Camera, pixel_center: Point, rng: &mut RandomSource) -> (r: Ray)
    ensures
        admissible_primary_ray_s(cam@, pixel_center@, r),
        cam.defocus_angle <= 0 ==> r.origin == cam.camera_position,
{
    let jitter = pixel_sample_square(cam.pixel_delta_u, cam.pixel_delta_v, rng);
    let pixel_sample = pixel_center.add(jitter);

    let ray_origin = if cam.defocus_angle > 0 {
        defocus_disk_sample(cam.camera_position, cam.defocus_u, cam.defocus_v, rng)
    } else {
        cam.camera_position
    };
    let ray_direction = pixel_sample.sub(ray_origin);
    let r = Ray::new(ray_origin, ray_direction);
    proof {
        reveal(admissible_primary_ray_s);
        let (a, b) = choose|a: int, b: int|
            #![auto]
            -(FX_HALF as int) <= a && a < FX_HALF as int && -(FX_HALF as int) <= b && b
                < FX_HALF as int && jitter@ == v_add(
                v_scale(cam.pixel_delta_u@, a),
                v_scale(cam.pixel_delta_v@, b),
            );
        assert(r.direction@ == v_sub(
            v_add(
                pixel_center@,
                v_add(v_scale(cam@.pixel_delta_u, a), v_scale(cam@.pixel_delta_v, b)),
            ),
            r.origin@,
        ));
    }
    r
}

/// One channel of the finished pixel: the average gamma-corrected (square
/// root), clamped into `[0, 1]` and quantized to 8 bits by truncation.
pub open spec fn finished_channel_s(avg_channel: int) -> int {
    channel_to_byte(fx_clamp_s(fx_sqrt_s(avg_channel), 0, FX_ONE as int))
}

/// The three bytes of a finished pixel are the sampling pipeline applied to
/// some sequence of per-sample radiance estimates: `samples` estimates, each
/// a possible radiance outcome for an admissible jittered primary ray of
/// this pixel, averaged, gamma-corrected, clamped and quantized.
#[verifier::opaque]
pub open spec fn pixel_bytes_ok_s(
    obj: Object,
    background: C3,
    cam: CameraV,
    samples: int,
    depth: int,
    x: int,
    y: int,
    b0: int,
    b1: int,
    b2: int,
) -> bool {
    exists|cs: Seq<C3>|
        #![auto]
        {
            &&& cs.len() == samples
            &&& forall|k: int|
                #![trigger cs[k]]
                0 <= k < cs.len() ==> exists|ray: Ray|
                    #![auto]
                    admissible_primary_ray_s(cam, pixel_center_s(cam, x, y), ray)
                        && possible_radiance_s(obj, background, depth, ray, cs[k])
            &&& b0 == finished_channel_s(c_average(cs).r)
            &&& b1 == finished_channel_s(c_average(cs).g)
            &&& b2 == finished_channel_s(c_average(cs).b)
        }
}

/// Every pixel of a raster of 8-bit RGB triples, three bytes per pixel in
/// row-major order, satisfies the per-pixel sampling pipeline.
pub open spec fn raster_ok_s(
    obj: Object,
    background: C3,
    cam: CameraV,
    samples: int,
    depth: int,
    width: int,
    height: int,
    r: Seq<u8>,
) -> bool {
    forall|px: int, py: int|
        0 <= px < width && 0 <= py < height ==> #[trigger] pixel_bytes_ok_s(
            obj,
            background,
            cam,
            samples,
            depth,
            px,
            py,
            r[(py * width + px) * 3] as int,
            r[(py * width + px) * 3 + 1] as int,
            r[(py * width + px) * 3 + 2] as int,
        )
}

/// One finished pixel: `samples` stochastic radiance estimates averaged,
/// gamma-corrected, clamped to `[0, 1]` and quantized to three bytes, as
/// `pixel_bytes_ok_s` spells out.
#[verifier::rlimit(100)]
pub fn render_pixel(
    world: &World,
    cam: &Camera,
    samples: u32,
    max_depth: u32,
    x: u32,
    y: u32,
    rng: &mut RandomSource,
) -> (r: [u8; 3])
    requires
        object_wf(world.object),
    ensures
        pixel_bytes_ok_s(
            world.object,
            world.background@,
            cam@,
            samples as int,
            max_depth as int,
            x as int,
            y as int,
            r[0] as int,
            r[1] as int,
            r[2] as int,
        ),
{
    let pixel_center = cam.origin_pixel.add(cam.pixel_delta_u.mul(fx_of_int(x as i64))).add(
        cam.pixel_delta_v.mul(fx_of_int(y as i64)),
    );
    proof {
        assert(pixel_center@ == pixel_center_s(cam@, x as int, y as int));
    }

    let mut sample_colors: Vec<Color> = Vec::new();
    let mut s: u32 = 0;
    while s < samples
        invariant
            object_wf(world.object),
            sample_colors.len() == s,
            s <= samples,
            pixel_center@ == pixel_center_s(cam@, x as int, y as int),
            forall|k: int|
                #![trigger sample_colors@[k]]
                0 <= k < sample_colors@.len() ==> exists|ray: Ray|
                    #![auto]
                    admissible_primary_ray_s(cam@, pixel_center_s(cam@, x as int, y as int), ray)
                        && possible_radiance_s(
                        world.object,
                        world.background@,
                        max_depth as int,
                        ray,
                        sample_colors@[k]@,
                    ),
        decreases samples - s,
    {
        let ray = get_ray(cam, pixel_center, rng);
        let color = ray_color(&ray, &world.object, &world.background, max_depth, rng);
        proof {
            assert(admissible_primary_ray_s(
                cam@,
                pixel_center_s(cam@, x as int, y as int),
                ray,
            ) && possible_radiance_s(
                world.object,
                world.background@,
                max_depth as int,
                ray,
                color@,
            ));
        }
        sample_colors.push(color);
        s = s + 1;
    }

    let averaged = Color::average(&sample_colors);
    let bytes = averaged.gamma_correct().clamp(0, FX_ONE).to_bytes();
    proof {
        reveal(pixel_bytes_ok_s);
        let cs = sample_colors@.map_values(|c: Color| c@);
        assert(cs.len() == samples as int);
        let avg = c_average(cs);
        assert(averaged@ == avg);
        crate::fixed::lemma_fx_sqrt_range(avg.r);
        crate::fixed::lemma_fx_sqrt_range(avg.g);
        crate::fixed::lemma_fx_sqrt_range(avg.b);
        assert(forall|k: int|
            #![trigger cs[k]]
            0 <= k < cs.len() ==> exists|ray: Ray|
                #![auto]
                admissible_primary_ray_s(cam@, pixel_center_s(cam@, x as int, y as int), ray)
                    && possible_radiance_s(
                    world.object,
                    world.background@,
                    max_depth as int,
                    ray,
                    cs[k],
                ));
        assert(bytes[0] as int == finished_channel_s(c_average(cs).r) && bytes[1] as int
            == finished_channel_s(c_average(cs).g) && bytes[2] as int == finished_channel_s(
            c_average(cs).b,
        ));
    }
    bytes
}

/// Render the world sequentially into a raster of 8-bit RGB triples, three
/// bytes per pixel in row-major order: every pixel of the result satisfies
/// the per-pixel sampling pipeline. Container encoding and parallel
/// scheduling are the caller's concern.
pub fn render_world(
    settings: &RenderSettings,
    world: &World,
    rng: &mut RandomSource,
) -> (r: Vec<u8>)
    requires
        object_wf(world.object),
        (settings.size.width as int) * (settings.size.height as int) * 3 <= usize::MAX as int,
    ensures
        r.len() == (settings.size.width as int) * (settings.size.height as int) * 3,
        raster_ok_s(
            world.object,
            world.background@,
            camera_s(
                settings.camera_position@,
                settings.focus_point@,
                settings.field_of_view as int,
                settings.defocus_angle as int,
                settings.focus_distance as int,
                settings.size.width as int,
                settings.size.height as int,
            ),
            settings.samples as int,
            settings.max_depth as int,
            settings.size.width as int,
            settings.size.height as int,
            r@,
        ),
{
    let cam = Camera::new(settings);
    let w: u32 = settings.size.width;
    let h: u32 = settings.size.height;
    let mut buffer: Vec<u8> = Vec::new();
    let mut y: u32 = 0;
    while y < h
        invariant
            object_wf(world.object),
            y <= h,
            w == settings.size.width,
            h == settings.size.height,
            cam@ == camera_s(
                settings.camera_position@,
                settings.focus_point@,
                settings.field_of_view as int,
                settings.defocus_angle as int,
                settings.focus_distance as int,
                settings.size.width as int,
                settings.size.height as int,
            ),
            (w as int) * (h as int) * 3 <= usize::MAX as int,
            buffer.len() == (y as int) * (w as int) * 3,
            forall|px: int, py: int|
                0 <= px < w as int && 0 <= py < y as int ==> #[trigger] pixel_bytes_ok_s(
                    world.object,
                    world.background@,
                    cam@,
                    settings.samples as int,
                    settings.max_depth as int,
                    px,
                    py,
                    buffer@[(py * (w as int) + px) * 3] as int,
                    buffer@[(py * (w as int) + px) * 3 + 1] as int,
                    buffer@[(py * (w as int) + px) * 3 + 2] as int,
                ),
        decreases h - y,
    {
        let mut x: u32 = 0;
        while x < w
            invariant
                object_wf(world.object),
                x <= w,
                y < h,
                w == settings.size.width,
                h == settings.size.height,
                cam@ == camera_s(
                    settings.camera_position@,
                    settings.focus_point@,
                    settings.field_of_view as int,
                    settings.defocus_angle as int,
                    settings.focus_distance as int,
                    settings.size.width as int,
                    settings.size.height as int,
                ),
                (w as int) * (h as int) * 3 <= usize::MAX as int,
                buffer.len() == ((y as int) * (w as int) + (x as int)) * 3,
                forall|px: int, py: int|
                    (0 <= px < w as int && 0 <= py < y as int) || (py == y as int && 0 <= px
                        < x as int) ==> #[trigger] pixel_bytes_ok_s(
                        world.object,
                        world.background@,
                        cam@,
                        settings.samples as int,
                        settings.max_depth as int,
                        px,
                        py,
                        buffer@[(py * (w as int) + px) * 3] as int,
                        buffer@[(py * (w as int) + px) * 3 + 1] as int,
                        buffer@[(py * (w as int) + px) * 3 + 2] as int,
                    ),
            decreases w - x,
        {
            proof {
                assert(((y as int) * (w as int) + (x as int)) * 3 + 3 <= (w as int) * (h as int)
                    * 3) by (nonlinear_arith)
                    requires
                        0 <= (x as int) && (x as int) < (w as int),
                        0 <= (y as int) && (y as int) < (h as int),
                ;
            }
            let ghost old_buffer = buffer@;
            let pixel = render_pixel(world, &cam, settings.samples, settings.max_depth, x, y, rng);
            buffer.push(pixel[0]);
            buffer.push(pixel[1]);
            buffer.push(pixel[2]);
            proof {
                let base = ((y as int) * (w as int) + (x as int)) * 3;
                assert(buffer@[base] == pixel[0] && buffer@[base + 1] == pixel[1] && buffer@[base
                    + 2] == pixel[2]);
                assert forall|px: int, py: int|
                    (0 <= px < w as int && 0 <= py < y as int) || (py == y as int && 0 <= px
                        < x as int + 1) implies #[trigger] pixel_bytes_ok_s(
                        world.object,
                        world.background@,
                        cam@,
                        settings.samples as int,
                        settings.max_depth as int,
                        px,
                        py,
                        buffer@[(py * (w as int) + px) * 3] as int,
                        buffer@[(py * (w as int) + px) * 3 + 1] as int,
                        buffer@[(py * (w as int) + px) * 3 + 2] as int,
                    ) by {
                    if py == y as int && px == x as int {
                    } else {
                        assert((py * (w as int) + px) * 3 + 3 <= base) by (nonlinear_arith)
                            requires
                                (0 <= px < w as int && 0 <= py < y as int) || (py == y as int && 0
                                    <= px < x as int),
                                base == ((y as int) * (w as int) + (x as int)) * 3,
                                0 <= (x as int) && (x as int) < (w as int),
                        ;
                        assert(buffer@[(py * (w as int) + px) * 3] == old_buffer[(py * (w as int)
                            + px) * 3]);
                        assert(buffer@[(py * (w as int) + px) * 3 + 1] == old_buffer[(py * (
                        w as int) + px) * 3 + 1]);
                        assert(buffer@[(py * (w as int) + px) * 3 + 2] == old_buffer[(py * (
                        w as int) + px) * 3 + 2]);
                    }
                }
            }
            x = x + 1;
        }
        proof {
            assert(((y as int) * (w as int) + (w as int)) * 3 == ((y as int) + 1) * (w as int) * 3)
                by (nonlinear_arith);
        }
        y = y + 1;
    }
    proof {
        assert((h as int) * (w as int) * 3 == (w as int) * (h as int) * 3) by (nonlinear_arith);
    }
    buffer
}

/// Build the configured scene and render it: the raster of some well-formed
/// world with the scene's background, every pixel satisfying the per-pixel
/// sampling pipeline. The progress reporting, parallel tiling and
/// image-container encoding of the surrounding application sit on top of
/// `render_pixel` and `render_world`.
pub fn render(settings: &RenderSettings, rng: &mut RandomSource) -> (r: Vec<u8>)
    requires
        (settings.size.width as int) * (settings.size.height as int) * 3 <= usize::MAX as int,
    ensures
        r.len() == (settings.size.width as int) * (settings.size.height as int) * 3,
        exists|obj: Object, background: C3|
            object_wf(obj) && background == crate::world::scene_background_s(settings.scene)
                && #[trigger] raster_ok_s(
                obj,
                background,
                camera_s(
                    settings.camera_position@,
                    settings.focus_point@,
                    settings.field_of_view as int,
                    settings.defocus_angle as int,
                    settings.focus_distance as int,
                    settings.size.width as int,
                    settings.size.height as int,
                ),
                settings.samples as int,
                settings.max_depth as int,
                settings.size.width as int,
                settings.size.height as int,
                r@,
            ),
{
    let world = crate::world::create_world(&settings.scene, rng);
    let r = render_world(settings, &world, rng);
    proof {
        assert(object_wf(world.object) && world.background@ == crate::world::scene_background_s(
            settings.scene,
        ));
    }
    r
}

} // verus!
