//! Surface materials: the scattering and emission policy of each surface
//! kind.

use crate::color::{c_black, Color, C3};
use crate::fixed::{fx_add, fx_add_s, fx_div, fx_div_s, fx_min, fx_min_s, fx_mul, fx_mul_s,
    fx_sqrt, fx_sqrt_s, fx_sub, fx_sub_s, FX_ONE};
use crate::object::{Collision, Facing};
use crate::ray::Ray;
use crate::rng::RandomSource;
use crate::texture::{ColorAt, Texture};
use crate::vector::{v_add, v_dot, v_length_squared, v_near_zero, v_neg, v_normalize, v_reflect, v_refract, v_scale, Vector, V3};
use vstd::prelude::*;

verus! {

/// A material's answer to an incoming ray: the scattered ray and the color
/// attenuation applied to light carried along it.
pub struct Deflection {
    pub attenuation: Color,
    pub ray: Ray,
}

/// Scattering policy. The scattered direction is stochastic; what is pinned
/// down is whether a deflection exists at all, the attenuation it carries,
/// and that the scattered ray leaves from the hit point.
pub trait Deflect {
    /// Internal consistency the scattering relies on.
    spec fn deflect_wf(&self) -> bool;

    /// Whether this material ever deflects (everything but a light).
    spec fn deflects(&self) -> bool;

    /// The attenuation carried by a deflection at the given hit.
    spec fn attenuation_spec(&self, u: int, v: int, p: V3) -> C3;

    fn deflect(&self, ray: &Ray, hit: &Collision<'_>, rng: &mut RandomSource) -> (r: Option<
        Deflection,
    >)
        requires
            self.deflect_wf(),
        ensures
            r is Some <==> self.deflects(),
            r matches Some(d) ==> d.attenuation@ == self.attenuation_spec(
                hit.u as int,
                hit.v as int,
                hit.point@,
            ) && d.ray.origin == hit.point,
    ;
}

/// Emission policy: black for every material except a light.
pub trait Emit {
    /// The emitted radiance as a function of the query alone.
    spec fn emit_spec(&self, u: int, v: int, p: V3) -> C3;

    fn emit(&self, u: i64, v: i64, point: &Vector) -> (r: Color)
        ensures
            r@ == self.emit_spec(u as int, v as int, point@),
    ;
}

/// Diffuse surface: scatters about the normal, attenuated by a fixed albedo.
#[derive(Clone)]
pub struct Lambertian {
    pub albedo: Color,
}

impl Deflect for Lambertian {
    open spec fn deflect_wf(&self) -> bool {
        true
    }

    open spec fn deflects(&self) -> bool {
        true
    }

    open spec fn attenuation_spec(&self, u: int, v: int, p: V3) -> C3 {
        self.albedo@
    }

    fn deflect(&self, ray: &Ray, hit: &Collision<'_>, rng: &mut RandomSource) -> (r: Option<
        Deflection,
    >)
        ensures
            r matches Some(d) ==> exists|s: V3|
                v_length_squared(s) < FX_ONE as int && d.ray.direction@ == (
                if v_near_zero(v_add(hit.normal@, v_normalize(s))) {
                    hit.normal@
                } else {
                    v_add(hit.normal@, v_normalize(s))
                }),
    {
        let mut scatter_direction = hit.normal.add(Vector::random_unit_vector(rng));
        if scatter_direction.is_near_zero() {
            scatter_direction = hit.normal;
        }

        let scattered = Ray { origin: hit.point, direction: scatter_direction };
        Some(Deflection { attenuation: self.albedo, ray: scattered })
    }
}

impl Emit for Lambertian {
    open spec fn emit_spec(&self, u: int, v: int, p: V3) -> C3 {
        c_black()
    }

    fn emit(&self, u: i64, v: i64, point: &Vector) -> (r: Color) {
        Color::black()
    }
}

/// Mirror-like surface with a fuzz perturbation. The perturbed direction may
/// point below the surface; the deflection is deliberately still returned in
/// that case, a known simplification of this scattering model.
#[derive(Clone)]
pub struct Metal {
    pub albedo: Color,
    pub fuzz: i64,
}

impl Deflect for Metal {
    open spec fn deflect_wf(&self) -> bool {
        true
    }

    open spec fn deflects(&self) -> bool {
        true
    }

    open spec fn attenuation_spec(&self, u: int, v: int, p: V3) -> C3 {
        self.albedo@
    }

    fn deflect(&self, ray: &Ray, hit: &Collision<'_>, rng: &mut RandomSource) -> (r: Option<
        Deflection,
    >)
        ensures
            r matches Some(d) ==> exists|s: V3|
                v_length_squared(s) < FX_ONE as int && d.ray.direction@ == v_add(
                    v_reflect(v_normalize(ray.direction@), hit.normal@),
                    v_scale(v_normalize(s), self.fuzz as int),
                ),
    {
        let reflected = ray.direction.normalize().reflect(&hit.normal);
        let scattered = Ray {
            origin: hit.point,
            direction: reflected.add(Vector::random_unit_vector(rng).mul(self.fuzz)),
        };
        Some(Deflection { attenuation: self.albedo, ray: scattered })
    }
}

impl Emit for Metal {
    open spec fn emit_spec(&self, u: int, v: int, p: V3) -> C3 {
        c_black()
    }

    fn emit(&self, u: i64, v: i64, point: &Vector) -> (r: Color) {
        Color::black()
    }
}

/// The Schlick base reflectance `((1 - n) / (1 + n))^2`.
pub open spec fn schlick_r0_s(refraction_index: int) -> int {
    let base = fx_div_s(
        fx_sub_s(FX_ONE as int, refraction_index),
        fx_add_s(FX_ONE as int, refraction_index),
    );
    fx_mul_s(base, base)
}

/// Schlick's approximation `r0 + (1 - r0) (1 - cos)^5` of Fresnel
/// reflectance.
pub open spec fn reflectance_s(cosine: int, refraction_index: int) -> int {
    let r0 = schlick_r0_s(refraction_index);
    let om = fx_sub_s(FX_ONE as int, cosine);
    let p5 = fx_mul_s(fx_mul_s(fx_mul_s(fx_mul_s(om, om), om), om), om);
    fx_add_s(r0, fx_mul_s(fx_sub_s(FX_ONE as int, r0), p5))
}

/// At normal incidence the Schlick reflectance is exactly the base
/// reflectance `r0`.
pub proof fn lemma_reflectance_at_normal_incidence(refraction_index: int)
    ensures
        reflectance_s(FX_ONE as int, refraction_index) == schlick_r0_s(refraction_index),
{
    let r0 = schlick_r0_s(refraction_index);
    assert(fx_sub_s(FX_ONE as int, FX_ONE as int) == 0);
    assert(crate::fixed::abs_i(0) / crate::fixed::abs_i(FX_ONE as int) == 0);
    assert(fx_mul_s(0, 0) == 0);
    assert(fx_mul_s(fx_sub_s(FX_ONE as int, r0), 0) == 0);
    assert(fx_add_s(r0, 0) == r0);
}

/// Clear refractive surface: always white attenuation, choosing reflection
/// or refraction by total internal reflection and a stochastic Schlick test.
#[derive(Clone)]
pub struct Dielectric {
    pub refraction_index: i64,
}

impl Dielectric {
    /// Schlick's reflectance approximation, exact to its specification
    /// mirror; at normal incidence it collapses to the base reflectance
    /// (see `lemma_reflectance_at_normal_incidence`).
    pub fn reflectance(cosine: i64, refraction_index: i64) -> (r: i64)
        ensures
            r as int == reflectance_s(cosine as int, refraction_index as int),
    {
        let base: i64 = fx_div(
            fx_sub(FX_ONE, refraction_index),
            fx_add(FX_ONE, refraction_index),
        );
        let r0: i64 = fx_mul(base, base);
        let om: i64 = fx_sub(FX_ONE, cosine);
        let p5: i64 = fx_mul(fx_mul(fx_mul(fx_mul(om, om), om), om), om);
        fx_add(r0, fx_mul(fx_sub(FX_ONE, r0), p5))
    }
}

impl Deflect for Dielectric {
    open spec fn deflect_wf(&self) -> bool {
        true
    }

    open spec fn deflects(&self) -> bool {
        true
    }

    open spec fn attenuation_spec(&self, u: int, v: int, p: V3) -> C3 {
        C3 { r: FX_ONE as int, g: FX_ONE as int, b: FX_ONE as int }
    }

    fn deflect(&self, ray: &Ray, hit: &Collision<'_>, rng: &mut RandomSource) -> (r: Option<
        Deflection,
    >)
        ensures
            r matches Some(d) ==> {
                let unit = v_normalize(ray.direction@);
                let ratio = match hit.facing {
                    Facing::Inward => fx_div_s(FX_ONE as int, self.refraction_index as int),
                    Facing::Outward => self.refraction_index as int,
                };
                d.ray.direction@ == v_reflect(unit, hit.normal@) || d.ray.direction@ == v_refract(
                    unit,
                    hit.normal@,
                    ratio,
                )
            },
            r matches Some(d) ==> {
                let unit = v_normalize(ray.direction@);
                let ratio = match hit.facing {
                    Facing::Inward => fx_div_s(FX_ONE as int, self.refraction_index as int),
                    Facing::Outward => self.refraction_index as int,
                };
                let cos_theta = fx_min_s(v_dot(v_neg(unit), hit.normal@), FX_ONE as int);
                let sin_theta = fx_sqrt_s(fx_sub_s(FX_ONE as int, fx_mul_s(cos_theta, cos_theta)));
                // total internal reflection leaves no stochastic choice
                fx_mul_s(ratio, sin_theta) > FX_ONE as int ==> d.ray.direction@ == v_reflect(
                    unit,
                    hit.normal@,
                )
            },
    {
        let attenuation = Color::white();
        let refraction_ratio: i64 = match hit.facing {
            Facing::Inward => fx_div(FX_ONE, self.refraction_index),
            Facing::Outward => self.refraction_index,
        };

        let unit_direction = ray.direction.normalize();
        let cos_theta: i64 = fx_min(unit_direction.neg().dot(&hit.normal), FX_ONE);
        let sin_theta: i64 = fx_sqrt(fx_sub(FX_ONE, fx_mul(cos_theta, cos_theta)));

        let cannot_refract: bool = fx_mul(refraction_ratio, sin_theta) > FX_ONE;
        let draw: i64 = rng.next_in_range(0, FX_ONE);

        let deflected = if cannot_refract || Self::reflectance(cos_theta, refraction_ratio)
            > draw {
            unit_direction.reflect(&hit.normal)
        } else {
            unit_direction.refract(&hit.normal, refraction_ratio)
        };

        let scattered = Ray { origin: hit.point, direction: deflected };

        Some(Deflection { attenuation, ray: scattered })
    }
}

impl Emit for Dielectric {
    open spec fn emit_spec(&self, u: int, v: int, p: V3) -> C3 {
        c_black()
    }

    fn emit(&self, u: i64, v: i64, point: &Vector) -> (r: Color) {
        Color::black()
    }
}

/// Diffuse surface whose attenuation is sampled from a texture.
#[derive(Clone)]
pub struct Simple {
    pub texture: Texture,
}

impl Deflect for Simple {
    open spec fn deflect_wf(&self) -> bool {
        self.texture.color_at_wf()
    }

    open spec fn deflects(&self) -> bool {
        true
    }

    open spec fn attenuation_spec(&self, u: int, v: int, p: V3) -> C3 {
        self.texture.color_at_spec(u, v, p)
    }

    fn deflect(&self, ray: &Ray, hit: &Collision<'_>, rng: &mut RandomSource) -> (r: Option<
        Deflection,
    >)
        ensures
            r matches Some(d) ==> exists|s: V3|
                v_length_squared(s) < FX_ONE as int && d.ray.direction@ == (
                if v_near_zero(v_add(hit.normal@, v_normalize(s))) {
                    hit.normal@
                } else {
                    v_add(hit.normal@, v_normalize(s))
                }),
    {
        let mut scatter_direction = hit.normal.add(Vector::random_unit_vector(rng));
        if scatter_direction.is_near_zero() {
            scatter_direction = hit.normal;
        }

        let scattered = Ray { origin: hit.point, direction: scatter_direction };
        Some(
            Deflection {
                attenuation: self.texture.color_at(hit.u, hit.v, &hit.point),
                ray: scattered,
            },
        )
    }
}

impl Emit for Simple {
    open spec fn emit_spec(&self, u: int, v: int, p: V3) -> C3 {
        c_black()
    }

    fn emit(&self, u: i64, v: i64, point: &Vector) -> (r: Color) {
        Color::black()
    }
}

/// Emissive surface: fully absorptive (never deflects) and radiating a fixed
/// color.
#[derive(Clone)]
pub struct Light {
    pub color: Color,
}

impl Deflect for Light {
    open spec fn deflect_wf(&self) -> bool {
        true
    }

    open spec fn deflects(&self) -> bool {
        false
    }

    open spec fn attenuation_spec(&self, u: int, v: int, p: V3) -> C3 {
        c_black()
    }

    fn deflect(&self, ray: &Ray, hit: &Collision<'_>, rng: &mut RandomSource) -> (r: Option<
        Deflection,
    >) {
        None
    }
}

impl Emit for Light {
    open spec fn emit_spec(&self, u: int, v: int, p: V3) -> C3 {
        self.color@
    }

    fn emit(&self, u: i64, v: i64, point: &Vector) -> (r: Color) {
        self.color
    }
}

/// Closed polymorphic material: one of the five concrete kinds.
#[derive(Clone)]
pub enum Material {
    Lambertian(Lambertian),
    Metal(Metal),
    Dielectric(Dielectric),
    Simple(Simple),
    Light(Light),
}

impl Deflect for Material {
    open spec fn deflect_wf(&self) -> bool {
        match self {
            Material::Lambertian(m) => m.deflect_wf(),
            Material::Metal(m) => m.deflect_wf(),
            Material::Dielectric(m) => m.deflect_wf(),
            Material::Simple(m) => m.deflect_wf(),
            Material::Light(m) => m.deflect_wf(),
        }
    }

    open spec fn deflects(&self) -> bool {
        match self {
            Material::Lambertian(m) => m.deflects(),
            Material::Metal(m) => m.deflects(),
            Material::Dielectric(m) => m.deflects(),
            Material::Simple(m) => m.deflects(),
            Material::Light(m) => m.deflects(),
        }
    }

    open spec fn attenuation_spec(&self, u: int, v: int, p: V3) -> C3 {
        match self {
            Material::Lambertian(m) => m.attenuation_spec(u, v, p),
            Material::Metal(m) => m.attenuation_spec(u, v, p),
            Material::Dielectric(m) => m.attenuation_spec(u, v, p),
            Material::Simple(m) => m.attenuation_spec(u, v, p),
            Material::Light(m) => m.attenuation_spec(u, v, p),
        }
    }

    fn deflect(&self, ray: &Ray, hit: &Collision<'_>, rng: &mut RandomSource) -> (r: Option<
        Deflection,
    >) {
        match self {
            Material::Lambertian(m) => m.deflect(ray, hit, rng),
            Material::Metal(m) => m.deflect(ray, hit, rng),
            Material::Dielectric(m) => m.deflect(ray, hit, rng),
            Material::Simple(m) => m.deflect(ray, hit, rng),
            Material::Light(m) => m.deflect(ray, hit, rng),
        }
    }
}

impl Material {
    /// A copy with the same scattering and emission behavior.
    pub fn duplicate(&self) -> (r: Material)
        ensures
            r.deflect_wf() == self.deflect_wf(),
            r.deflects() == self.deflects(),
            forall|u: int, v: int, p: V3|
                #[trigger] r.attenuation_spec(u, v, p) == self.attenuation_spec(u, v, p),
            forall|u: int, v: int, p: V3|
                #[trigger] r.emit_spec(u, v, p) == self.emit_spec(u, v, p),
    {
        match self {
            Material::Lambertian(m) => Material::Lambertian(Lambertian { albedo: m.albedo }),
            Material::Metal(m) => Material::Metal(Metal { albedo: m.albedo, fuzz: m.fuzz }),
            Material::Dielectric(m) => Material::Dielectric(
                Dielectric { refraction_index: m.refraction_index },
            ),
            Material::Simple(m) => Material::Simple(Simple { texture: m.texture.duplicate() }),
            Material::Light(m) => Material::Light(Light { color: m.color }),
        }
    }
}

impl Emit for Material {
    open spec fn emit_spec(&self, u: int, v: int, p: V3) -> C3 {
        match self {
            Material::Lambertian(m) => m.emit_spec(u, v, p),
            Material::Metal(m) => m.emit_spec(u, v, p),
            Material::Dielectric(m) => m.emit_spec(u, v, p),
            Material::Simple(m) => m.emit_spec(u, v, p),
            Material::Light(m) => m.emit_spec(u, v, p),
        }
    }

    fn emit(&self, u: i64, v: i64, point: &Vector) -> (r: Color) {
        match self {
            Material::Lambertian(m) => m.emit(u, v, point),
            Material::Metal(m) => m.emit(u, v, point),
            Material::Dielectric(m) => m.emit(u, v, point),
            Material::Simple(m) => m.emit(u, v, point),
            Material::Light(m) => m.emit(u, v, point),
        }
    }
}

/// A light never deflects and emits its configured color; every other
/// material deflects and emits black.
pub proof fn lemma_light_is_terminal(m: Material, u: int, v: int, p: V3)
    ensures
        m matches Material::Light(l) ==> !m.deflects() && m.emit_spec(u, v, p) == l.color@,
        !(m matches Material::Light(_)) ==> m.deflects() && m.emit_spec(u, v, p) == c_black(),
{
}

} // verus!
