//! Material policy: lights absorb and emit, everything else scatters and
//! emits black.

use raytracer::color::Color;
use raytracer::fixed::FX_ONE;
use raytracer::material::{
    Deflect, Dielectric, Emit, Lambertian, Light, Material, Metal, Simple,
};
use raytracer::object::{Collision, Facing};
use raytracer::ray::Ray;
use raytracer::rng::RandomSource;
use raytracer::texture::{Solid, Texture};
use raytracer::vector::Vector;

fn probe_ray() -> Ray {
    Ray {
        origin: Vector::new(0, 0, 0),
        direction: Vector::new(0, 0, -FX_ONE),
    }
}

fn probe_hit(material: &Material) -> Collision<'_> {
    Collision {
        point: Vector::new(0, 0, -FX_ONE),
        normal: Vector::new(0, 0, FX_ONE),
        t: FX_ONE,
        u: 0,
        v: 0,
        facing: Facing::Inward,
        material,
    }
}

#[test]
fn test_light_never_deflects() {
    let light = Material::Light(Light {
        color: Color::new(4 * FX_ONE, 4 * FX_ONE, 4 * FX_ONE),
    });
    let mut rng = RandomSource::from_seed(1);
    let ray = probe_ray();
    for _ in 0..32 {
        let hit = probe_hit(&light);
        assert!(light.deflect(&ray, &hit, &mut rng).is_none());
    }
}

#[test]
fn test_light_emits_configured_color() {
    let light = Material::Light(Light {
        color: Color::new(4 * FX_ONE, 3 * FX_ONE, 2 * FX_ONE),
    });
    let point = Vector::new(0, 0, 0);
    assert_eq!(
        light.emit(0, 0, &point),
        Color::new(4 * FX_ONE, 3 * FX_ONE, 2 * FX_ONE)
    );
}

#[test]
fn test_other_materials_emit_black() {
    let point = Vector::new(0, 0, 0);
    let black = Color::new(0, 0, 0);
    let materials = vec![
        Material::Lambertian(Lambertian {
            albedo: Color::new(FX_ONE / 2, FX_ONE / 2, FX_ONE / 2),
        }),
        Material::Metal(Metal {
            albedo: Color::new(FX_ONE / 2, FX_ONE / 2, FX_ONE / 2),
            fuzz: 0,
        }),
        Material::Dielectric(Dielectric {
            refraction_index: 3 * FX_ONE / 2,
        }),
        Material::Simple(Simple {
            texture: Texture::Solid(Solid {
                color: Color::new(FX_ONE, 0, 0),
            }),
        }),
    ];
    for material in &materials {
        assert_eq!(material.emit(0, 0, &point), black);
    }
}

#[test]
fn test_non_light_materials_deflect() {
    let mut rng = RandomSource::from_seed(2);
    let ray = probe_ray();
    let lambertian = Material::Lambertian(Lambertian {
        albedo: Color::new(FX_ONE / 2, FX_ONE / 4, FX_ONE / 8),
    });
    let hit = probe_hit(&lambertian);
    let deflection = lambertian.deflect(&ray, &hit, &mut rng).expect("must scatter");
    assert_eq!(
        deflection.attenuation,
        Color::new(FX_ONE / 2, FX_ONE / 4, FX_ONE / 8)
    );
    assert_eq!(deflection.ray.origin, hit.point);

    let metal = Material::Metal(Metal {
        albedo: Color::new(FX_ONE, FX_ONE, FX_ONE),
        fuzz: 0,
    });
    let hit = probe_hit(&metal);
    let deflection = metal.deflect(&ray, &hit, &mut rng).expect("must scatter");
    assert_eq!(deflection.ray.origin, hit.point);
    // with zero fuzz the polished mirror reflects exactly, straight back
    // along +z for this geometry
    assert_eq!(deflection.ray.direction, Vector::new(0, 0, FX_ONE));

    let glass = Material::Dielectric(Dielectric {
        refraction_index: 3 * FX_ONE / 2,
    });
    let hit = probe_hit(&glass);
    let deflection = glass.deflect(&ray, &hit, &mut rng).expect("must scatter");
    // dielectric attenuation is always white
    assert_eq!(deflection.attenuation, Color::new(FX_ONE, FX_ONE, FX_ONE));
}

#[test]
fn test_reflectance_at_normal_incidence() {
    // at cosine == 1 the angular term vanishes and only r0 remains:
    // ((1 - n) / (1 + n))^2, which for n == 1.5 is (0.2)^2 == 0.04
    let index = 3 * FX_ONE / 2;
    let r = Dielectric::reflectance(FX_ONE, index);
    let base = raytracer::fixed::fx_div(FX_ONE - index, FX_ONE + index);
    let r0 = raytracer::fixed::fx_mul(base, base);
    assert_eq!(r, r0);
    // 0.04 itself is not dyadic; the two truncated divisions land within a
    // few raw units of it
    assert!((r - FX_ONE / 25).abs() < 8, "r: {}", r);
}

#[test]
fn test_simple_samples_texture() {
    let mut rng = RandomSource::from_seed(3);
    let ray = probe_ray();
    let simple = Material::Simple(Simple {
        texture: Texture::Solid(Solid {
            color: Color::new(FX_ONE / 4, FX_ONE / 2, FX_ONE),
        }),
    });
    let hit = probe_hit(&simple);
    let deflection = simple.deflect(&ray, &hit, &mut rng).expect("must scatter");
    assert_eq!(deflection.attenuation, Color::new(FX_ONE / 4, FX_ONE / 2, FX_ONE));
}
