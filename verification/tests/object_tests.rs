//! Geometry: the facing rule, sphere and quad intersection, and the
//! nearest-hit scan of a collection.

use raytracer::color::Color;
use raytracer::fixed::FX_ONE;
use raytracer::material::{Lambertian, Material};
use raytracer::object::{set_facing, Collection, Facing, Hit, Object, Quad, Sphere};
use raytracer::ray::Ray;
use raytracer::vector::Vector;

fn gray() -> Material {
    Material::Lambertian(Lambertian {
        albedo: Color::new(FX_ONE / 2, FX_ONE / 2, FX_ONE / 2),
    })
}

#[test]
fn test_set_facing() {
    let ray = Ray {
        origin: Vector::new(0, 0, 0),
        direction: Vector::new(FX_ONE, 0, 0),
    };
    let normal = Vector::new(FX_ONE, 0, 0);
    let (normal, facing) = set_facing(&ray, normal);
    assert_eq!(normal, Vector::new(-FX_ONE, 0, 0));
    assert_eq!(facing, Facing::Outward);

    let ray = Ray {
        origin: Vector::new(0, 0, 0),
        direction: Vector::new(-FX_ONE, 0, 0),
    };
    let normal = Vector::new(FX_ONE, 0, 0);
    let (normal, facing) = set_facing(&ray, normal);
    assert_eq!(normal, Vector::new(FX_ONE, 0, 0));
    assert_eq!(facing, Facing::Inward);
}

#[test]
fn test_unit_sphere_hit_from_origin() {
    // A sphere of radius 0.5 at (0, 0, -1), hit by a ray from the origin
    // pointing down the negative z axis: the hit is at t = 0.5 with normal
    // (0, 0, 1), and the ray meets the surface from outside, so the
    // direction opposes the normal.
    let sphere = Sphere {
        center: Vector::new(0, 0, -FX_ONE),
        radius: FX_ONE / 2,
        material: gray(),
    };
    let ray = Ray {
        origin: Vector::new(0, 0, 0),
        direction: Vector::new(0, 0, -FX_ONE),
    };
    let hit = sphere.hit(&ray, 0, 100 * FX_ONE).expect("the ray must hit");
    assert_eq!(hit.t, FX_ONE / 2);
    assert_eq!(hit.normal, Vector::new(0, 0, FX_ONE));
    assert_eq!(hit.facing, Facing::Inward);
}

#[test]
fn test_collection_hit_returns_nearest() {
    // Two spheres along the same ray: the reported hit is the smaller t.
    let near = Sphere {
        center: Vector::new(0, 0, -2 * FX_ONE),
        radius: FX_ONE / 2,
        material: gray(),
    };
    let far = Sphere {
        center: Vector::new(0, 0, -4 * FX_ONE),
        radius: FX_ONE / 2,
        material: gray(),
    };
    let ray = Ray {
        origin: Vector::new(0, 0, 0),
        direction: Vector::new(0, 0, -FX_ONE),
    };
    // order should not matter; try far-first
    let collection = Collection {
        objects: vec![Object::Sphere(far), Object::Sphere(near)],
    };
    let hit = collection.hit(&ray, 0, 100 * FX_ONE).expect("the ray must hit");
    assert_eq!(hit.t, 3 * FX_ONE / 2);
}

#[test]
fn test_quad_hit_center_uv() {
    // A unit quad in the z = 0 plane, hit exactly at q + 0.5 u + 0.5 v:
    // the surface coordinates are (0.5, 0.5).
    let quad = Quad::new(
        Vector::new(0, 0, 0),
        Vector::new(FX_ONE, 0, 0),
        Vector::new(0, FX_ONE, 0),
        gray(),
    );
    let ray = Ray {
        origin: Vector::new(FX_ONE / 2, FX_ONE / 2, -FX_ONE),
        direction: Vector::new(0, 0, FX_ONE),
    };
    let hit = quad.hit(&ray, 0, 100 * FX_ONE).expect("the ray must hit");
    assert_eq!(hit.u, FX_ONE / 2);
    assert_eq!(hit.v, FX_ONE / 2);
    assert_eq!(hit.t, FX_ONE);
}

#[test]
fn test_quad_miss_outside_parallelogram() {
    // The plane is hit, but the planar coordinates fall outside [0, 1]:
    // no hit is reported.
    let quad = Quad::new(
        Vector::new(0, 0, 0),
        Vector::new(FX_ONE, 0, 0),
        Vector::new(0, FX_ONE, 0),
        gray(),
    );
    let ray = Ray {
        origin: Vector::new(3 * FX_ONE / 2, FX_ONE / 2, -FX_ONE),
        direction: Vector::new(0, 0, FX_ONE),
    };
    assert!(quad.hit(&ray, 0, 100 * FX_ONE).is_none());
}

#[test]
fn test_quad_miss_parallel_ray() {
    let quad = Quad::new(
        Vector::new(0, 0, 0),
        Vector::new(FX_ONE, 0, 0),
        Vector::new(0, FX_ONE, 0),
        gray(),
    );
    let ray = Ray {
        origin: Vector::new(0, 0, -FX_ONE),
        direction: Vector::new(FX_ONE, 0, 0),
    };
    assert!(quad.hit(&ray, 0, 100 * FX_ONE).is_none());
}

#[test]
fn test_sphere_miss() {
    let sphere = Sphere {
        center: Vector::new(0, 0, -2 * FX_ONE),
        radius: FX_ONE / 2,
        material: gray(),
    };
    let ray = Ray {
        origin: Vector::new(0, 0, 0),
        direction: Vector::new(0, FX_ONE, 0),
    };
    assert!(sphere.hit(&ray, 0, 100 * FX_ONE).is_none());
}
