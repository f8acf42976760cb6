//! Vector algebra over the 32-fractional-bit fixed-point scalars: one raw
//! unit is 1/2^32, and `FX_ONE` stands for 1.0.

use raytracer::fixed::FX_ONE;
use raytracer::rng::RandomSource;
use raytracer::vector::Vector;

#[test]
fn test_dot() {
    let a = Vector::new(FX_ONE, 2 * FX_ONE, 3 * FX_ONE);
    let b = Vector::new(4 * FX_ONE, 5 * FX_ONE, 6 * FX_ONE);
    assert_eq!(a.dot(&b), 32 * FX_ONE);
}

#[test]
fn test_cross() {
    let a = Vector::new(FX_ONE, 2 * FX_ONE, 3 * FX_ONE);
    let b = Vector::new(4 * FX_ONE, 5 * FX_ONE, 6 * FX_ONE);
    assert_eq!(a.cross(&b), Vector::new(-3 * FX_ONE, 6 * FX_ONE, -3 * FX_ONE));
}

#[test]
fn test_length() {
    let a = Vector::new(FX_ONE, 2 * FX_ONE, 3 * FX_ONE);
    // floor(sqrt(14) * 2^32)
    assert_eq!(a.length(), 16070296109);
}

#[test]
fn test_length_squared() {
    let a = Vector::new(FX_ONE, 2 * FX_ONE, 3 * FX_ONE);
    assert_eq!(a.length_squared(), 14 * FX_ONE);
}

#[test]
fn test_normalize() {
    let a = Vector::new(FX_ONE, 2 * FX_ONE, 3 * FX_ONE);
    let normalized = a.normalize();
    // each coordinate divided by floor(sqrt(14) * 2^32)
    assert_eq!(normalized, Vector::new(1147878293, 2295756587, 3443634880));
    // unit up to the truncation of the fixed-point divisions
    assert!((normalized.length() - FX_ONE).abs() <= 4);
}

#[test]
fn test_random_with_range() {
    let mut rng = RandomSource::from_seed(7);
    for _ in 0..100 {
        let a = Vector::random_with_range(&mut rng, 0, FX_ONE);
        assert!(a.x >= 0 && a.x < FX_ONE);
        assert!(a.y >= 0 && a.y < FX_ONE);
        assert!(a.z >= 0 && a.z < FX_ONE);
    }
}

#[test]
fn test_random_in_unit_sphere() {
    let mut rng = RandomSource::from_seed(8);
    for _ in 0..100 {
        let a = Vector::random_in_unit_sphere(&mut rng);
        assert!(a.length() < FX_ONE);
    }
}

#[test]
fn test_random_unit_vector() {
    let mut rng = RandomSource::from_seed(9);
    for _ in 0..100 {
        let a = Vector::random_unit_vector(&mut rng);
        // the contract bounds the length within 42 raw units of one, the
        // bound standing for 1e-8
        assert!(
            (a.length() - FX_ONE).abs() <= 42,
            "a.length(): {:?}",
            a.length()
        );
    }
}

#[test]
fn test_random_in_hemisphere() {
    let mut rng = RandomSource::from_seed(10);
    for _ in 0..100 {
        let normal = Vector::new(0, 0, FX_ONE);
        let a = Vector::random_in_hemisphere(&mut rng, &normal);
        assert!(a.dot(&normal) > 0);
    }
}

#[test]
fn test_random_in_unit_disk() {
    let mut rng = RandomSource::from_seed(11);
    for _ in 0..100 {
        let a = Vector::random_in_unit_disk(&mut rng);
        assert!(a.length() < FX_ONE);
        assert_eq!(a.z, 0);
    }
}

#[test]
fn test_reflect() {
    let v = Vector::new(FX_ONE, -FX_ONE, 0);
    let n = Vector::new(0, FX_ONE, 0);
    assert_eq!(v.reflect(&n), Vector::new(FX_ONE, FX_ONE, 0));
}

#[test]
fn test_is_near_zero() {
    // 4 raw units stand for about 1e-9, well below the 1e-8 threshold
    let a = Vector::new(4, 4, 4);
    assert!(a.is_near_zero());
    let b = Vector::new(FX_ONE, 0, 0);
    assert!(!b.is_near_zero());
}

#[test]
fn vector_test_add() {
    let a = Vector::new(FX_ONE, 2 * FX_ONE, 3 * FX_ONE);
    let b = Vector::new(4 * FX_ONE, 5 * FX_ONE, 6 * FX_ONE);
    assert_eq!(a.add(b), Vector::new(5 * FX_ONE, 7 * FX_ONE, 9 * FX_ONE));
}

#[test]
fn test_sub() {
    let a = Vector::new(FX_ONE, 2 * FX_ONE, 3 * FX_ONE);
    let b = Vector::new(4 * FX_ONE, 5 * FX_ONE, 6 * FX_ONE);
    assert_eq!(a.sub(b), Vector::new(-3 * FX_ONE, -3 * FX_ONE, -3 * FX_ONE));
}

#[test]
fn test_mul_f64_for_vector() {
    let a = Vector::new(FX_ONE, 2 * FX_ONE, 3 * FX_ONE);
    assert_eq!(a.mul(2 * FX_ONE), Vector::new(2 * FX_ONE, 4 * FX_ONE, 6 * FX_ONE));
}

#[test]
fn test_mul_vector_for_f64() {
    let a = Vector::new(FX_ONE, 2 * FX_ONE, 3 * FX_ONE);
    assert_eq!(a.mul(2 * FX_ONE), Vector::new(2 * FX_ONE, 4 * FX_ONE, 6 * FX_ONE));
}

#[test]
fn test_div_f64_for_vector() {
    let a = Vector::new(2 * FX_ONE, 4 * FX_ONE, 6 * FX_ONE);
    assert_eq!(a.div(2 * FX_ONE), Vector::new(FX_ONE, 2 * FX_ONE, 3 * FX_ONE));
}

#[test]
fn test_mul_assign_f64_for_vector() {
    let mut a = Vector::new(FX_ONE, 2 * FX_ONE, 3 * FX_ONE);
    a.mul_assign(2 * FX_ONE);
    assert_eq!(a, Vector::new(2 * FX_ONE, 4 * FX_ONE, 6 * FX_ONE));
}

#[test]
fn test_neg() {
    let a = Vector::new(FX_ONE, 2 * FX_ONE, 3 * FX_ONE);
    assert_eq!(a.neg(), Vector::new(-FX_ONE, -2 * FX_ONE, -3 * FX_ONE));
}
