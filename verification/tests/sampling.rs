//! The random vector generators: region membership and determinism.

use raytracing_series::fx::{Fx, SCALE};
use raytracing_series::utilities::Rng;
use raytracing_series::vec3::Vec3;

fn to_f64(x: Fx) -> f64 {
    x.raw as f64 / SCALE as f64
}

#[test]
fn rand_vec_components_in_unit_range() {
    let mut rng = Rng::new(11);
    for _ in 0..100 {
        let v = Vec3::rand(&mut rng);
        for c in [v.x(), v.y(), v.z()] {
            assert!(0 <= c.raw && c.raw < SCALE);
        }
    }
}

#[test]
fn rand_unit_in_sphere_stays_strictly_inside() {
    let mut rng = Rng::new(3);
    for _ in 0..200 {
        let p = Vec3::rand_unit_in_sphere(&mut rng);
        let lsq = p.len_squared().raw;
        assert!(0 < lsq && lsq < SCALE, "squared length {lsq} outside (0, 1)");
    }
}

#[test]
fn rand_unit_has_roughly_unit_length() {
    let mut rng = Rng::new(3);
    for _ in 0..200 {
        let u = Vec3::rand_unit(&mut rng);
        let len = to_f64(u.len());
        assert!((len - 1.0).abs() < 0.02, "unit draw has length {len}");
    }
}

#[test]
fn rand_on_hemisphere_points_with_the_normal() {
    let mut rng = Rng::new(17);
    let normal = Vec3::new(Fx::zero(), Fx::one(), Fx::zero());
    for _ in 0..200 {
        let u = Vec3::rand_on_hemisphere(&mut rng, &normal);
        assert!(Vec3::dot(&u, &normal).raw >= 0);
    }
}

#[test]
fn rand_in_unit_disk_stays_flat_and_inside() {
    let mut rng = Rng::new(23);
    for _ in 0..200 {
        let p = Vec3::rand_in_unit_disk(&mut rng);
        assert_eq!(p.z().raw, 0);
        assert!(p.len_squared().raw < SCALE);
    }
}

#[test]
fn generators_replay_from_equal_seeds() {
    let mut a = Rng::new(1234);
    let mut b = Rng::new(1234);
    for _ in 0..20 {
        assert_eq!(Vec3::rand_unit(&mut a), Vec3::rand_unit(&mut b));
    }
    assert_eq!(a.state, b.state);
}
