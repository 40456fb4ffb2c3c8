//! Vectors, intervals, intersections and materials on concrete scenes.

use raytracing_series::color::Color;
use raytracing_series::fx::{Fx, SCALE};
use raytracing_series::hittable::{HitResult, Hittable};
use raytracing_series::hittable_list::HittableList;
use raytracing_series::interval::Interval;
use raytracing_series::material::{Dielectric, Lambertian, Material, Metal};
use raytracing_series::ray::Ray;
use raytracing_series::sphere::Sphere;
use raytracing_series::utilities::Rng;
use raytracing_series::vec3::Vec3;

fn to_f64(x: Fx) -> f64 {
    x.raw as f64 / SCALE as f64
}

fn fxi(n: i64) -> Fx {
    Fx::from_int(n)
}

fn fxf(x: f64) -> Fx {
    Fx::from_raw((x * SCALE as f64).round() as i64)
}

fn v(x: f64, y: f64, z: f64) -> Vec3 {
    Vec3::new(fxf(x), fxf(y), fxf(z))
}

fn gray() -> Material {
    Material::Lambertian(Lambertian::new(v(0.5, 0.5, 0.5)))
}

#[test]
fn vector_algebra_basics() {
    let a = v(1.0, 2.0, 3.0);
    let b = v(4.0, -5.0, 6.0);
    let s = a.add(b);
    assert_eq!((to_f64(s.x()), to_f64(s.y()), to_f64(s.z())), (5.0, -3.0, 9.0));
    let d = Vec3::dot(&a, &b);
    assert_eq!(to_f64(d), 4.0 - 10.0 + 18.0);
    let c = Vec3::cross(&a, &b);
    assert_eq!((to_f64(c.x()), to_f64(c.y()), to_f64(c.z())), (27.0, 6.0, -13.0));
    assert_eq!(to_f64(v(3.0, 4.0, 0.0).len()), 5.0);
    let n = v(0.0, 0.0, 8.0).normalized();
    assert_eq!(to_f64(n.z()), 1.0);
}

#[test]
fn near_zero_keeps_componentwise_quirk() {
    // the test compares components with `<`, without absolute values
    assert!(Vec3::zero().near_zero());
    assert!(v(-5.0, -5.0, -5.0).near_zero());
    assert!(!v(1.0, 0.0, 0.0).near_zero());
}

#[test]
fn reflect_mirrors_across_normal() {
    let r = Vec3::reflect(&v(1.0, -1.0, 0.0), &v(0.0, 1.0, 0.0));
    assert!((to_f64(r.x()) - 1.0).abs() < 1e-3);
    assert!((to_f64(r.y()) - 1.0).abs() < 1e-3);
    assert!(to_f64(r.z()).abs() < 1e-3);
}

#[test]
fn interval_contains_and_surrounds() {
    let i = Interval::new(fxi(1), fxi(3));
    assert!(i.contains(fxi(1)) && i.contains(fxi(3)));
    assert!(!i.surrounds(fxi(1)) && !i.surrounds(fxi(3)));
    assert!(i.surrounds(fxi(2)));
    assert!(!Interval::empty().contains(fxi(0)));
    assert!(Interval::universe().contains(fxi(-1000)));
    assert_eq!(i.clamp(fxi(0)).raw, SCALE);
    assert_eq!(i.clamp(fxi(5)).raw, 3 * SCALE);
    assert_eq!(i.clamp(fxi(2)).raw, 2 * SCALE);
}

#[test]
fn sphere_hit_location_on_surface_and_t_in_window() {
    // the hit point sits a radius away from the center, within tolerance,
    // and the parameter lies strictly inside the query window
    let s = Sphere::new(v(0.0, 0.0, -3.0), fxi(1), gray());
    let ray = Ray::new(Vec3::zero(), v(0.0, 0.0, -1.0));
    let window = Interval::new(fxf(0.001), fxi(1000));
    let h = s.hit(&ray, window).expect("ray aimed at the sphere must hit");
    assert!((to_f64(h.t) - 2.0).abs() < 1e-3);
    assert!(window.surrounds(h.t));
    let off = h.location.sub(v(0.0, 0.0, -3.0));
    let dist = to_f64(off.len());
    assert!((dist - 1.0).abs() < 1e-2, "distance to center {dist}");
}

#[test]
fn sphere_miss_and_degenerate_cases() {
    let s = Sphere::new(v(0.0, 0.0, -3.0), fxi(1), gray());
    let window = Interval::new(fxf(0.001), fxi(1000));
    // aimed away: negative discriminant
    assert!(s.hit(&Ray::new(Vec3::zero(), v(0.0, 1.0, 0.0)), window).is_none());
    // a window that excludes both roots
    let tight = Interval::new(fxf(0.001), fxf(1.5));
    assert!(s.hit(&Ray::new(Vec3::zero(), v(0.0, 0.0, -1.0)), tight).is_none());
    // degenerate geometry counts as a miss
    let point = Sphere::new(v(0.0, 0.0, -3.0), fxi(0), gray());
    assert!(point.hit(&Ray::new(Vec3::zero(), v(0.0, 0.0, -1.0)), window).is_none());
    assert!(s.hit(&Ray::new(Vec3::zero(), Vec3::zero()), window).is_none());
}

#[test]
fn hit_from_inside_uses_far_root_and_flips_normal() {
    // camera inside the sphere: the near root is behind the window
    let s = Sphere::new(Vec3::zero(), fxi(2), gray());
    let ray = Ray::new(Vec3::zero(), v(0.0, 0.0, -1.0));
    let window = Interval::new(fxf(0.001), fxi(1000));
    let h = s.hit(&ray, window).expect("inside hit");
    assert!((to_f64(h.t) - 2.0).abs() < 1e-2);
    assert!(!h.front_face);
    // the stored normal opposes the ray direction
    let d = Vec3::dot(&ray.direction(), &h.normal);
    assert!(d.raw <= 0);
}

#[test]
fn normal_faces_against_incoming_ray() {
    let window = Interval::new(fxf(0.001), fxi(1000));
    let s = Sphere::new(v(0.0, 0.0, -5.0), fxi(1), gray());
    for dir in [v(0.0, 0.0, -1.0), v(0.05, 0.01, -1.0), v(-0.1, 0.1, -1.0)] {
        let ray = Ray::new(Vec3::zero(), dir);
        if let Some(h) = s.hit(&ray, window) {
            assert!(Vec3::dot(&ray.direction(), &h.normal).raw <= 0);
        }
    }
}

#[test]
fn scene_returns_closest_of_two_overlapping_spheres() {
    let window = Interval::new(fxf(0.001), fxi(1000));
    let near = Sphere::new(v(0.0, 0.0, -3.0), fxi(1), gray());
    let far = Sphere::new(v(0.0, 0.0, -6.0), fxi(1), gray());
    let ray = Ray::new(Vec3::zero(), v(0.0, 0.0, -1.0));
    let t_near = near.hit(&ray, window).unwrap().t;

    let mut world = HittableList::new();
    world.add(near);
    world.add(far);
    let h = world.hit(&ray, window).expect("scene hit");
    assert_eq!(h.t.raw, t_near.raw);

    // insertion order must not matter
    let mut reversed = HittableList::new();
    reversed.add(far);
    reversed.add(near);
    let h2 = reversed.hit(&ray, window).expect("scene hit");
    assert_eq!(h2.t.raw, t_near.raw);

    let mut empty = HittableList::new();
    empty.add(near);
    empty.clear();
    assert!(empty.hit(&ray, window).is_none());
}

#[test]
fn lambertian_always_scatters() {
    let lam = Lambertian::new(v(0.8, 0.4, 0.2));
    let mut rng = Rng::new(5);
    let ray = Ray::new(Vec3::zero(), v(0.0, 0.0, -1.0));
    let hr = HitResult::new(
        &ray,
        v(0.0, 0.0, -2.0),
        v(0.0, 0.0, 1.0),
        Material::Lambertian(lam),
        fxi(2),
    );
    for _ in 0..50 {
        let sc = lam.scatter(&ray, &hr, &mut rng).expect("diffuse never absorbs");
        assert_eq!(sc.attenuation().x.raw, fxf(0.8).raw);
    }
}

#[test]
fn metal_absorbs_exactly_on_wrong_side() {
    let mut rng = Rng::new(5);
    // head-on reflection with no fuzz stays on the good side
    let shiny = Metal::new(v(0.9, 0.9, 0.9), Fx::zero());
    let ray = Ray::new(Vec3::zero(), v(0.0, -1.0, 0.0));
    let hr = HitResult::new(
        &ray,
        v(0.0, 0.0, 0.0),
        v(0.0, 1.0, 0.0),
        Material::Metal(shiny),
        fxi(1),
    );
    let sc = shiny.scatter(&ray, &hr, &mut rng).expect("mirror reflection scatters");
    let d = sc.scattered_ray().direction();
    assert!(Vec3::dot(&d, &hr.normal).raw > 0);

    // a hit record whose normal points along the reflection's wrong side
    let wrong = HitResult {
        location: Vec3::zero(),
        normal: v(0.0, -1.0, 0.0),
        material: Material::Metal(shiny),
        t: fxi(1),
        front_face: true,
    };
    assert!(shiny.scatter(&ray, &wrong, &mut rng).is_none());
}

#[test]
fn dielectric_always_scatters_and_obeys_snell_when_refracting() {
    let glass = Dielectric::new(fxf(1.5));
    let ray = Ray::new(v(-1.0, 1.0, 0.0), v(1.0, -1.0, 0.0));
    let hr = HitResult::new(
        &ray,
        v(0.0, 0.0, 0.0),
        v(0.0, 1.0, 0.0),
        Material::Dielectric(glass),
        fxi(1),
    );
    assert!(hr.front_face);
    let mut refracted_seen = false;
    for seed in 0..40u64 {
        let mut rng = Rng::new(seed);
        let sc = glass.scatter(&ray, &hr, &mut rng).expect("glass never absorbs");
        let dir = sc.scattered_ray().direction();
        if dir.y().raw < 0 {
            // refracted: check Snell, sin(in) = sqrt(0.5), n1 = 1, n2 = 1.5
            refracted_seen = true;
            let len = to_f64(dir.len());
            let sin_out = to_f64(dir.x()) / len;
            let sin_in = (0.5f64).sqrt();
            assert!(
                (1.0 * sin_in - 1.5 * sin_out * 1.0).abs() < 0.02,
                "snell violated: sin_in {sin_in} sin_out {sin_out}"
            );
        }
    }
    assert!(refracted_seen, "no seed refracted at 45 degrees through glass");
}

#[test]
fn total_internal_reflection_reflects() {
    // leaving glass at a grazing angle: ratio * sin(theta) > 1
    let glass = Dielectric::new(fxf(1.5));
    let ray = Ray::new(v(-1.0, 0.5, 0.0), v(1.0, -0.5, 0.0));
    let hr = HitResult {
        location: Vec3::zero(),
        normal: v(0.0, 1.0, 0.0),
        material: Material::Dielectric(glass),
        t: fxi(1),
        front_face: false,
    };
    for seed in 0..10u64 {
        let mut rng = Rng::new(seed);
        let sc = glass.scatter(&ray, &hr, &mut rng).expect("scatter");
        // reflected: stays on the upper side
        assert!(sc.scattered_ray().direction().y().raw > 0);
    }
}

#[test]
fn background_gradient_is_monotone_in_y() {
    let world = HittableList::new();
    let mut last_r = i64::MAX;
    let mut last_g = i64::MAX;
    for k in 0..9 {
        let y = -1.0 + 0.25 * k as f64;
        let dir = v(0.0, y, -1.0).normalized();
        let ray = Ray::new(Vec3::zero(), dir);
        let mut rng = Rng::new(1);
        let c = ray.color(&world, 3, &mut rng);
        assert!(c.r().raw <= last_r, "red must not grow with y");
        assert!(c.g().raw <= last_g, "green must not grow with y");
        assert_eq!(c.b().raw, SCALE, "blue stays at one across the gradient");
        last_r = c.r().raw;
        last_g = c.g().raw;
    }
    // endpoints: white below, the sky color above
    let down = Ray::new(Vec3::zero(), v(0.0, -1.0, 0.0));
    let mut rng = Rng::new(1);
    let c0 = down.color(&world, 3, &mut rng);
    assert!((to_f64(c0.r()) - 1.0).abs() < 0.01);
    let up = Ray::new(Vec3::zero(), v(0.0, 1.0, 0.0));
    let c1 = up.color(&world, 3, &mut rng);
    assert!((to_f64(c1.r()) - 0.5).abs() < 0.01);
    assert!((to_f64(c1.g()) - 0.7).abs() < 0.01);
}

#[test]
fn gamma_round_trip_is_tight() {
    for raw in [0i64, 1, 100, 5000, 32768, 64000, 65536] {
        let c = Color::new(Fx::from_raw(raw), Fx::from_raw(raw), Fx::from_raw(raw));
        let rt = Color::gamma_to_linear(&Color::linear_to_gamma(&c));
        assert!(rt.x().raw <= raw);
        assert!(raw - rt.x().raw <= 2, "{raw} came back as {}", rt.x().raw);
    }
    // an exact case: 0.25 -> 0.5 -> 0.25
    let quarter = Color::new(fxf(0.25), fxf(0.25), fxf(0.25));
    let enc = Color::linear_to_gamma(&quarter);
    assert_eq!(enc.x().raw, SCALE / 2);
    assert_eq!(Color::gamma_to_linear(&enc).x().raw, fxf(0.25).raw);
}

#[test]
fn depth_zero_returns_black() {
    let mut world = HittableList::new();
    world.add(Sphere::new(v(0.0, 0.0, -3.0), fxi(1), gray()));
    let ray = Ray::new(Vec3::zero(), v(0.0, 0.0, -1.0));
    let mut rng = Rng::new(9);
    let c = ray.color(&world, 0, &mut rng);
    assert_eq!((c.r().raw, c.g().raw, c.b().raw), (0, 0, 0));
}

#[test]
fn negative_radius_flips_the_normal_convention() {
    // a hollow glass shell is modelled as a sphere with negative radius:
    // the quadratic only sees radius squared, so the geometry is unchanged,
    // but the outward normal points inward and front_face flips
    let window = Interval::new(fxf(0.001), fxi(1000));
    let ray = Ray::new(Vec3::zero(), v(0.0, 0.0, -1.0));
    let solid = Sphere::new(v(0.0, 0.0, -3.0), fxi(1), gray());
    let shell = Sphere::new(v(0.0, 0.0, -3.0), fxi(-1), gray());
    let hs = solid.hit(&ray, window).expect("solid hit");
    let hh = shell.hit(&ray, window).expect("shell hit");
    assert_eq!(hs.t.raw, hh.t.raw, "same surface in space");
    assert!(hs.front_face);
    assert!(!hh.front_face);
    // both stored normals still oppose the incoming ray
    assert!(Vec3::dot(&ray.direction(), &hs.normal).raw <= 0);
    assert!(Vec3::dot(&ray.direction(), &hh.normal).raw <= 0);
}
