//! End-to-end rendering: reproducibility and the agreement of the
//! sequential and parallel paths.

use raytracing_series::fx::{Fx, SCALE};
use raytracing_series::hittable_list::HittableList;
use raytracing_series::material::{Dielectric, Lambertian, Material};
use raytracing_series::raytracer::{ExecutionMethod, Raytracer, RaytracerOptions};
use raytracing_series::sphere::Sphere;
use raytracing_series::vec3::Vec3;
use raytracing_series::Point;

fn fxf(x: f64) -> Fx {
    Fx::from_raw((x * SCALE as f64).round() as i64)
}

fn v(x: f64, y: f64, z: f64) -> Vec3 {
    Vec3::new(fxf(x), fxf(y), fxf(z))
}

fn small_scene() -> HittableList {
    let mut world = HittableList::new();
    world.add(Sphere::new(
        v(0.0, -100.5, -1.0),
        Fx::from_int(100),
        Material::Lambertian(Lambertian::new(v(0.8, 0.8, 0.0))),
    ));
    world.add(Sphere::new(
        v(0.0, 0.0, -1.0),
        fxf(0.5),
        Material::Dielectric(Dielectric::new(fxf(1.5))),
    ));
    world
}

fn small_tracer() -> Raytracer {
    Raytracer::new(
        fxf(20.0 / 11.0),
        20,
        1,
        5,
        Fx::from_int(90),
        Point::zero(),
        v(0.0, 0.0, -1.0),
        Fx::from_int(10),
        Fx::zero(),
    )
}

#[test]
fn buffer_has_expected_shape() {
    let tracer = small_tracer();
    assert_eq!(tracer.width(), 20);
    assert_eq!(tracer.height(), 11);
    assert_eq!(tracer.data().len(), 20 * 11 * 3);
    assert!(tracer.data().iter().all(|&b| b == 0));
}

#[test]
fn render_is_reproducible_with_a_seed() {
    let world = small_scene();
    let mut first = small_tracer();
    first.render(&world, RaytracerOptions::new(ExecutionMethod::Single).with_seed(12345));
    let mut second = small_tracer();
    second.render(&world, RaytracerOptions::new(ExecutionMethod::Single).with_seed(12345));
    assert_eq!(first.data(), second.data());
    assert_eq!(first.data().len(), 20 * 11 * 3);
    // the frame is not trivially black: the sky alone guarantees light
    assert!(first.data().iter().any(|&b| b > 0));

    let mut other = small_tracer();
    other.render(&world, RaytracerOptions::new(ExecutionMethod::Single).with_seed(54321));
    assert_ne!(first.data(), other.data(), "a different seed must jitter differently");
}

#[test]
fn parallel_matches_sequential() {
    let world = small_scene();
    let mut sequential = small_tracer();
    sequential.render(&world, RaytracerOptions::new(ExecutionMethod::Single).with_seed(2024));
    let mut parallel = small_tracer();
    parallel.render(&world, RaytracerOptions::new(ExecutionMethod::Parallel).with_seed(2024));
    assert_eq!(sequential.data(), parallel.data());
}

#[test]
fn parallel_is_reproducible_too() {
    let world = small_scene();
    let mut first = small_tracer();
    first.render(&world, RaytracerOptions::new(ExecutionMethod::Parallel).with_seed(99));
    let mut second = small_tracer();
    second.render(&world, RaytracerOptions::new(ExecutionMethod::Parallel).with_seed(99));
    assert_eq!(first.data(), second.data());
}

#[test]
fn default_camera_dimensions() {
    let cam = raytracing_series::camera::Camera::default();
    assert_eq!(cam.width(), 400);
    assert_eq!(cam.height(), 225);
}

#[test]
fn render_on_empty_scene_paints_the_sky() {
    let world = HittableList::new();
    let mut tracer = small_tracer();
    tracer.render(&world, RaytracerOptions::new(ExecutionMethod::Single));
    // row-major, top row first: the top-left pixel looks upward, so it is
    // bluer than red; every blue byte of the sky is high
    let data = tracer.data();
    assert_eq!(data.len(), 20 * 11 * 3);
    assert!(data[2] >= data[0]);
    for px in 0..20 * 11 {
        assert!(data[px * 3 + 2] > 200, "sky blue channel is bright");
    }
}
