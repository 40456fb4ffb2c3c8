//! A recursive Monte Carlo path tracer over exact fixed-point arithmetic.
//!
//! Scenes are lists of spheres with diffuse, metallic or refractive
//! surfaces; a camera casts jittered rays through a viewport, bounces them
//! off the scene's materials, and averages the gathered radiance into a
//! flat RGB byte buffer.  Every scalar is a `fx::Fx` on a 16-bit fractional
//! grid, every random draw comes from an explicit seedable stream, and each
//! executable step is specified exactly, so a whole frame is a proven
//! function of the camera, the scene and the seed - which makes renders
//! reproducible and lets the sequential and the parallel path agree byte
//! for byte.

pub mod camera;
pub mod color;
pub mod fx;
pub mod hittable;
pub mod hittable_list;
pub mod interval;
pub mod material;
pub mod ray;
pub mod raytracer;
pub mod sphere;
pub mod utilities;
pub mod vec3;

pub use fx::Fx;
pub use vec3::Vec3 as Point;
