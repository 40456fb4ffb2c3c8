//! The intersection protocol: anything that can report where a ray first
//! meets it inside a parameter window.

use crate::fx::Fx;
use crate::interval::Interval;
use crate::material::Material;
use crate::ray::Ray;
use crate::vec3::{lemma_dot_flip, Vec3};
use crate::Point;
use vstd::prelude::*;

verus! {

/// A successful intersection: where it happened, the surface normal turned
/// against the incoming ray, the surface's material, the ray parameter, and
/// whether the geometric normal already opposed the ray.
#[derive(Clone, Copy, Debug, PartialEq, Eq, Structural)]
pub struct HitResult {
    pub location: Point,
    pub normal: Vec3,
    pub material: Material,
    pub t: Fx,
    pub front_face: bool,
}

impl HitResult {
    /// Orientation bookkeeping: the stored normal is the outward normal when
    /// that one already opposes the ray, and its negation otherwise.
    pub open spec fn spec_new(
        ray: Ray,
        location: Point,
        outward_normal: Vec3,
        material: Material,
        t: Fx,
    ) -> HitResult {
        let front_face = ray.direction.spec_dot(outward_normal)@ < 0;
        HitResult {
            location,
            normal: if front_face {
                outward_normal
            } else {
                outward_normal.spec_neg_v()
            },
            material,
            t,
            front_face,
        }
    }

    pub fn new(ray: &Ray, location: Point, normal: Vec3, material: Material, t: Fx) -> (r:
        HitResult)
        requires
            normal.spec_bounded(),
        ensures
            r == HitResult::spec_new(*ray, location, normal, material, t),
            ray.direction.spec_dot(r.normal)@ <= 0,
    {
        let d = Vec3::dot(&ray.direction(), &normal);
        let front_face = d.raw < 0;
        let oriented: Vec3;
        if front_face {
            oriented = normal;
        } else {
            proof {
                lemma_dot_flip(ray.direction, normal);
            }
            oriented = normal.neg();
        }
        HitResult { location, normal: oriented, material, t, front_face }
    }

    pub fn location(&self) -> (r: &Point)
        ensures
            *r == self.location,
    {
        &self.location
    }

    pub fn normal(&self) -> (r: &Vec3)
        ensures
            *r == self.normal,
    {
        &self.normal
    }

    pub fn t(&self) -> (r: Fx)
        ensures
            r == self.t,
    {
        self.t
    }

    pub fn front_face(&self) -> (r: bool)
        ensures
            r == self.front_face,
    {
        self.front_face
    }

    pub fn material(&self) -> (r: Material)
        ensures
            r == self.material,
    {
        self.material
    }
}

/// The protocol every intersectable shape obeys: a reported hit lies
/// strictly inside the query window, and its normal never points along the
/// incoming ray.
pub trait Hittable {
    fn hit(&self, ray: &Ray, interval: Interval) -> (r: Option<HitResult>)
        ensures
            match r {
                Some(h) => interval.spec_surrounds(h.t) && ray.direction.spec_dot(h.normal)@
                    <= 0,
                None => true,
            },
    ;
}

} // verus!
