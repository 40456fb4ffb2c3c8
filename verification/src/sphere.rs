//! The sphere primitive and its ray intersection test.

use crate::fx::Fx;
use crate::hittable::{HitResult, Hittable};
use crate::interval::Interval;
use crate::material::Material;
use crate::ray::Ray;
use crate::vec3::Vec3;
use crate::Point;
use vstd::prelude::*;

verus! {

#[derive(Clone, Copy, Debug, PartialEq, Eq, Structural)]
pub struct Sphere {
    pub center: Point,
    pub radius: Fx,
    pub material: Material,
}

impl Sphere {
    pub fn new(center: Point, radius: Fx, material: Material) -> (r: Sphere)
        ensures
            r == (Sphere { center, radius, material }),
    {
        Sphere { center, radius, material }
    }

    /// Where the ray first meets the sphere strictly inside `interval`.
    ///
    /// With `oc` the origin relative to the center, the candidates are the
    /// roots of the quadratic `|oc + t*d|^2 = radius^2`, solved through its
    /// half discriminant; the smaller root is tried first, so the nearer
    /// surface wins, and the larger one only if the window rejects it.  A
    /// negative discriminant means a miss.  A zero radius or a direction of
    /// zero squared length is degenerate geometry and reports a miss, since
    /// neither admits the division the test needs.
    pub open spec fn spec_hit(self, ray: Ray, interval: Interval) -> Option<HitResult> {
        if self.radius@ == 0 || ray.direction.spec_len_sq()@ == 0 {
            None
        } else {
            let oc = ray.origin.spec_sub_v(self.center);
            let a = ray.direction.spec_len_sq();
            let half_b = oc.spec_dot(ray.direction);
            let c = oc.spec_len_sq().spec_sub(self.radius.spec_mul(self.radius));
            let discriminant = half_b.spec_mul(half_b).spec_sub(a.spec_mul(c));
            if discriminant@ < 0 {
                None
            } else {
                let sqrtd = discriminant.spec_sqrt();
                let root1 = half_b.spec_neg().spec_sub(sqrtd).spec_div(a);
                let root2 = half_b.spec_neg().spec_add(sqrtd).spec_div(a);
                let root = if interval.spec_surrounds(root1) {
                    root1
                } else {
                    root2
                };
                if !interval.spec_surrounds(root) {
                    None
                } else {
                    let location = ray.spec_at(root);
                    let outward = location.spec_sub_v(self.center).spec_div_k(self.radius);
                    Some(HitResult::spec_new(ray, location, outward, self.material, root))
                }
            }
        }
    }
}

impl Hittable for Sphere {
    fn hit(&self, ray: &Ray, interval: Interval) -> (r: Option<HitResult>)
        ensures
            r == self.spec_hit(*ray, interval),
    {
        if self.radius.raw == 0 {
            return None;
        }
        let a = ray.direction().len_squared();
        if a.raw == 0 {
            return None;
        }
        let oc = ray.origin().sub(self.center);
        let half_b = Vec3::dot(&oc, &ray.direction());
        let c = oc.len_squared().sub(self.radius.mul(self.radius));
        let discriminant = half_b.mul(half_b).sub(a.mul(c));
        if discriminant.raw < 0 {
            return None;
        }
        let sqrtd = discriminant.sqrt();
        let mut root = half_b.neg().sub(sqrtd).div(a);
        if !interval.surrounds(root) {
            root = half_b.neg().add(sqrtd).div(a);
            if !interval.surrounds(root) {
                return None;
            }
        }
        let t = root;
        let location = ray.at(t);
        let outward = location.sub(self.center).div(self.radius);
        proof {
            assert(outward.spec_bounded());
        }
        Some(HitResult::new(ray, location, outward, self.material, t))
    }
}

/// Every hit a sphere reports lies strictly inside the query window, sits
/// exactly at `origin + t * direction`, and carries a normal that does not
/// point along the incoming ray.
pub proof fn lemma_sphere_hit_sound(s: Sphere, ray: Ray, interval: Interval, h: HitResult)
    requires
        s.spec_hit(ray, interval) == Some(h),
    ensures
        interval.spec_surrounds(h.t),
        h.location == ray.spec_at(h.t),
        ray.direction.spec_dot(h.normal)@ <= 0,
{
    let oc = ray.origin.spec_sub_v(s.center);
    let a = ray.direction.spec_len_sq();
    let half_b = oc.spec_dot(ray.direction);
    let c = oc.spec_len_sq().spec_sub(s.radius.spec_mul(s.radius));
    let discriminant = half_b.spec_mul(half_b).spec_sub(a.spec_mul(c));
    let sqrtd = discriminant.spec_sqrt();
    let root1 = half_b.spec_neg().spec_sub(sqrtd).spec_div(a);
    let root2 = half_b.spec_neg().spec_add(sqrtd).spec_div(a);
    let root = if interval.spec_surrounds(root1) {
        root1
    } else {
        root2
    };
    let location = ray.spec_at(root);
    let outward = location.spec_sub_v(s.center).spec_div_k(s.radius);
    assert(h == HitResult::spec_new(ray, location, outward, s.material, root));
    assert(outward.spec_bounded());
    if ray.direction.spec_dot(outward)@ < 0 {
        assert(h.normal == outward);
    } else {
        crate::vec3::lemma_dot_flip(ray.direction, outward);
    }
}

/// Shrinking the upper end of the query window either preserves a sphere's
/// reported hit (when the window still strictly contains its parameter) or
/// turns it into a miss; it never produces a different hit.  This is what
/// lets a scene scan keep only the closest hit.
pub proof fn lemma_sphere_hit_narrow(
    s: Sphere,
    ray: Ray,
    outer: Interval,
    inner: Interval,
    h: HitResult,
)
    requires
        s.spec_hit(ray, outer) == Some(h),
        inner.min == outer.min,
        inner.max@ <= outer.max@,
    ensures
        inner.spec_surrounds(h.t) ==> s.spec_hit(ray, inner) == Some(h),
        !inner.spec_surrounds(h.t) ==> s.spec_hit(ray, inner) is None,
{
    assert(s.radius@ != 0);
    assert(ray.direction.spec_len_sq()@ != 0);
    let oc = ray.origin.spec_sub_v(s.center);
    let a = ray.direction.spec_len_sq();
    let half_b = oc.spec_dot(ray.direction);
    let c = oc.spec_len_sq().spec_sub(s.radius.spec_mul(s.radius));
    let discriminant = half_b.spec_mul(half_b).spec_sub(a.spec_mul(c));
    assert(discriminant@ >= 0);
    let sqrtd = discriminant.spec_sqrt();
    crate::fx::lemma_spec_sqrt_bounds(discriminant);
    assert(sqrtd@ >= 0);
    crate::vec3::lemma_len_sq_nonneg(ray.direction);
    assert(a@ > 0);
    let n1 = half_b.spec_neg().spec_sub(sqrtd);
    let n2 = half_b.spec_neg().spec_add(sqrtd);
    assert(n1@ <= n2@);
    assert(n1@ * (crate::fx::SCALE as int) <= n2@ * (crate::fx::SCALE as int));
    crate::fx::lemma_tz_div_mono(
        n1@ * (crate::fx::SCALE as int),
        n2@ * (crate::fx::SCALE as int),
        a@,
    );
    let root1 = n1.spec_div(a);
    let root2 = n2.spec_div(a);
    assert(root1@ <= root2@);
    if outer.spec_surrounds(root1) {
        assert(h.t == root1);
        if inner.spec_surrounds(root1) {
            assert(s.spec_hit(ray, inner) == Some(h));
        } else {
            // the window's lower end did not move, so the smaller root now
            // sits at or beyond the upper end, and the larger one with it
            assert(root1@ >= inner.max@);
            assert(!inner.spec_surrounds(root2));
            assert(s.spec_hit(ray, inner) is None);
        }
    } else {
        assert(outer.spec_surrounds(root2) && h.t == root2);
        assert(!inner.spec_surrounds(root1));
        if inner.spec_surrounds(root2) {
            assert(s.spec_hit(ray, inner) == Some(h));
        } else {
            assert(s.spec_hit(ray, inner) is None);
        }
    }
}

} // verus!
