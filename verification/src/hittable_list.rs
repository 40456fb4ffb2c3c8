//! The scene: an insertion-ordered collection of primitives that answers
//! intersection queries with the globally closest hit.

use crate::fx::Fx;
use crate::hittable::{HitResult, Hittable};
use crate::interval::Interval;
use crate::ray::Ray;
use crate::sphere::Sphere;
use vstd::prelude::*;

verus! {

pub struct HittableList {
    pub objects: Vec<Sphere>,
}

impl HittableList {
    pub fn new() -> (r: HittableList)
        ensures
            r.objects@ == Seq::<Sphere>::empty(),
    {
        HittableList { objects: Vec::new() }
    }

    pub fn add(&mut self, object: Sphere)
        ensures
            final(self).objects@ == old(self).objects@.push(object),
    {
        self.objects.push(object)
    }

    pub fn clear(&mut self)
        ensures
            final(self).objects@ == Seq::<Sphere>::empty(),
    {
        self.objects.clear()
    }

    /// The scan from member `i` on, with the best hit so far: the search
    /// window's upper end shrinks to each accepted hit's parameter, which is
    /// what makes the final answer the globally closest hit.
    pub open spec fn spec_hit_scan(
        objects: Seq<Sphere>,
        i: int,
        ray: Ray,
        min: Fx,
        closest: Fx,
        best: Option<HitResult>,
    ) -> Option<HitResult>
        decreases objects.len() - i,
    {
        if i < 0 || i >= objects.len() {
            best
        } else {
            match objects[i].spec_hit(ray, Interval { min, max: closest }) {
                None => HittableList::spec_hit_scan(objects, i + 1, ray, min, closest, best),
                Some(hr) => HittableList::spec_hit_scan(objects, i + 1, ray, min, hr.t, Some(hr)),
            }
        }
    }

    /// The closest hit of any member strictly inside `interval`.
    pub open spec fn spec_hit_list(objects: Seq<Sphere>, ray: Ray, interval: Interval) -> Option<
        HitResult,
    > {
        HittableList::spec_hit_scan(objects, 0, ray, interval.min, interval.max, None)
    }
}

impl Hittable for HittableList {
    fn hit(&self, ray: &Ray, interval: Interval) -> (r: Option<HitResult>)
        ensures
            r == HittableList::spec_hit_list(self.objects@, *ray, interval),
    {
        let mut hit_record: Option<HitResult> = None;
        let mut closest_so_far: Fx = interval.max();
        let mut i: usize = 0;
        while i < self.objects.len()
            invariant
                0 <= i <= self.objects.len(),
                HittableList::spec_hit_scan(
                    self.objects@,
                    0,
                    *ray,
                    interval.min,
                    interval.max,
                    None,
                ) == HittableList::spec_hit_scan(
                    self.objects@,
                    i as int,
                    *ray,
                    interval.min,
                    closest_so_far,
                    hit_record,
                ),
                match hit_record {
                    Some(h) => h.t == closest_so_far && interval.spec_surrounds(h.t)
                        && ray.direction.spec_dot(h.normal)@ <= 0,
                    None => closest_so_far == interval.max,
                },
                closest_so_far@ <= interval.max@,
            decreases self.objects.len() - i,
        {
            let object = &self.objects[i];
            let hit = object.hit(ray, Interval::new(interval.min(), closest_so_far));
            match hit {
                None => {},
                Some(result) => {
                    closest_so_far = result.t();
                    hit_record = Some(result);
                },
            }
            i = i + 1;
        }
        hit_record
    }
}

/// When two spheres both report a hit for the same ray and window, the
/// scene returns the nearer of the two, whichever order they were added in.
#[verifier::rlimit(100)]
pub proof fn lemma_closest_of_two(
    s1: Sphere,
    s2: Sphere,
    ray: Ray,
    interval: Interval,
    h1: HitResult,
    h2: HitResult,
)
    requires
        s1.spec_hit(ray, interval) == Some(h1),
        s2.spec_hit(ray, interval) == Some(h2),
        h1.t@ < h2.t@,
    ensures
        HittableList::spec_hit_list(seq![s1, s2], ray, interval) == Some(h1),
        HittableList::spec_hit_list(seq![s2, s1], ray, interval) == Some(h1),
{
    crate::sphere::lemma_sphere_hit_sound(s1, ray, interval, h1);
    crate::sphere::lemma_sphere_hit_sound(s2, ray, interval, h2);
    assert(Interval { min: interval.min, max: interval.max } == interval);

    // order s1 then s2: after accepting h1, the window shrinks to h1.t and
    // rejects s2's farther hit
    let w1 = Interval { min: interval.min, max: h1.t };
    crate::sphere::lemma_sphere_hit_narrow(s2, ray, interval, w1, h2);
    assert(!w1.spec_surrounds(h2.t));
    assert(s2.spec_hit(ray, w1) is None);
    let objs12 = seq![s1, s2];
    assert(objs12[0] == s1 && objs12[1] == s2);
    assert(HittableList::spec_hit_scan(objs12, 0, ray, interval.min, interval.max, None)
        == HittableList::spec_hit_scan(objs12, 1, ray, interval.min, h1.t, Some(h1)));
    assert(HittableList::spec_hit_scan(objs12, 1, ray, interval.min, h1.t, Some(h1))
        == HittableList::spec_hit_scan(objs12, 2, ray, interval.min, h1.t, Some(h1)));

    // order s2 then s1: the window shrinks to h2.t, which still strictly
    // contains the nearer hit, so it replaces the farther one
    let w2 = Interval { min: interval.min, max: h2.t };
    crate::sphere::lemma_sphere_hit_narrow(s1, ray, interval, w2, h1);
    assert(w2.spec_surrounds(h1.t));
    assert(s1.spec_hit(ray, w2) == Some(h1));
    let objs21 = seq![s2, s1];
    assert(objs21[0] == s2 && objs21[1] == s1);
    assert(HittableList::spec_hit_scan(objs21, 0, ray, interval.min, interval.max, None)
        == HittableList::spec_hit_scan(objs21, 1, ray, interval.min, h2.t, Some(h2)));
    assert(HittableList::spec_hit_scan(objs21, 1, ray, interval.min, h2.t, Some(h2))
        == HittableList::spec_hit_scan(objs21, 2, ray, interval.min, h1.t, Some(h1)));
}

} // verus!
