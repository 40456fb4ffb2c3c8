//! Rays: an origin and a direction, with the recursive color evaluation
//! that drives the whole tracer.

use crate::color::Color;
use crate::fx::{Fx, RAW_MAX};
use crate::hittable::Hittable;
use crate::hittable_list::HittableList;
use crate::sphere::Sphere;
use crate::vec3::{lemma_len_sq_nonneg, lemma_len_sq_pos_len_pos, Vec3};
use crate::Point;
use vstd::prelude::*;

verus! {

/// Lower end of the top-level intersection window, about a thousandth of a
/// unit above zero: bounced rays ignore surfaces this close to their origin,
/// which suppresses self-intersection speckle ("shadow acne").
pub const T_MIN_RAW: i64 = 66;

#[derive(Clone, Copy, Debug, PartialEq, Eq, Structural)]
pub struct Ray {
    pub origin: Point,
    pub direction: Vec3,
}

impl Ray {
    /// The point `origin + t * direction`.
    pub open spec fn spec_at(self, t: Fx) -> Point {
        self.origin.spec_add_v(self.direction.spec_scale(t))
    }

    pub fn empty() -> (r: Ray)
        ensures
            r == (Ray { origin: Vec3::spec_zero(), direction: Vec3::spec_zero() }),
    {
        Ray { origin: Point::zero(), direction: Vec3::zero() }
    }

    pub fn new(origin: Point, direction: Vec3) -> (r: Ray)
        ensures
            r == (Ray { origin, direction }),
    {
        Ray { origin, direction }
    }

    pub fn origin(&self) -> (r: Point)
        ensures
            r == self.origin,
    {
        self.origin
    }

    pub fn direction(&self) -> (r: Vec3)
        ensures
            r == self.direction,
    {
        self.direction
    }

    pub fn at(&self, t: Fx) -> (r: Point)
        ensures
            r == self.spec_at(t),
    {
        self.origin.add(self.direction.scale(t))
    }

    /// The sky blend at a given vertical component: the component is
    /// remapped from `[-1, 1]` to a weight `a` in `[0, 1]`, and the result
    /// interpolates from white at `a = 0` to light blue at `a = 1`.
    pub open spec fn spec_sky_blend(unit_y: Fx) -> Color {
        let a = Fx { raw: 32768 }.spec_mul(unit_y.spec_add(Fx { raw: 65536 }));
        Color::spec_white().spec_scale(Fx { raw: 65536 }.spec_sub(a)).spec_add_v(
            Vec3::spec_new(
                Fx { raw: 32768 },
                Fx { raw: 45875 },
                Fx { raw: 65536 },
            ).spec_scale(a),
        )
    }

    /// The sky: a vertical blend from white at the horizon to light blue at
    /// the zenith, driven by the y component of the unit direction.
    pub open spec fn spec_background(self) -> Color
        recommends
            self.direction.spec_len()@ != 0,
    {
        Ray::spec_sky_blend(self.direction.spec_normalized().y)
    }

    /// The recursive radiance estimate: black once the bounce budget is
    /// exhausted or for a direction below the grid's resolution, the
    /// background on a miss, and otherwise the scattered ray's color filtered
    /// by the surface's attenuation.  The second component is the state the
    /// random stream is left in.
    pub open spec fn spec_color(self, objects: Seq<Sphere>, depth: u32, s: u64) -> (Color, u64)
        decreases depth,
    {
        if depth == 0 {
            (Color::spec_black(), s)
        } else if self.direction.spec_len_sq()@ == 0 {
            (Color::spec_black(), s)
        } else {
            let window = crate::interval::Interval {
                min: Fx { raw: T_MIN_RAW },
                max: Fx { raw: RAW_MAX },
            };
            match HittableList::spec_hit_list(objects, self, window) {
                None => (self.spec_background(), s),
                Some(result) => {
                    let (sc, s1) = result.material.spec_scatter(self, result, s);
                    match sc {
                        None => (Color::spec_black(), s1),
                        Some(scatter) => {
                            let (c, s2) = scatter.scattered_ray.spec_color(
                                objects,
                                (depth - 1) as u32,
                                s1,
                            );
                            (scatter.attenuation.spec_mul_v(c), s2)
                        },
                    }
                },
            }
        }
    }

    /// Evaluate the radiance along this ray through `world`, drawing any
    /// scatter decisions from `rng`.
    pub fn color(&self, world: &HittableList, depth: u32, rng: &mut crate::utilities::Rng) -> (r:
        Color)
        ensures
            r == self.spec_color(world.objects@, depth, old(rng).state).0,
            final(rng).state == self.spec_color(world.objects@, depth, old(rng).state).1,
        decreases depth,
    {
        if depth == 0 {
            return Color::black();
        }
        let dir_len_sq = self.direction.len_squared();
        if dir_len_sq.raw == 0 {
            return Color::black();
        }
        // the window starts just above zero to hack away the shadow acne
        let window = crate::interval::Interval::new(
            Fx::from_raw(T_MIN_RAW),
            Fx::from_raw(RAW_MAX),
        );
        let hit = world.hit(self, window);
        match hit {
            None => {
                proof {
                    lemma_len_sq_nonneg(self.direction);
                    lemma_len_sq_pos_len_pos(self.direction);
                }
                let unit = self.direction.normalized();
                let a = Fx::from_raw(32768).mul(unit.y().add(Fx::one()));
                Color::white().scale(Fx::one().sub(a)).add(
                    Color::new(
                        Fx::from_raw(32768),
                        Fx::from_raw(45875),
                        Fx::one(),
                    ).scale(a),
                )
            },
            Some(result) => {
                let material = result.material;
                let scatter = material.scatter(self, &result, rng);
                match scatter {
                    None => Color::black(),
                    Some(scatter) => {
                        let bounced = scatter.scattered_ray().color(world, depth - 1, rng);
                        scatter.attenuation().mul(bounced)
                    },
                }
            },
        }
    }
}

/// A scaled truncation `a |-> (gcoef * a) / 65536` with a coefficient at
/// most one grid unit grows with `a`, and by no more than `a` itself grew.
proof fn lemma_blend_channel(gcoef: int, a1: int, a2: int)
    requires
        0 <= gcoef <= 65536,
        0 <= a1 <= a2 <= 65536,
    ensures
        (gcoef * a1) / 65536 <= (gcoef * a2) / 65536,
        (gcoef * a2) / 65536 <= (gcoef * a1) / 65536 + (a2 - a1),
{
    assert(gcoef * a1 <= gcoef * a2) by (nonlinear_arith)
        requires
            0 <= gcoef,
            a1 <= a2,
    ;
    vstd::arithmetic::div_mod::lemma_div_is_ordered(gcoef * a1, gcoef * a2, 65536);
    assert(gcoef * a2 <= gcoef * a1 + (a2 - a1) * 65536) by (nonlinear_arith)
        requires
            gcoef <= 65536,
            a1 <= a2,
    ;
    vstd::arithmetic::div_mod::lemma_hoist_over_denominator(gcoef * a1, a2 - a1, 65536nat);
    vstd::arithmetic::div_mod::lemma_div_is_ordered(
        gcoef * a2,
        gcoef * a1 + (a2 - a1) * 65536,
        65536,
    );
}

/// Multiplying by the unit scalar is exact for values in the unit range.
proof fn lemma_mul_unit_exact(k: Fx)
    requires
        0 <= k@ <= 131072,
    ensures
        Fx::spec_from_raw(65536).spec_mul(k)@ == k@,
        k.spec_mul(Fx::spec_from_raw(65536))@ == k@,
{
    assert(Fx { raw: 65536 }@ * k@ == 65536 * k@);
    assert(k@ * Fx { raw: 65536 }@ == 65536 * k@) by (nonlinear_arith);
    assert(crate::fx::abs_i(65536 * k@) == 65536 * k@) by (nonlinear_arith)
        requires
            k@ >= 0,
    ;
    vstd::arithmetic::div_mod::lemma_div_multiples_vanish(k@, 65536);
    assert(crate::fx::tz_div(65536 * k@, 65536) == k@);
}

/// The remap of a vertical component into the blend weight: nonnegative,
/// at most one, and monotone.
proof fn lemma_blend_weight(y: Fx) -> (a: int)
    requires
        -65536 <= y@ <= 65536,
    ensures
        a == Fx::spec_from_raw(32768).spec_mul(y.spec_add(Fx::spec_from_raw(65536)))@,
        a == (32768 * (y@ + 65536)) / 65536,
        0 <= a <= 65536,
{
    let s = y.spec_add(Fx { raw: 65536 });
    assert(s@ == y@ + 65536);
    assert(Fx { raw: 32768 }@ * s@ == 32768 * (y@ + 65536));
    assert(0 <= 32768 * (y@ + 65536) <= 32768 * 131072) by (nonlinear_arith)
        requires
            0 <= y@ + 65536 <= 131072,
    ;
    assert(crate::fx::abs_i(32768 * (y@ + 65536)) == 32768 * (y@ + 65536));
    vstd::arithmetic::div_mod::lemma_div_is_ordered(32768 * (y@ + 65536), 4294967296, 65536);
    assert(4294967296int / 65536int == 65536);
    vstd::arithmetic::div_mod::lemma_div_pos_is_pos(32768 * (y@ + 65536), 65536);
    Fx { raw: 32768 }.spec_mul(s)@
}

/// The background gradient is monotone in the vertical component: as the
/// (unit) direction's y value rises from -1 to 1, the red and green
/// channels fall from white toward the sky color and the blue channel
/// stays exactly one, so the blend runs from white to light blue.
pub proof fn lemma_background_monotone(y1: Fx, y2: Fx)
    requires
        -65536 <= y1@ <= y2@ <= 65536,
    ensures
        Ray::spec_sky_blend(y2).x@ <= Ray::spec_sky_blend(y1).x@,
        Ray::spec_sky_blend(y2).y@ <= Ray::spec_sky_blend(y1).y@,
        Ray::spec_sky_blend(y1).z@ == 65536,
        Ray::spec_sky_blend(y2).z@ == 65536,
{
    let a1 = lemma_blend_weight(y1);
    let a2 = lemma_blend_weight(y2);
    assert(32768 * (y1@ + 65536) <= 32768 * (y2@ + 65536)) by (nonlinear_arith)
        requires
            y1@ <= y2@,
    ;
    vstd::arithmetic::div_mod::lemma_div_is_ordered(
        32768 * (y1@ + 65536),
        32768 * (y2@ + 65536),
        65536,
    );
    assert(a1 <= a2);
    lemma_sky_blend_channels(y1, a1);
    lemma_sky_blend_channels(y2, a2);
    lemma_blend_channel(32768, a1, a2);
    lemma_blend_channel(45875, a1, a2);
}

/// The three channels of the blend at weight `a`: red and green are the
/// white remainder plus the truncated sky share, blue is exactly one.
proof fn lemma_sky_blend_channels(y: Fx, a: int)
    requires
        -65536 <= y@ <= 65536,
        a == Fx::spec_from_raw(32768).spec_mul(y.spec_add(Fx::spec_from_raw(65536)))@,
        a == (32768 * (y@ + 65536)) / 65536,
        0 <= a <= 65536,
    ensures
        Ray::spec_sky_blend(y).x@ == (65536 - a) + (32768 * a) / 65536,
        Ray::spec_sky_blend(y).y@ == (65536 - a) + (45875 * a) / 65536,
        Ray::spec_sky_blend(y).z@ == 65536,
{
    let av = Fx { raw: 32768 }.spec_mul(y.spec_add(Fx { raw: 65536 }));
    let k = Fx { raw: 65536 }.spec_sub(av);
    assert(k@ == 65536 - a);
    lemma_mul_unit_exact(k);
    assert(Fx { raw: 32768 }@ * av@ == 32768 * a);
    assert(Fx { raw: 45875 }@ * av@ == 45875 * a);
    assert(0 <= 32768 * a <= 32768 * 65536) by (nonlinear_arith)
        requires
            0 <= a <= 65536,
    ;
    assert(0 <= 45875 * a <= 45875 * 65536) by (nonlinear_arith)
        requires
            0 <= a <= 65536,
    ;
    assert(crate::fx::abs_i(32768 * a) == 32768 * a);
    assert(crate::fx::abs_i(45875 * a) == 45875 * a);
    vstd::arithmetic::div_mod::lemma_div_is_ordered(32768 * a, 32768int * 65536int, 65536);
    vstd::arithmetic::div_mod::lemma_div_is_ordered(45875 * a, 45875int * 65536int, 65536);
    vstd::arithmetic::div_mod::lemma_div_pos_is_pos(32768 * a, 65536);
    vstd::arithmetic::div_mod::lemma_div_pos_is_pos(45875 * a, 65536);
    assert((32768 * 65536) / 65536 == 32768) by {
        vstd::arithmetic::div_mod::lemma_div_multiples_vanish(32768, 65536);
        assert(32768 * 65536 == 65536 * 32768) by (nonlinear_arith);
    }
    assert((45875 * 65536) / 65536 == 45875) by {
        vstd::arithmetic::div_mod::lemma_div_multiples_vanish(45875, 65536);
        assert(45875 * 65536 == 65536 * 45875) by (nonlinear_arith);
    }
    lemma_mul_unit_exact(av);
}

} // verus!
