//! Three-component fixed-point vectors, used interchangeably as points,
//! directions and colors.
//!
//! Every executable operation has a specification twin (`spec_*`) built from
//! the exact scalar model in `fx`, and its contract says the result equals
//! that twin.  The random generators thread an explicit `Rng` and their
//! contracts pin both the value drawn and the state the stream is left in.

use crate::fx::{sat64, Fx, RAW_MAX, SCALE};
use crate::utilities::{spec_rand, spec_rand_range, Rng};
use vstd::prelude::*;

verus! {

/// How many rejection-sampling attempts the bounded samplers make before
/// they fall back to a fixed point of the target region.
pub const SAMPLE_TRIES: u32 = 64;

#[derive(Clone, Copy, Debug, PartialEq, Eq, Structural)]
pub struct Vec3 {
    pub x: Fx,
    pub y: Fx,
    pub z: Fx,
}

impl Vec3 {
    pub open spec fn spec_new(x: Fx, y: Fx, z: Fx) -> Vec3 {
        Vec3 { x, y, z }
    }

    pub open spec fn spec_zero() -> Vec3 {
        Vec3 { x: Fx { raw: 0 }, y: Fx { raw: 0 }, z: Fx { raw: 0 } }
    }

    pub open spec fn spec_add_v(self, o: Vec3) -> Vec3 {
        Vec3 { x: self.x.spec_add(o.x), y: self.y.spec_add(o.y), z: self.z.spec_add(o.z) }
    }

    pub open spec fn spec_sub_v(self, o: Vec3) -> Vec3 {
        Vec3 { x: self.x.spec_sub(o.x), y: self.y.spec_sub(o.y), z: self.z.spec_sub(o.z) }
    }

    /// Componentwise product, as colors attenuate.
    pub open spec fn spec_mul_v(self, o: Vec3) -> Vec3 {
        Vec3 { x: self.x.spec_mul(o.x), y: self.y.spec_mul(o.y), z: self.z.spec_mul(o.z) }
    }

    pub open spec fn spec_scale(self, k: Fx) -> Vec3 {
        Vec3 { x: self.x.spec_mul(k), y: self.y.spec_mul(k), z: self.z.spec_mul(k) }
    }

    pub open spec fn spec_div_k(self, k: Fx) -> Vec3
        recommends
            k@ != 0,
    {
        Vec3 { x: self.x.spec_div(k), y: self.y.spec_div(k), z: self.z.spec_div(k) }
    }

    pub open spec fn spec_neg_v(self) -> Vec3 {
        Vec3 { x: self.x.spec_neg(), y: self.y.spec_neg(), z: self.z.spec_neg() }
    }

    pub open spec fn spec_dot(self, o: Vec3) -> Fx {
        self.x.spec_mul(o.x).spec_add(self.y.spec_mul(o.y)).spec_add(self.z.spec_mul(o.z))
    }

    pub open spec fn spec_cross(self, o: Vec3) -> Vec3 {
        Vec3 {
            x: self.y.spec_mul(o.z).spec_sub(self.z.spec_mul(o.y)),
            y: self.z.spec_mul(o.x).spec_sub(self.x.spec_mul(o.z)),
            z: self.x.spec_mul(o.y).spec_sub(self.y.spec_mul(o.x)),
        }
    }

    pub open spec fn spec_len_sq(self) -> Fx {
        self.spec_dot(self)
    }

    /// Every component stays at or above `-RAW_MAX`, the symmetric bottom of
    /// the saturating range; every vector the arithmetic produces satisfies
    /// this, and it is what makes negation exact.
    pub open spec fn spec_bounded(self) -> bool {
        -RAW_MAX <= self.x@ && -RAW_MAX <= self.y@ && -RAW_MAX <= self.z@
    }

    pub open spec fn spec_len(self) -> Fx {
        self.spec_len_sq().spec_sqrt()
    }

    pub open spec fn spec_normalized(self) -> Vec3
        recommends
            self.spec_len()@ != 0,
    {
        self.spec_div_k(self.spec_len())
    }

    /// The near-zero test, kept exactly as the design fixes it: each
    /// component is compared with `<` against the threshold, without taking
    /// absolute values, so a vector with large negative components also
    /// counts as near zero.  The threshold is one raw step, the smallest
    /// positive value of the grid.
    pub open spec fn spec_near_zero(self) -> bool {
        self.x@ < 1 && self.y@ < 1 && self.z@ < 1
    }

    /// Mirror reflection: `v - 2 * dot(v, n) * n`.
    pub open spec fn spec_reflect(v: Vec3, normal: Vec3) -> Vec3 {
        let d = v.spec_dot(normal);
        v.spec_sub_v(normal.spec_scale(d.spec_add(d)))
    }

    /// Snell refraction of a unit direction `uv` at a surface with unit
    /// normal `n`, split into components perpendicular and parallel to `n`.
    pub open spec fn spec_refract(uv: Vec3, n: Vec3, etai_over_etat: Fx) -> Vec3 {
        let cos_theta = uv.spec_neg_v().spec_dot(n).spec_min(Fx::spec_from_raw(SCALE));
        let r_out_perp = uv.spec_add_v(n.spec_scale(cos_theta)).spec_scale(etai_over_etat);
        let r_out_parallel = n.spec_scale(
            Fx::spec_from_raw(SCALE).spec_sub(
                r_out_perp.spec_len_sq(),
            ).spec_abs().spec_sqrt().spec_neg(),
        );
        r_out_perp.spec_add_v(r_out_parallel)
    }

    /// Three unit draws, consumed in x, y, z order.
    pub open spec fn spec_rand_v(s: u64) -> (Vec3, u64) {
        let (x, s1) = spec_rand(s);
        let (y, s2) = spec_rand(s1);
        let (z, s3) = spec_rand(s2);
        (Vec3 { x, y, z }, s3)
    }

    /// Three range draws, consumed in x, y, z order.
    pub open spec fn spec_rand_range_v(s: u64, min: Fx, max: Fx) -> (Vec3, u64) {
        let (x, s1) = spec_rand_range(s, min, max);
        let (y, s2) = spec_rand_range(s1, min, max);
        let (z, s3) = spec_rand_range(s2, min, max);
        (Vec3 { x, y, z }, s3)
    }

    /// The interior point the ball sampler settles on when every draw was
    /// rejected: half a unit along the x axis.
    pub open spec fn spec_sphere_fallback() -> Vec3 {
        Vec3 { x: Fx { raw: (SCALE / 2) as i64 }, y: Fx { raw: 0 }, z: Fx { raw: 0 } }
    }

    /// Rejection sampling of the open unit ball: draw from the enclosing
    /// cube and keep the first draw whose squared length is strictly between
    /// zero and one.  After `tries` rejected draws the sampler settles on a
    /// fixed interior point, so it is total; draws of exactly zero length are
    /// rejected as well, since the result may be normalized.
    pub open spec fn spec_rand_in_sphere(s: u64, tries: nat) -> (Vec3, u64)
        decreases tries,
    {
        if tries == 0 {
            (Vec3::spec_sphere_fallback(), s)
        } else {
            let (p, s1) = Vec3::spec_rand_range_v(
                s,
                Fx::spec_from_int(-1),
                Fx::spec_from_int(1),
            );
            if 0 < p.spec_len_sq()@ < SCALE {
                (p, s1)
            } else {
                Vec3::spec_rand_in_sphere(s1, (tries - 1) as nat)
            }
        }
    }

    /// The in-ball draw, normalized onto (the grid approximation of) the
    /// unit sphere.
    pub open spec fn spec_rand_unit(s: u64) -> (Vec3, u64) {
        let (p, s1) = Vec3::spec_rand_in_sphere(s, SAMPLE_TRIES as nat);
        (p.spec_normalized(), s1)
    }

    /// A unit draw, flipped onto the side of the surface that `normal`
    /// points toward.
    pub open spec fn spec_rand_on_hemisphere(s: u64, normal: Vec3) -> (Vec3, u64) {
        let (u, s1) = Vec3::spec_rand_unit(s);
        if u.spec_dot(normal)@ > 0 {
            (u, s1)
        } else {
            (u.spec_neg_v(), s1)
        }
    }

    /// Rejection sampling of the unit disk in the xy plane, for lens
    /// origins; the center is an acceptable draw and also the fallback.
    pub open spec fn spec_rand_in_disk(s: u64, tries: nat) -> (Vec3, u64)
        decreases tries,
    {
        if tries == 0 {
            (Vec3::spec_zero(), s)
        } else {
            let (x, s1) = spec_rand_range(s, Fx::spec_from_int(-1), Fx::spec_from_int(1));
            let (y, s2) = spec_rand_range(s1, Fx::spec_from_int(-1), Fx::spec_from_int(1));
            let p = Vec3 { x, y, z: Fx { raw: 0 } };
            if p.spec_len_sq()@ < SCALE {
                (p, s2)
            } else {
                Vec3::spec_rand_in_disk(s2, (tries - 1) as nat)
            }
        }
    }

    pub fn zero() -> (r: Vec3)
        ensures
            r == Vec3::spec_zero(),
    {
        Vec3 { x: Fx::zero(), y: Fx::zero(), z: Fx::zero() }
    }

    pub fn one() -> (r: Vec3)
        ensures
            r == Vec3::spec_new(
                Fx::spec_from_raw(SCALE),
                Fx::spec_from_raw(SCALE),
                Fx::spec_from_raw(SCALE),
            ),
    {
        Vec3 { x: Fx::one(), y: Fx::one(), z: Fx::one() }
    }

    /// The fixed world-up direction.
    pub fn up() -> (r: Vec3)
        ensures
            r == Vec3::spec_new(Fx { raw: 0 }, Fx { raw: SCALE }, Fx { raw: 0 }),
    {
        Vec3 { x: Fx::zero(), y: Fx::one(), z: Fx::zero() }
    }

    pub fn new(x: Fx, y: Fx, z: Fx) -> (r: Vec3)
        ensures
            r == Vec3::spec_new(x, y, z),
    {
        Vec3 { x, y, z }
    }

    pub fn x(&self) -> (r: Fx)
        ensures
            r == self.x,
    {
        self.x
    }

    pub fn y(&self) -> (r: Fx)
        ensures
            r == self.y,
    {
        self.y
    }

    pub fn z(&self) -> (r: Fx)
        ensures
            r == self.z,
    {
        self.z
    }

    pub fn set_x(&mut self, v: Fx)
        ensures
            *final(self) == (Vec3 { x: v, ..*old(self) }),
    {
        self.x = v;
    }

    pub fn set_y(&mut self, v: Fx)
        ensures
            *final(self) == (Vec3 { y: v, ..*old(self) }),
    {
        self.y = v;
    }

    pub fn set_z(&mut self, v: Fx)
        ensures
            *final(self) == (Vec3 { z: v, ..*old(self) }),
    {
        self.z = v;
    }

    pub fn add(self, o: Vec3) -> (r: Vec3)
        ensures
            r == self.spec_add_v(o),
    {
        Vec3 { x: self.x.add(o.x), y: self.y.add(o.y), z: self.z.add(o.z) }
    }

    pub fn sub(self, o: Vec3) -> (r: Vec3)
        ensures
            r == self.spec_sub_v(o),
    {
        Vec3 { x: self.x.sub(o.x), y: self.y.sub(o.y), z: self.z.sub(o.z) }
    }

    pub fn mul(self, o: Vec3) -> (r: Vec3)
        ensures
            r == self.spec_mul_v(o),
    {
        Vec3 { x: self.x.mul(o.x), y: self.y.mul(o.y), z: self.z.mul(o.z) }
    }

    pub fn scale(self, k: Fx) -> (r: Vec3)
        ensures
            r == self.spec_scale(k),
    {
        Vec3 { x: self.x.mul(k), y: self.y.mul(k), z: self.z.mul(k) }
    }

    pub fn div(self, k: Fx) -> (r: Vec3)
        requires
            k@ != 0,
        ensures
            r == self.spec_div_k(k),
    {
        Vec3 { x: self.x.div(k), y: self.y.div(k), z: self.z.div(k) }
    }

    pub fn neg(self) -> (r: Vec3)
        ensures
            r == self.spec_neg_v(),
    {
        Vec3 { x: self.x.neg(), y: self.y.neg(), z: self.z.neg() }
    }

    pub fn dot(lhs: &Vec3, rhs: &Vec3) -> (r: Fx)
        ensures
            r == lhs.spec_dot(*rhs),
    {
        lhs.x.mul(rhs.x).add(lhs.y.mul(rhs.y)).add(lhs.z.mul(rhs.z))
    }

    pub fn cross(lhs: &Vec3, rhs: &Vec3) -> (r: Vec3)
        ensures
            r == lhs.spec_cross(*rhs),
    {
        Vec3 {
            x: lhs.y.mul(rhs.z).sub(lhs.z.mul(rhs.y)),
            y: lhs.z.mul(rhs.x).sub(lhs.x.mul(rhs.z)),
            z: lhs.x.mul(rhs.y).sub(lhs.y.mul(rhs.x)),
        }
    }

    pub fn len_squared(&self) -> (r: Fx)
        ensures
            r == self.spec_len_sq(),
    {
        Vec3::dot(self, self)
    }

    pub fn len(&self) -> (r: Fx)
        ensures
            r == self.spec_len(),
    {
        self.len_squared().sqrt()
    }

    pub fn normalized(&self) -> (r: Vec3)
        requires
            self.spec_len()@ != 0,
        ensures
            r == self.spec_normalized(),
    {
        let l = self.len();
        self.div(l)
    }

    pub fn normalize(&mut self)
        requires
            old(self).spec_len()@ != 0,
        ensures
            *final(self) == old(self).spec_normalized(),
    {
        *self = self.normalized();
    }

    pub fn near_zero(&self) -> (r: bool)
        ensures
            r == self.spec_near_zero(),
    {
        self.x.raw < 1 && self.y.raw < 1 && self.z.raw < 1
    }

    pub fn reflect(v: &Vec3, normal: &Vec3) -> (r: Vec3)
        ensures
            r == Vec3::spec_reflect(*v, *normal),
    {
        let d = Vec3::dot(v, normal);
        v.sub(normal.scale(d.add(d)))
    }

    pub fn refract(uv: &Vec3, n: &Vec3, etai_over_etat: Fx) -> (r: Vec3)
        ensures
            r == Vec3::spec_refract(*uv, *n, etai_over_etat),
    {
        let cos_theta = Vec3::dot(&uv.neg(), n).min(Fx::one());
        let r_out_perp = uv.add(n.scale(cos_theta)).scale(etai_over_etat);
        let r_out_parallel = n.scale(
            Fx::one().sub(r_out_perp.len_squared()).abs().sqrt().neg(),
        );
        r_out_perp.add(r_out_parallel)
    }

    pub fn rand(rng: &mut Rng) -> (r: Vec3)
        ensures
            r == Vec3::spec_rand_v(old(rng).state).0,
            final(rng).state == Vec3::spec_rand_v(old(rng).state).1,
    {
        let x = rng.rand();
        let y = rng.rand();
        let z = rng.rand();
        Vec3 { x, y, z }
    }

    pub fn rand_range(rng: &mut Rng, min: Fx, max: Fx) -> (r: Vec3)
        ensures
            r == Vec3::spec_rand_range_v(old(rng).state, min, max).0,
            final(rng).state == Vec3::spec_rand_range_v(old(rng).state, min, max).1,
    {
        let x = rng.rand_range(min, max);
        let y = rng.rand_range(min, max);
        let z = rng.rand_range(min, max);
        Vec3 { x, y, z }
    }

    /// A draw strictly inside the unit ball (and away from the exact zero
    /// point, so it can be normalized).
    pub fn rand_unit_in_sphere(rng: &mut Rng) -> (r: Vec3)
        ensures
            r == Vec3::spec_rand_in_sphere(old(rng).state, SAMPLE_TRIES as nat).0,
            final(rng).state == Vec3::spec_rand_in_sphere(old(rng).state, SAMPLE_TRIES as nat).1,
            0 < r.spec_len_sq()@ < SCALE,
    {
        Vec3::sample_in_sphere(rng, SAMPLE_TRIES)
    }

    fn sample_in_sphere(rng: &mut Rng, tries: u32) -> (r: Vec3)
        ensures
            r == Vec3::spec_rand_in_sphere(old(rng).state, tries as nat).0,
            final(rng).state == Vec3::spec_rand_in_sphere(old(rng).state, tries as nat).1,
            0 < r.spec_len_sq()@ < SCALE,
        decreases tries,
    {
        if tries == 0 {
            let r = Vec3 { x: Fx::from_raw(SCALE / 2), y: Fx::zero(), z: Fx::zero() };
            proof {
                lemma_sphere_fallback_len();
                assert(r == Vec3::spec_sphere_fallback());
            }
            r
        } else {
            let p = Vec3::rand_range(rng, Fx::from_int(-1), Fx::from_int(1));
            let lsq = p.len_squared();
            if 0 < lsq.raw && lsq.raw < SCALE {
                p
            } else {
                Vec3::sample_in_sphere(rng, tries - 1)
            }
        }
    }

    /// A direction of (grid-approximate) unit length, uniform over the
    /// sphere up to the grid.
    pub fn rand_unit(rng: &mut Rng) -> (r: Vec3)
        ensures
            r == Vec3::spec_rand_unit(old(rng).state).0,
            final(rng).state == Vec3::spec_rand_unit(old(rng).state).1,
    {
        let p = Vec3::rand_unit_in_sphere(rng);
        proof {
            lemma_len_sq_pos_len_pos(p);
        }
        p.normalized()
    }

    pub fn rand_on_hemisphere(rng: &mut Rng, normal: &Vec3) -> (r: Vec3)
        ensures
            r == Vec3::spec_rand_on_hemisphere(old(rng).state, *normal).0,
            final(rng).state == Vec3::spec_rand_on_hemisphere(old(rng).state, *normal).1,
    {
        let on_unit_sphere = Vec3::rand_unit(rng);
        if Vec3::dot(&on_unit_sphere, normal).raw > 0 {
            on_unit_sphere
        } else {
            on_unit_sphere.neg()
        }
    }

    /// A draw in the unit disk of the xy plane.
    pub fn rand_in_unit_disk(rng: &mut Rng) -> (r: Vec3)
        ensures
            r == Vec3::spec_rand_in_disk(old(rng).state, SAMPLE_TRIES as nat).0,
            final(rng).state == Vec3::spec_rand_in_disk(old(rng).state, SAMPLE_TRIES as nat).1,
    {
        Vec3::sample_in_disk(rng, SAMPLE_TRIES)
    }

    fn sample_in_disk(rng: &mut Rng, tries: u32) -> (r: Vec3)
        ensures
            r == Vec3::spec_rand_in_disk(old(rng).state, tries as nat).0,
            final(rng).state == Vec3::spec_rand_in_disk(old(rng).state, tries as nat).1,
        decreases tries,
    {
        if tries == 0 {
            Vec3::zero()
        } else {
            let x = rng.rand_range(Fx::from_int(-1), Fx::from_int(1));
            let y = rng.rand_range(Fx::from_int(-1), Fx::from_int(1));
            let p = Vec3 { x, y, z: Fx::zero() };
            if p.len_squared().raw < SCALE {
                p
            } else {
                Vec3::sample_in_disk(rng, tries - 1)
            }
        }
    }
}

/// A positive squared length forces a positive grid length, so the vector
/// may be normalized.
pub proof fn lemma_len_sq_pos_len_pos(v: Vec3)
    requires
        v.spec_len_sq()@ >= 1,
    ensures
        v.spec_len()@ >= 256,
{
    let n = v.spec_len_sq()@ * SCALE;
    assert(65536 <= n <= 0x7fff_ffff_ffff_ffff * 65536) by (nonlinear_arith)
        requires
            1 <= v.spec_len_sq()@ <= 0x7fff_ffff_ffff_ffff,
            n == v.spec_len_sq()@ * SCALE,
            SCALE == 65536,
    ;
    crate::fx::lemma_sqrt_floor_exists(n);
    let r = crate::fx::sqrt_floor(n);
    assert(crate::fx::is_sqrt_floor(n, r));
    if r < 256 {
        assert((r + 1) * (r + 1) <= 256 * 256) by (nonlinear_arith)
            requires
                0 <= r + 1 <= 256,
        ;
        assert(false);
    }
    if r >= 0x100_0000_0000 {
        assert(r * r >= 0x100_0000_0000 * 0x100_0000_0000) by (nonlinear_arith)
            requires
                r >= 0x100_0000_0000,
        ;
        assert(false);
    }
    assert(v.spec_len()@ == r);
}

/// Negating one factor negates the fixed-point product exactly, because the
/// saturation bound is symmetric.
pub proof fn lemma_mul_flip(a: Fx, b: Fx)
    requires
        -RAW_MAX <= b@,
    ensures
        a.spec_mul(b.spec_neg()) == a.spec_mul(b).spec_neg(),
{
    let p = a@ * b@;
    assert(a@ * (sat64(-b@)) == -p) by (nonlinear_arith)
        requires
            -RAW_MAX <= b@ <= RAW_MAX,
            sat64(-b@) == -b@,
            p == a@ * b@,
    ;
    assert(crate::fx::abs_i(-p) == crate::fx::abs_i(p));
    assert(crate::fx::tz_div(-p, SCALE as int) == -crate::fx::tz_div(p, SCALE as int));
    assert(sat64(-crate::fx::tz_div(p, SCALE as int)) == -sat64(
        crate::fx::tz_div(p, SCALE as int),
    ));
}

/// Negating one argument negates the fixed-point dot product exactly.
pub proof fn lemma_dot_flip(d: Vec3, n: Vec3)
    requires
        n.spec_bounded(),
    ensures
        d.spec_dot(n.spec_neg_v())@ == -d.spec_dot(n)@,
{
    lemma_mul_flip(d.x, n.x);
    lemma_mul_flip(d.y, n.y);
    lemma_mul_flip(d.z, n.z);
    let m1 = d.x.spec_mul(n.x);
    let m2 = d.y.spec_mul(n.y);
    let m3 = d.z.spec_mul(n.z);
    assert(m1.spec_neg().spec_add(m2.spec_neg()) == m1.spec_add(m2).spec_neg());
    assert(m1.spec_add(m2).spec_neg().spec_add(m3.spec_neg()) == m1.spec_add(m2).spec_add(
        m3,
    ).spec_neg());
}

/// Squares are nonnegative, so squared lengths are.
pub proof fn lemma_len_sq_nonneg(v: Vec3)
    ensures
        v.spec_len_sq()@ >= 0,
{
    assert(v.x@ * v.x@ >= 0) by (nonlinear_arith);
    assert(v.y@ * v.y@ >= 0) by (nonlinear_arith);
    assert(v.z@ * v.z@ >= 0) by (nonlinear_arith);
}

/// The ball sampler's fallback point has squared length one quarter.
proof fn lemma_sphere_fallback_len()
    ensures
        Vec3::spec_sphere_fallback().spec_len_sq()@ == 16384,
{
    let r = Vec3::spec_sphere_fallback();
    assert(r.x@ == 32768);
    assert(r.x@ * r.x@ == 1073741824) by (nonlinear_arith)
        requires
            r.x@ == 32768,
    ;
    assert(r.y@ * r.y@ == 0) by (nonlinear_arith)
        requires
            r.y@ == 0,
    ;
    assert(r.z@ * r.z@ == 0) by (nonlinear_arith)
        requires
            r.z@ == 0,
    ;
    assert(crate::fx::abs_i(1073741824) == 1073741824);
    assert(crate::fx::abs_i(65536) == 65536);
    assert(crate::fx::tz_div(1073741824, 65536) == 16384);
    assert(r.x.spec_mul(r.x)@ == 16384);
    assert(r.y.spec_mul(r.y)@ == 0);
    assert(r.z.spec_mul(r.z)@ == 0);
}

} // verus!
