//! Scalar helpers shared by the whole tracer: angle conversion, series
//! approximations of sine/cosine/tangent on the fixed-point grid, and the
//! deterministic random source.
//!
//! Randomness is never drawn from ambient state.  Every function that needs
//! entropy takes an explicit `Rng`, a splitmix64 stream: callers that start
//! from the same seed see the same draws, which makes renders reproducible
//! and lets each parallel worker own an independent stream.

use crate::fx::{Fx, RAW_MAX, SCALE};
use vstd::prelude::*;

verus! {

/// The circle constant on the raw grid (`pi * SCALE`, rounded).
pub const PI_RAW: i64 = 205887;

pub open spec fn spec_deg_to_rad(degrees: Fx) -> Fx {
    degrees.spec_mul(Fx::spec_from_raw(PI_RAW)).spec_div(Fx::spec_from_int(180))
}

/// Degrees to radians: `degrees * pi / 180`.
pub fn deg_to_rad(degrees: Fx) -> (r: Fx)
    ensures
        r == spec_deg_to_rad(degrees),
{
    degrees.mul(Fx::from_raw(PI_RAW)).div(Fx::from_int(180))
}

/// Sine by its Maclaurin series through the ninth power, evaluated with the
/// saturating scalar operations.  Accurate to a few raw steps for arguments
/// up to a half turn, which covers every angle the camera feeds it.
pub open spec fn spec_sin(x: Fx) -> Fx {
    let x2 = x.spec_mul(x);
    let x3 = x2.spec_mul(x);
    let x5 = x3.spec_mul(x2);
    let x7 = x5.spec_mul(x2);
    let x9 = x7.spec_mul(x2);
    x.spec_sub(x3.spec_div(Fx::spec_from_int(6))).spec_add(
        x5.spec_div(Fx::spec_from_int(120)),
    ).spec_sub(x7.spec_div(Fx::spec_from_int(5040))).spec_add(
        x9.spec_div(Fx::spec_from_int(362880)),
    )
}

pub fn sin(x: Fx) -> (r: Fx)
    ensures
        r == spec_sin(x),
{
    let x2 = x.mul(x);
    let x3 = x2.mul(x);
    let x5 = x3.mul(x2);
    let x7 = x5.mul(x2);
    let x9 = x7.mul(x2);
    x.sub(x3.div(Fx::from_int(6))).add(x5.div(Fx::from_int(120))).sub(
        x7.div(Fx::from_int(5040)),
    ).add(x9.div(Fx::from_int(362880)))
}

/// Cosine by its Maclaurin series through the eighth power.
pub open spec fn spec_cos(x: Fx) -> Fx {
    let x2 = x.spec_mul(x);
    let x4 = x2.spec_mul(x2);
    let x6 = x4.spec_mul(x2);
    let x8 = x6.spec_mul(x2);
    Fx::spec_from_raw(SCALE).spec_sub(x2.spec_div(Fx::spec_from_int(2))).spec_add(
        x4.spec_div(Fx::spec_from_int(24)),
    ).spec_sub(x6.spec_div(Fx::spec_from_int(720))).spec_add(
        x8.spec_div(Fx::spec_from_int(40320)),
    )
}

pub fn cos(x: Fx) -> (r: Fx)
    ensures
        r == spec_cos(x),
{
    let x2 = x.mul(x);
    let x4 = x2.mul(x2);
    let x6 = x4.mul(x2);
    let x8 = x6.mul(x2);
    Fx::one().sub(x2.div(Fx::from_int(2))).add(x4.div(Fx::from_int(24))).sub(
        x6.div(Fx::from_int(720)),
    ).add(x8.div(Fx::from_int(40320)))
}

/// Tangent as the quotient of the two series; where the cosine lands exactly
/// on zero the result saturates, standing in for the pole.
pub open spec fn spec_tan(x: Fx) -> Fx {
    let c = spec_cos(x);
    if c@ == 0 {
        Fx::spec_from_raw(RAW_MAX)
    } else {
        spec_sin(x).spec_div(c)
    }
}

pub fn tan(x: Fx) -> (r: Fx)
    ensures
        r == spec_tan(x),
{
    let c = cos(x);
    if c.raw == 0 {
        Fx::from_raw(RAW_MAX)
    } else {
        sin(x).div(c)
    }
}

/// The splitmix64 state step.
pub open spec fn spec_rng_state(s: u64) -> u64 {
    s.wrapping_add(0x9e3779b97f4a7c15u64)
}

/// The splitmix64 output mix of a state.
pub open spec fn spec_rng_output(s: u64) -> u64 {
    let z1 = (s ^ (s >> 30)).wrapping_mul(0xbf58476d1ce4e5b9u64);
    let z2 = (z1 ^ (z1 >> 27)).wrapping_mul(0x94d049bb133111ebu64);
    z2 ^ (z2 >> 31)
}

/// One draw in `[0, 1)`: the next state and the scalar whose raw value is
/// the top sixteen bits of the mixed output.
pub open spec fn spec_rand(s: u64) -> (Fx, u64) {
    let s1 = spec_rng_state(s);
    (Fx { raw: (spec_rng_output(s1) >> 48) as i64 }, s1)
}

/// One draw in `[min, max)`: `min + u * (max - min)` for a unit draw `u`.
pub open spec fn spec_rand_range(s: u64, min: Fx, max: Fx) -> (Fx, u64) {
    let (u, s1) = spec_rand(s);
    (min.spec_add(u.spec_mul(max.spec_sub(min))), s1)
}

/// The seed of the independent stream a pixel draws from: the render seed
/// advanced by the pixel's index and passed through the output mix, so that
/// neighbouring pixels start far apart in state space.
pub open spec fn spec_mix_seed(seed: u64, index: u64) -> u64 {
    spec_rng_output(seed.wrapping_add(index))
}

pub fn mix_seed(seed: u64, index: u64) -> (r: u64)
    ensures
        r == spec_mix_seed(seed, index),
{
    let s = seed.wrapping_add(index);
    let z1 = (s ^ (s >> 30)).wrapping_mul(0xbf58476d1ce4e5b9u64);
    let z2 = (z1 ^ (z1 >> 27)).wrapping_mul(0x94d049bb133111ebu64);
    z2 ^ (z2 >> 31)
}

/// A seedable deterministic random source (splitmix64).
pub struct Rng {
    pub state: u64,
}

impl Rng {
    pub fn new(seed: u64) -> (r: Rng)
        ensures
            r.state == seed,
    {
        Rng { state: seed }
    }

    /// Uniform scalar in `[0, 1)` on the raw grid.
    pub fn rand(&mut self) -> (r: Fx)
        ensures
            r == spec_rand(old(self).state).0,
            final(self).state == spec_rand(old(self).state).1,
            0 <= r@ < SCALE,
    {
        self.state = self.state.wrapping_add(0x9e3779b97f4a7c15u64);
        let s = self.state;
        let z1 = (s ^ (s >> 30)).wrapping_mul(0xbf58476d1ce4e5b9u64);
        let z2 = (z1 ^ (z1 >> 27)).wrapping_mul(0x94d049bb133111ebu64);
        let out = z2 ^ (z2 >> 31);
        let top = out >> 48;
        proof {
            lemma_shr48_bound(out);
        }
        Fx { raw: top as i64 }
    }

    /// Uniform scalar in `[min, max)`.
    pub fn rand_range(&mut self, min: Fx, max: Fx) -> (r: Fx)
        ensures
            r == spec_rand_range(old(self).state, min, max).0,
            final(self).state == spec_rand_range(old(self).state, min, max).1,
    {
        let u = self.rand();
        min.add(u.mul(max.sub(min)))
    }
}

/// The top sixteen bits of a 64-bit word fit the raw grid's unit range.
proof fn lemma_shr48_bound(x: u64)
    ensures
        x >> 48 < 65536,
{
    assert(x >> 48 < 65536) by (bit_vector);
}

} // verus!
