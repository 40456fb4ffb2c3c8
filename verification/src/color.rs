//! Colors are vectors read as RGB channels in `[0, 1]`.

use crate::fx::{Fx, SCALE};
use crate::vec3::Vec3;
use vstd::prelude::*;

pub use crate::vec3::Vec3 as Color;

verus! {

impl Color {
    pub fn r(&self) -> (v: Fx)
        ensures
            v == self.x,
    {
        self.x()
    }

    pub fn g(&self) -> (v: Fx)
        ensures
            v == self.y,
    {
        self.y()
    }

    pub fn b(&self) -> (v: Fx)
        ensures
            v == self.z,
    {
        self.z()
    }

    pub fn set_r(&mut self, v: Fx)
        ensures
            *final(self) == (Color { x: v, ..*old(self) }),
    {
        self.set_x(v);
    }

    pub fn set_g(&mut self, v: Fx)
        ensures
            *final(self) == (Color { y: v, ..*old(self) }),
    {
        self.set_y(v);
    }

    pub fn set_b(&mut self, v: Fx)
        ensures
            *final(self) == (Color { z: v, ..*old(self) }),
    {
        self.set_z(v);
    }

    pub open spec fn spec_black() -> Color {
        Vec3::spec_zero()
    }

    pub open spec fn spec_white() -> Color {
        Vec3::spec_new(Fx { raw: SCALE }, Fx { raw: SCALE }, Fx { raw: SCALE })
    }

    pub fn black() -> (c: Color)
        ensures
            c == Color::spec_black(),
    {
        Color::zero()
    }

    pub fn white() -> (c: Color)
        ensures
            c == Color::spec_white(),
    {
        Color::one()
    }

    pub fn blue() -> (c: Color)
        ensures
            c == Vec3::spec_new(Fx { raw: 0 }, Fx { raw: 0 }, Fx { raw: SCALE }),
    {
        Color::new(Fx::zero(), Fx::zero(), Fx::one())
    }

    pub fn red() -> (c: Color)
        ensures
            c == Vec3::spec_new(Fx { raw: SCALE }, Fx { raw: 0 }, Fx { raw: 0 }),
    {
        Color::new(Fx::one(), Fx::zero(), Fx::zero())
    }

    pub fn green() -> (c: Color)
        ensures
            c == Vec3::spec_new(Fx { raw: 0 }, Fx { raw: SCALE }, Fx { raw: 0 }),
    {
        Color::new(Fx::zero(), Fx::one(), Fx::zero())
    }

    /// Gamma encoding with exponent two: each channel is replaced by its
    /// square root.
    pub open spec fn spec_linear_to_gamma(color: Color) -> Color {
        Vec3::spec_new(color.x.spec_sqrt(), color.y.spec_sqrt(), color.z.spec_sqrt())
    }

    /// Gamma decoding: each channel is squared.
    pub open spec fn spec_gamma_to_linear(color: Color) -> Color {
        Vec3::spec_new(
            color.x.spec_mul(color.x),
            color.y.spec_mul(color.y),
            color.z.spec_mul(color.z),
        )
    }

    pub fn linear_to_gamma(color: &Color) -> (c: Color)
        ensures
            c == Color::spec_linear_to_gamma(*color),
    {
        Color::new(color.x.sqrt(), color.y.sqrt(), color.z.sqrt())
    }

    pub fn gamma_to_linear(color: &Color) -> (c: Color)
        ensures
            c == Color::spec_gamma_to_linear(*color),
    {
        Color::new(color.x.mul(color.x), color.y.mul(color.y), color.z.mul(color.z))
    }
}

/// One channel of the gamma round trip: squaring the rounded-down square
/// root comes back at most two raw steps below the original, never above.
pub proof fn lemma_gamma_channel_round_trip(c: Fx)
    requires
        0 <= c@ <= SCALE,
    ensures
        c.spec_sqrt().spec_mul(c.spec_sqrt())@ <= c@,
        c@ - c.spec_sqrt().spec_mul(c.spec_sqrt())@ <= 2,
{
    if c@ == 0 {
        assert(crate::fx::abs_i(0) == 0);
        assert(crate::fx::tz_div(0, 65536) == 0);
        assert(c.spec_sqrt().spec_mul(c.spec_sqrt())@ == 0);
    } else {
        let n = c@ * (SCALE as int);
        assert(65536 <= n <= 65536 * 65536) by (nonlinear_arith)
            requires
                1 <= c@ <= 65536,
                n == c@ * 65536,
        ;
        crate::fx::lemma_sqrt_floor_exists(n);
        let g = crate::fx::sqrt_floor(n);
        assert(crate::fx::is_sqrt_floor(n, g));
        if g > 65536 {
            assert(g * g > 65536 * 65536) by (nonlinear_arith)
                requires
                    g > 65536,
            ;
            assert(false);
        }
        let sq = g * g;
        assert(0 <= sq <= 65536 * 65536) by (nonlinear_arith)
            requires
                0 <= g <= 65536,
                sq == g * g,
        ;
        // the executable square of the root: truncating division by the grid
        assert(crate::fx::abs_i(sq) == sq);
        assert(crate::fx::abs_i(65536) == 65536);
        let rt = c.spec_sqrt().spec_mul(c.spec_sqrt())@;
        assert(rt == sq / 65536);
        // below the original: g * g <= n, and n / 65536 recovers c exactly
        vstd::arithmetic::div_mod::lemma_div_is_ordered(sq, n, 65536);
        assert(n == 65536 * c@) by (nonlinear_arith)
            requires
                n == c@ * 65536,
        ;
        vstd::arithmetic::div_mod::lemma_div_multiples_vanish(c@, 65536);
        assert(sq / 65536 <= c@);
        // at most two steps below: n < (g + 1)^2 <= g * g + 2 * 65536 + 1
        assert((g + 1) * (g + 1) == sq + 2 * g + 1) by (nonlinear_arith)
            requires
                sq == g * g,
        ;
        assert(n <= sq + 2 * 65536);
        vstd::arithmetic::div_mod::lemma_div_is_ordered(n, sq + 2 * 65536, 65536);
        vstd::arithmetic::div_mod::lemma_hoist_over_denominator(sq, 2, 65536nat);
        assert(n / 65536 <= sq / 65536 + 2);
        assert(c@ <= rt + 2);
    }
}

/// Gamma round trip for a whole color: encoding then decoding a color with
/// channels in the unit range returns it within two raw steps per channel,
/// always from below.
pub proof fn lemma_gamma_round_trip(color: Color)
    requires
        0 <= color.x@ <= SCALE,
        0 <= color.y@ <= SCALE,
        0 <= color.z@ <= SCALE,
    ensures
        ({
            let rt = Color::spec_gamma_to_linear(Color::spec_linear_to_gamma(color));
            &&& rt.x@ <= color.x@ && color.x@ - rt.x@ <= 2
            &&& rt.y@ <= color.y@ && color.y@ - rt.y@ <= 2
            &&& rt.z@ <= color.z@ && color.z@ - rt.z@ <= 2
        }),
{
    lemma_gamma_channel_round_trip(color.x);
    lemma_gamma_channel_round_trip(color.y);
    lemma_gamma_channel_round_trip(color.z);
}

} // verus!
