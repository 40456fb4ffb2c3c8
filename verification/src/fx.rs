//! Fixed-point scalar arithmetic.
//!
//! Every real-valued quantity of the tracer is a `Fx`: a signed 64-bit raw
//! integer read as `raw / SCALE` (sixteen fractional bits).  All operations
//! are total: results saturate symmetrically at `RAW_MAX`, so negation never
//! overflows, and products and quotients round toward zero.  This makes every
//! arithmetic step an exact integer function of its operands, which is what
//! the contracts of the geometry and rendering code are stated over.

use vstd::prelude::*;

verus! {

/// Raw steps per unit: a `Fx` holds `raw / SCALE`.
pub const SCALE: i64 = 65536;

/// Largest raw magnitude a scalar may hold; the saturation bound is
/// symmetric so that negation is always exact.
pub const RAW_MAX: i64 = 0x7fff_ffff_ffff_ffff;

/// Clamp an unbounded integer into the symmetric raw range.
pub open spec fn sat64(x: int) -> int {
    if x > RAW_MAX as int {
        RAW_MAX as int
    } else if x < -(RAW_MAX as int) {
        -(RAW_MAX as int)
    } else {
        x
    }
}

pub open spec fn abs_i(x: int) -> int {
    if x < 0 {
        -x
    } else {
        x
    }
}

/// Integer division rounding toward zero, as the scalar operations use it.
pub open spec fn tz_div(x: int, d: int) -> int
    recommends
        d != 0,
{
    if (x < 0) == (d < 0) {
        abs_i(x) / abs_i(d)
    } else {
        -(abs_i(x) / abs_i(d))
    }
}

/// `r` is the integer square root of `n`, rounded down.
pub open spec fn is_sqrt_floor(n: int, r: int) -> bool {
    0 <= r && r * r <= n < (r + 1) * (r + 1)
}

/// The nonnegative integer square root: `is_sqrt_floor(n, sqrt_floor(n))`
/// holds whenever `n >= 0`.
pub open spec fn sqrt_floor(n: int) -> int {
    choose|r: int| is_sqrt_floor(n, r)
}

/// A fixed-point scalar: the real value `raw / SCALE`.
#[derive(Clone, Copy, Debug, PartialEq, Eq, Structural)]
pub struct Fx {
    pub raw: i64,
}

impl View for Fx {
    type V = int;

    open spec fn view(&self) -> int {
        self.raw as int
    }
}

impl Fx {
    pub open spec fn spec_from_raw(raw: i64) -> Fx {
        Fx { raw }
    }

    pub open spec fn spec_from_int(n: int) -> Fx {
        Fx { raw: sat64(n * SCALE as int) as i64 }
    }

    pub open spec fn spec_add(self, o: Fx) -> Fx {
        Fx { raw: sat64(self@ + o@) as i64 }
    }

    pub open spec fn spec_sub(self, o: Fx) -> Fx {
        Fx { raw: sat64(self@ - o@) as i64 }
    }

    pub open spec fn spec_mul(self, o: Fx) -> Fx {
        Fx { raw: sat64(tz_div(self@ * o@, SCALE as int)) as i64 }
    }

    pub open spec fn spec_div(self, o: Fx) -> Fx
        recommends
            o@ != 0,
    {
        Fx { raw: sat64(tz_div(self@ * SCALE as int, o@)) as i64 }
    }

    pub open spec fn spec_neg(self) -> Fx {
        Fx { raw: sat64(-self@) as i64 }
    }

    pub open spec fn spec_abs(self) -> Fx {
        Fx { raw: sat64(abs_i(self@)) as i64 }
    }

    pub open spec fn spec_min(self, o: Fx) -> Fx {
        if self@ <= o@ {
            self
        } else {
            o
        }
    }

    /// Square root of a nonnegative scalar, rounded down to the raw grid;
    /// nonpositive inputs map to zero.
    pub open spec fn spec_sqrt(self) -> Fx {
        if self@ <= 0 {
            Fx { raw: 0 }
        } else {
            Fx { raw: sqrt_floor(self@ * SCALE as int) as i64 }
        }
    }

    pub fn from_raw(raw: i64) -> (r: Fx)
        ensures
            r == Fx::spec_from_raw(raw),
    {
        Fx { raw }
    }

    pub fn from_int(n: i64) -> (r: Fx)
        ensures
            r == Fx::spec_from_int(n as int),
    {
        let p: i128 = (n as i128) * (SCALE as i128);
        Fx { raw: sat_i128(p) }
    }

    pub fn zero() -> (r: Fx)
        ensures
            r == Fx::spec_from_raw(0),
    {
        Fx { raw: 0 }
    }

    pub fn one() -> (r: Fx)
        ensures
            r == Fx::spec_from_raw(SCALE),
    {
        Fx { raw: SCALE }
    }

    pub fn add(self, o: Fx) -> (r: Fx)
        ensures
            r == self.spec_add(o),
    {
        let s: i128 = self.raw as i128 + o.raw as i128;
        Fx { raw: sat_i128(s) }
    }

    pub fn sub(self, o: Fx) -> (r: Fx)
        ensures
            r == self.spec_sub(o),
    {
        let s: i128 = self.raw as i128 - o.raw as i128;
        Fx { raw: sat_i128(s) }
    }

    pub fn mul(self, o: Fx) -> (r: Fx)
        ensures
            r == self.spec_mul(o),
    {
        proof {
            lemma_mul_i64_bound(self.raw as int, o.raw as int);
        }
        let p: i128 = (self.raw as i128) * (o.raw as i128);
        let q = tz_div_i128(p, SCALE as i128);
        Fx { raw: sat_i128(q) }
    }

    pub fn div(self, o: Fx) -> (r: Fx)
        requires
            o@ != 0,
        ensures
            r == self.spec_div(o),
    {
        proof {
            lemma_mul_i64_bound(self.raw as int, SCALE as int);
        }
        let n: i128 = (self.raw as i128) * (SCALE as i128);
        let q = tz_div_i128(n, o.raw as i128);
        Fx { raw: sat_i128(q) }
    }

    pub fn neg(self) -> (r: Fx)
        ensures
            r == self.spec_neg(),
    {
        if self.raw == i64::MIN {
            Fx { raw: RAW_MAX }
        } else {
            Fx { raw: -self.raw }
        }
    }

    pub fn abs(self) -> (r: Fx)
        ensures
            r == self.spec_abs(),
    {
        if self.raw < 0 {
            self.neg()
        } else {
            self
        }
    }

    pub fn min(self, o: Fx) -> (r: Fx)
        ensures
            r == self.spec_min(o),
    {
        if self.raw <= o.raw {
            self
        } else {
            o
        }
    }

    pub fn sqrt(self) -> (r: Fx)
        ensures
            r == self.spec_sqrt(),
    {
        if self.raw <= 0 {
            return Fx { raw: 0 };
        }
        let n: u128 = (self.raw as u128) * (SCALE as u128);
        let mut lo: u128 = 0;
        let mut hi: u128 = 0x100_0000_0000;
        while hi - lo > 1
            invariant
                lo < hi <= 0x100_0000_0000u128,
                lo * lo <= n,
                n < hi * hi,
            decreases hi - lo,
        {
            let mid: u128 = lo + (hi - lo) / 2;
            proof {
                assert(lo < mid < hi);
                assert(mid * mid < 0x1_0000_0000_0000_0000_0000) by (nonlinear_arith)
                    requires
                        mid < 0x100_0000_0000u128,
                ;
            }
            if mid * mid <= n {
                lo = mid;
            } else {
                hi = mid;
            }
        }
        proof {
            assert(n < (lo + 1) * (lo + 1));
            lemma_sqrt_floor_unique(n as int, lo as int);
        }
        Fx { raw: lo as i64 }
    }
}

/// `sqrt_floor` is pinned down by any witness of its defining property.
pub proof fn lemma_sqrt_floor_unique(n: int, r: int)
    requires
        0 <= r,
        r * r <= n,
        n < (r + 1) * (r + 1),
    ensures
        sqrt_floor(n) == r,
{
    assert(is_sqrt_floor(n, r));
    let w = sqrt_floor(n);
    assert(is_sqrt_floor(n, w)) by {
        assert(exists|x: int| is_sqrt_floor(n, x)) by {
            assert(is_sqrt_floor(n, r));
        }
    }
    if w < r {
        assert((w + 1) * (w + 1) <= r * r) by (nonlinear_arith)
            requires
                0 <= w + 1 <= r,
        ;
        assert(false);
    }
    if w > r {
        assert((r + 1) * (r + 1) <= w * w) by (nonlinear_arith)
            requires
                0 <= r + 1 <= w,
        ;
        assert(false);
    }
}

/// Evaluate a truncating division of nonnegative operands from its
/// quotient-remainder witness.
pub proof fn lemma_tz_div_eval(x: int, d: int, q: int, rem: int)
    requires
        x >= 0,
        d > 0,
        0 <= rem < d,
        x == q * d + rem,
    ensures
        tz_div(x, d) == q,
{
    assert(abs_i(x) == x);
    assert(abs_i(d) == d);
    vstd::arithmetic::div_mod::lemma_fundamental_div_mod_converse(x, d, q, rem);
}

/// Every nonnegative integer has a floor square root.
pub proof fn lemma_sqrt_floor_exists(n: int)
    requires
        n >= 0,
    ensures
        is_sqrt_floor(n, sqrt_floor(n)),
    decreases n,
{
    if n == 0 {
        assert(is_sqrt_floor(0, 0));
    } else {
        lemma_sqrt_floor_exists(n - 1);
        let r = sqrt_floor(n - 1);
        assert(is_sqrt_floor(n - 1, r));
        if (r + 1) * (r + 1) <= n {
            // then n is exactly the next perfect square
            assert(n == (r + 1) * (r + 1));
            assert((r + 2) * (r + 2) == (r + 1) * (r + 1) + 2 * (r + 1) + 1) by (nonlinear_arith);
            assert(is_sqrt_floor(n, r + 1));
        } else {
            assert(is_sqrt_floor(n, r));
        }
    }
    assert(exists|x: int| is_sqrt_floor(n, x));
}

/// The scalar square root is nonnegative and never saturates.
pub proof fn lemma_spec_sqrt_bounds(x: Fx)
    ensures
        0 <= x.spec_sqrt()@ < 0x100_0000_0000,
{
    if x@ > 0 {
        let n = x@ * (SCALE as int);
        assert(0 < n <= 0x7fff_ffff_ffff_ffff * 65536) by (nonlinear_arith)
            requires
                1 <= x@ <= 0x7fff_ffff_ffff_ffff,
                n == x@ * 65536,
        ;
        lemma_sqrt_floor_exists(n);
        let r = sqrt_floor(n);
        assert(is_sqrt_floor(n, r));
        if r >= 0x100_0000_0000 {
            assert(r * r >= 0x100_0000_0000 * 0x100_0000_0000) by (nonlinear_arith)
                requires
                    r >= 0x100_0000_0000,
            ;
            assert(false);
        }
    }
}

/// Truncating division by a positive divisor is monotone in the dividend.
pub proof fn lemma_tz_div_mono(x1: int, x2: int, d: int)
    requires
        x1 <= x2,
        d > 0,
    ensures
        tz_div(x1, d) <= tz_div(x2, d),
{
    if x1 >= 0 {
        assert(abs_i(x1) == x1 && abs_i(x2) == x2 && abs_i(d) == d);
        vstd::arithmetic::div_mod::lemma_div_is_ordered(x1, x2, d);
    } else if x2 < 0 {
        assert(abs_i(x1) == -x1 && abs_i(x2) == -x2 && abs_i(d) == d);
        vstd::arithmetic::div_mod::lemma_div_is_ordered(-x2, -x1, d);
    } else {
        assert(abs_i(x1) == -x1 && abs_i(x2) == x2 && abs_i(d) == d);
        vstd::arithmetic::div_mod::lemma_div_pos_is_pos(-x1, d);
        vstd::arithmetic::div_mod::lemma_div_pos_is_pos(x2, d);
    }
}

/// The product of two 64-bit values stays well inside the 128-bit range.
proof fn lemma_mul_i64_bound(a: int, b: int)
    requires
        -0x8000_0000_0000_0000 <= a <= 0x8000_0000_0000_0000,
        -0x8000_0000_0000_0000 <= b <= 0x8000_0000_0000_0000,
    ensures
        -0x4000_0000_0000_0000_0000_0000_0000_0000 <= a * b
            <= 0x4000_0000_0000_0000_0000_0000_0000_0000,
{
    assert(-0x4000_0000_0000_0000_0000_0000_0000_0000 <= a * b
        <= 0x4000_0000_0000_0000_0000_0000_0000_0000) by (nonlinear_arith)
        requires
            -0x8000_0000_0000_0000 <= a <= 0x8000_0000_0000_0000,
            -0x8000_0000_0000_0000 <= b <= 0x8000_0000_0000_0000,
    ;
}

/// Saturate a 128-bit intermediate into the raw range.
fn sat_i128(v: i128) -> (r: i64)
    ensures
        r as int == sat64(v as int),
{
    if v > RAW_MAX as i128 {
        RAW_MAX
    } else if v < -(RAW_MAX as i128) {
        -RAW_MAX
    } else {
        v as i64
    }
}

/// 128-bit division rounding toward zero, through unsigned magnitudes.
fn tz_div_i128(x: i128, d: i128) -> (q: i128)
    requires
        d != 0,
        x != i128::MIN,
        d != i128::MIN,
    ensures
        q as int == tz_div(x as int, d as int),
{
    let xm: u128 = if x >= 0 {
        x as u128
    } else {
        (-x) as u128
    };
    let dm: u128 = if d >= 0 {
        d as u128
    } else {
        (-d) as u128
    };
    let qm: u128 = xm / dm;
    proof {
        assert(xm as int == abs_i(x as int));
        assert(dm as int == abs_i(d as int));
        assert(qm as int == abs_i(x as int) / abs_i(d as int));
        assert(qm <= xm) by (nonlinear_arith)
            requires
                dm >= 1,
                qm == xm / dm,
        ;
    }
    if (x < 0) == (d < 0) {
        qm as i128
    } else {
        -(qm as i128)
    }
}

} // verus!
