//! Saturating fixed-point sample arithmetic.
//!
//! A sample or coefficient is an `i64` holding a real value scaled by
//! [`SCALE`]; full scale (the real value 1.0) is `SCALE`. Sums and products
//! saturate at `±SAT`, a rail far above full scale, so every operation in the
//! signal path is total: no overflow, no wrap-around, no panic, and every
//! stored value stays inside one known range.

use vstd::prelude::*;

verus! {

/// One full-scale unit: the integer standing for the real value 1.0 (2^24).
pub const SCALE: i64 = 16777216;

/// Half of full scale: the real value 0.5.
pub const HALF_SCALE: i64 = 8388608;

/// Saturation rail (2^40): no sample or coefficient exceeds this magnitude.
pub const SAT: i64 = 1099511627776;

/// A value the arithmetic can store without saturating.
pub open spec fn fx_in_range(v: int) -> bool {
    -SAT <= v <= SAT
}

/// Saturation: clamp a mathematical result onto the rail.
pub open spec fn fx_clip(v: int) -> int {
    if v > SAT {
        SAT as int
    } else if v < -SAT {
        -SAT as int
    } else {
        v
    }
}

/// Division by `SCALE` rounding toward zero, as a product rescale does.
pub open spec fn div_scale(p: int) -> int {
    if p >= 0 {
        p / (SCALE as int)
    } else {
        -((-p) / (SCALE as int))
    }
}

/// Saturating fixed-point addition.
pub open spec fn fx_add(a: int, b: int) -> int {
    fx_clip(a + b)
}

/// Saturating fixed-point multiplication: rescale the double-width product
/// toward zero, then clamp.
pub open spec fn fx_mul(a: int, b: int) -> int {
    fx_clip(div_scale(a * b))
}

/// Clamp onto the saturation rail.
pub fn clip_sat(v: i64) -> (r: i64)
    ensures
        r == fx_clip(v as int),
{
    if v > SAT {
        SAT
    } else if v < -SAT {
        -SAT
    } else {
        v
    }
}

/// Saturating addition of two in-range values.
pub fn add_sat(a: i64, b: i64) -> (r: i64)
    requires
        fx_in_range(a as int),
        fx_in_range(b as int),
    ensures
        r == fx_add(a as int, b as int),
        fx_in_range(r as int),
{
    clip_sat(a + b)
}

/// A product of two values in the unit band stays in the unit band and
/// under either factor.
pub proof fn lemma_fx_mul_unit(a: int, b: int)
    requires
        0 <= a <= SCALE,
        0 <= b <= SCALE,
    ensures
        0 <= fx_mul(a, b) <= a,
        fx_mul(a, b) <= b,
{
    assert(0 <= a * b && a * b <= (SCALE as int) * a && a * b <= (SCALE as int) * b)
        by (nonlinear_arith)
        requires
            0 <= a <= SCALE,
            0 <= b <= SCALE,
    ;
    vstd::arithmetic::div_mod::lemma_div_pos_is_pos(a * b, SCALE as int);
    vstd::arithmetic::div_mod::lemma_div_is_ordered(a * b, (SCALE as int) * a, SCALE as int);
    vstd::arithmetic::div_mod::lemma_div_is_ordered(a * b, (SCALE as int) * b, SCALE as int);
    vstd::arithmetic::div_mod::lemma_div_multiples_vanish(a, SCALE as int);
    vstd::arithmetic::div_mod::lemma_div_multiples_vanish(b, SCALE as int);
}

/// Clamp a double-width value onto the saturation rail.
pub fn clip_sat_i128(v: i128) -> (r: i64)
    ensures
        r == fx_clip(v as int),
{
    if v > SAT as i128 {
        SAT
    } else if v < -(SAT as i128) {
        -SAT
    } else {
        v as i64
    }
}

/// Division by a positive divisor rounding toward negative infinity, the
/// rounding a floating-point `floor` after a division performs.
pub fn floor_div_i128(n: i128, d: i128) -> (r: i128)
    requires
        0 < d <= 0x1_0000_0000_0000_0000,
        -0x4000_0000_0000_0000_0000_0000_0000_0000 <= n
            <= 0x4000_0000_0000_0000_0000_0000_0000_0000,
    ensures
        r as int == (n as int) / (d as int),
        n >= 0 ==> 0 <= r <= n,
        n < 0 ==> n <= r <= 0,
{
    if n >= 0 {
        proof {
            vstd::arithmetic::div_mod::lemma_div_pos_is_pos(n as int, d as int);
            vstd::arithmetic::div_mod::lemma_div_nonincreasing(n as int, d as int);
        }
        ((n as u128) / (d as u128)) as i128
    } else {
        let m: u128 = (-n) as u128;
        let q: u128 = (m + (d as u128) - 1) / (d as u128);
        proof {
            let mi = m as int;
            let di = d as int;
            let qi = (mi + di - 1) / di;
            vstd::arithmetic::div_mod::lemma_fundamental_div_mod(mi + di - 1, di);
            let r2 = (mi + di - 1) % di;
            vstd::arithmetic::mul::lemma_mul_unary_negation(di, qi);
            assert(-mi == (-qi) * di + (di - 1 - r2));
            vstd::arithmetic::div_mod::lemma_fundamental_div_mod_converse_div(
                -mi,
                di,
                -qi,
                di - 1 - r2,
            );
            // the quotient magnitude never exceeds the dividend magnitude
            if mi == 0 {
                vstd::arithmetic::div_mod::lemma_basic_div(di - 1, di);
            } else {
                assert(mi + di - 1 <= mi * di) by (nonlinear_arith)
                    requires
                        1 <= mi,
                        1 <= di,
                ;
                vstd::arithmetic::div_mod::lemma_div_is_ordered(mi + di - 1, mi * di, di);
                vstd::arithmetic::div_mod::lemma_div_by_multiple(mi, di);
            }
            vstd::arithmetic::div_mod::lemma_div_pos_is_pos(mi + di - 1, di);
        }
        -(q as i128)
    }
}

/// Saturating fixed-point product of any two machine values.
pub fn mul_sat(a: i64, b: i64) -> (r: i64)
    ensures
        r == fx_mul(a as int, b as int),
        fx_in_range(r as int),
{
    proof {
        assert((a as int) * (b as int) <= 0x4000_0000_0000_0000_0000_0000_0000_0000
            && -0x4000_0000_0000_0000_0000_0000_0000_0000 <= (a as int) * (b as int))
            by (nonlinear_arith)
            requires
                -0x8000_0000_0000_0000 <= a <= 0x7fff_ffff_ffff_ffff,
                -0x8000_0000_0000_0000 <= b <= 0x7fff_ffff_ffff_ffff,
        ;
    }
    let wide: i128 = (a as i128) * (b as i128);
    let neg: bool = wide < 0;
    let mag: u128 = if neg {
        (-wide) as u128
    } else {
        wide as u128
    };
    let q: u128 = mag / (SCALE as u128);
    let clipped: u128 = if q > SAT as u128 {
        SAT as u128
    } else {
        q
    };
    if neg {
        -(clipped as i64)
    } else {
        clipped as i64
    }
}

} // verus!
