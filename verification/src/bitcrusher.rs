//! The bit-crusher: amplitude quantization (bit-depth reduction) and a
//! sample-and-hold stutter standing for sample-rate reduction.
//!
//! The quantizer scales a sample into `[0, levels]`, floors it to a step and
//! rescales it back; a fractional bit-depth interpolates the level count
//! linearly between neighbouring powers of two. The stutter is keyed to the
//! caller-supplied position inside the host's processing block, not to an
//! internal counter, so its cadence realigns whenever block boundaries
//! change — a deliberate coupling kept as designed.

use vstd::prelude::*;
use crate::fixed::{SCALE, SAT, fx_clip, fx_in_range, floor_div_i128, clip_sat_i128};

verus! {

/// Highest accepted bit-depth (16 bits, in fixed point).
pub const BIT_RATE_MAX: i64 = 268435456;

/// Bit-depth a fresh bit-crusher starts with (6 bits, in fixed point).
pub const DEFAULT_BIT_RATE: i64 = 100663296;

/// `2 * SCALE * SCALE`: the quantizer's rescaling unit.
pub const TWO_SCALE_SQ: i128 = 562949953421312;

/// Two raised to a small exponent.
pub open spec fn pow2_fx(e: nat) -> int
    decreases e,
{
    if e == 0 {
        1
    } else {
        2 * pow2_fx((e - 1) as nat)
    }
}

pub proof fn lemma_pow2_fx_le(a: nat, b: nat)
    requires
        a <= b,
    ensures
        pow2_fx(a) <= pow2_fx(b),
        1 <= pow2_fx(a),
    decreases b,
{
    if a == b {
        if a > 0 {
            lemma_pow2_fx_le((a - 1) as nat, (b - 1) as nat);
        }
    } else {
        lemma_pow2_fx_le(a, (b - 1) as nat);
    }
}

/// How many quantization levels a bit-depth selects, in fixed point: the
/// integer part picks a power of two, the fraction interpolates linearly up
/// to the next one.
pub open spec fn levels_of(bit_rate: int) -> int {
    (SCALE + bit_rate % (SCALE as int)) * pow2_fx((bit_rate / (SCALE as int)) as nat)
}

/// How many quantization steps fit below the sample once it is scaled into
/// the band `[0, levels]`.
pub open spec fn quant_steps(x: int, levels: int) -> int {
    ((x + SCALE) * levels) / (2 * (SCALE as int) * (SCALE as int))
}

/// The quantized sample: the step count rescaled back onto the sample range.
pub open spec fn quant_value(x: int, levels: int) -> int {
    fx_clip(quant_steps(x, levels) * (2 * (SCALE as int) * (SCALE as int)) / levels - SCALE)
}

#[verifier::ext_equal]
pub ghost struct BitCrusherView {
    pub bit_rate: int,
    pub sample_rate: int,
    pub prev_sample: int,
    pub noise_level: int,
}

pub open spec fn bc_wf(v: BitCrusherView) -> bool {
    &&& 0 <= v.bit_rate <= BIT_RATE_MAX
    &&& SCALE <= v.sample_rate <= SAT
    &&& fx_in_range(v.prev_sample)
}

/// One bit-crusher step: the quantized sample, unless the sample-rate factor
/// exceeds one and the block position falls strictly inside the block, in
/// which case the remembered sample is substituted; in every other case the
/// fresh value is remembered and emitted.
pub open spec fn crush_next(v: BitCrusherView, x: int, buffer_index: int, buffer_size: int) -> (
    BitCrusherView,
    int,
) {
    let q = quant_value(x, levels_of(v.bit_rate));
    let pos = buffer_index % (v.sample_rate / (SCALE as int));
    if v.sample_rate > SCALE && 0 < pos && pos < buffer_size {
        (v, v.prev_sample)
    } else {
        (BitCrusherView { prev_sample: q, ..v }, q)
    }
}

/// Two raised to a small exponent, by repeated doubling.
fn pow2_val(e: u64) -> (r: u64)
    requires
        e <= 16,
    ensures
        r as int == pow2_fx(e as nat),
        1 <= r <= 65536,
{
    let mut i: u64 = 0;
    let mut r: u64 = 1;
    while i < e
        invariant
            i <= e <= 16,
            r as int == pow2_fx(i as nat),
            1 <= r <= 65536,
        decreases e - i,
    {
        proof {
            lemma_pow2_fx_le((i + 1) as nat, 16nat);
            reveal_with_fuel(pow2_fx, 17);
            assert(pow2_fx(16nat) == 65536);
        }
        r = r * 2;
        i = i + 1;
    }
    proof {
        lemma_pow2_fx_le(0nat, e as nat);
    }
    r
}

/// The level count for a bit-depth, in fixed point.
fn levels_val(bit_rate: i64) -> (r: i64)
    requires
        0 <= bit_rate <= BIT_RATE_MAX,
    ensures
        r as int == levels_of(bit_rate as int),
        SCALE <= r <= 2199023255552,
{
    let b = (bit_rate as u64) / (SCALE as u64);
    let frac = (bit_rate as u64) % (SCALE as u64);
    let p = pow2_val(b);
    let base = (SCALE as u64) + frac;
    proof {
        let bi = base as int;
        let pi = p as int;
        assert(bi <= bi * pi <= 33554432 * 65536) by (nonlinear_arith)
            requires
                16777216 <= bi < 33554432,
                1 <= pi <= 65536,
        ;
        assert(levels_of(bit_rate as int) == bi * pi);
    }
    (base * p) as i64
}

/// The amplitude quantizer: scale into the level band, floor, rescale back.
fn quantize(x: i64, levels: i64) -> (r: i64)
    requires
        fx_in_range(x as int),
        SCALE <= levels <= 2199023255552,
    ensures
        r as int == quant_value(x as int, levels as int),
        fx_in_range(r as int),
{
    proof {
        let u = x + SCALE as int;
        let li = levels as int;
        assert(-0x40_0000_0000_0000_0000_0000 <= u * li <= 0x40_0000_0000_0000_0000_0000)
            by (nonlinear_arith)
            requires
                -0x200_0000_0000 <= u <= 0x200_0000_0000,
                0 < li <= 0x200_0000_0000,
        ;
    }
    let n: i128 = ((x as i128) + (SCALE as i128)) * (levels as i128);
    let steps: i128 = floor_div_i128(n, TWO_SCALE_SQ);
    let back: i128 = steps * TWO_SCALE_SQ;
    let m: i128 = floor_div_i128(back, levels as i128);
    clip_sat_i128(m - (SCALE as i128))
}

pub struct BitCrusher {
    bit_rate: i64,
    sample_rate: i64,
    prev_sample: i64,
    noise_level: i64,
}

impl View for BitCrusher {
    type V = BitCrusherView;

    closed spec fn view(&self) -> BitCrusherView {
        BitCrusherView {
            bit_rate: self.bit_rate as int,
            sample_rate: self.sample_rate as int,
            prev_sample: self.prev_sample as int,
            noise_level: self.noise_level as int,
        }
    }
}

impl BitCrusher {
    pub open spec fn wf(&self) -> bool {
        bc_wf(self@)
    }

    /// Creates a bit-crusher at six bits with no rate reduction.
    pub fn new() -> (r: BitCrusher)
        ensures
            r.wf(),
            r@ == (BitCrusherView {
                bit_rate: DEFAULT_BIT_RATE as int,
                sample_rate: SCALE as int,
                prev_sample: 0,
                noise_level: 0,
            }),
    {
        BitCrusher { bit_rate: DEFAULT_BIT_RATE, sample_rate: SCALE, prev_sample: 0, noise_level: 0 }
    }

    /// Sets the bit-depth, in fixed point; fractional depths are allowed.
    pub fn set_bit_rate(&mut self, x: i64)
        requires
            old(self).wf(),
            0 <= x <= BIT_RATE_MAX,
        ensures
            final(self).wf(),
            final(self)@ == (BitCrusherView { bit_rate: x as int, ..old(self)@ }),
    {
        self.bit_rate = x;
    }

    /// Sets the sample-rate-reduction factor, in fixed point; a factor whose
    /// integer part is zero would be used as a zero modulus, so it is ruled
    /// out here.
    pub fn set_sample_rate(&mut self, x: i64)
        requires
            old(self).wf(),
            SCALE <= x <= SAT,
        ensures
            final(self).wf(),
            final(self)@ == (BitCrusherView { sample_rate: x as int, ..old(self)@ }),
    {
        self.sample_rate = x;
    }

    /// Sets the reserved noise level; it is stored and never applied.
    pub fn set_noise_level(&mut self, x: i64)
        requires
            old(self).wf(),
        ensures
            final(self).wf(),
            final(self)@ == (BitCrusherView { noise_level: x as int, ..old(self)@ }),
    {
        self.noise_level = x;
    }

    /// One bit-crusher step over the sample at the given position inside the
    /// host's processing block.
    pub fn process(&mut self, x: i64, buffer_index: usize, buffer_size: usize) -> (out: i64)
        requires
            old(self).wf(),
            fx_in_range(x as int),
        ensures
            final(self).wf(),
            (final(self)@, out as int) == crush_next(
                old(self)@,
                x as int,
                buffer_index as int,
                buffer_size as int,
            ),
            fx_in_range(out as int),
    {
        let q = quantize(x, levels_val(self.bit_rate));
        let factor = ((self.sample_rate as u64) / (SCALE as u64)) as usize;
        let pos = buffer_index % factor;
        if self.sample_rate > SCALE && pos > 0 && pos < buffer_size {
            self.prev_sample
        } else {
            self.prev_sample = q;
            q
        }
    }
}

/// Bit-crusher near-identity: at sixteen bits and no rate reduction, the
/// quantizer moves any full-scale sample down by less than one quantization
/// step — `2 / 2^16` of the full range, which is `2 * SCALE * SCALE`
/// divided by the level count in fixed point — and never up.
pub proof fn lemma_bitcrush_near_identity(x: int)
    requires
        -SCALE <= x <= SCALE,
    ensures
        0 <= x - quant_value(x, levels_of(BIT_RATE_MAX as int)) < 2 * (SCALE as int) * (
        SCALE as int) / levels_of(BIT_RATE_MAX as int),
{
    assert(levels_of(BIT_RATE_MAX as int) == 1099511627776) by {
        reveal_with_fuel(pow2_fx, 17);
        assert(pow2_fx(16nat) == 65536);
    }
    let u = x + SCALE as int;
    let q = u / 512;
    let r = u % 512;
    vstd::arithmetic::div_mod::lemma_fundamental_div_mod(u, 512);
    // scaling numerator and denominator by the level count changes nothing
    vstd::arithmetic::div_mod::lemma_fundamental_div_mod_converse_div(
        u * 1099511627776,
        562949953421312,
        q,
        r * 1099511627776,
    );
    assert(quant_steps(x, 1099511627776) == q);
    vstd::arithmetic::div_mod::lemma_fundamental_div_mod_converse_div(
        q * 562949953421312,
        1099511627776,
        q * 512,
        0,
    );
    assert(quant_value(x, 1099511627776) == fx_clip(q * 512 - SCALE));
    assert(x - (q * 512 - SCALE) == r);
}

} // verus!
