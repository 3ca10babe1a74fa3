//! The low-frequency oscillator that modulates the comb delay lengths.
//!
//! Phase lives on an integer circle of [`TURN`] units standing for one full
//! cycle; each call advances it by `speed / sample_rate` of a turn and wraps
//! it back onto the circle, which emits the same samples as accumulating and
//! reducing, since the wave is periodic. Only the sine shape produces a
//! signal; the other shapes are declared but unimplemented and return
//! silence on purpose — an open extension point, not an oversight.
//!
//! The sine is the standard parabolic approximation `4 u (1 - u)` over each
//! half cycle, exact integer arithmetic with its peak at exactly full scale.

use vstd::prelude::*;
use crate::fixed::{SCALE, fx_mul, fx_in_range, mul_sat};

verus! {

/// One full cycle of phase, in integer phase units (2^30).
pub const TURN: i64 = 1073741824;

/// Half a cycle, in integer phase units.
pub const HALF_TURN: i64 = 536870912;

/// Amplitude a fresh oscillator starts with.
pub const DEFAULT_AMP: i64 = 1677721600;

/// Speed a fresh oscillator starts with, in fixed-point hertz.
pub const DEFAULT_SPEED: i64 = 83886080000;

pub enum Shape {
    Sine,
    Triangle,
    Sawtooth,
    Square,
    Random,
}

#[verifier::ext_equal]
pub ghost struct LfoView {
    pub sample_rate: int,
    pub shape: Shape,
    pub amp: int,
    pub speed: int,
    pub phase: int,
}

pub open spec fn lfo_wf(v: LfoView) -> bool {
    &&& 1 <= v.sample_rate
    &&& 0 <= v.phase < TURN
    &&& 0 <= v.speed
    &&& fx_in_range(v.amp)
}

/// How far the phase moves per call: `speed / sample_rate` of a turn.
pub open spec fn phase_inc(speed: int, sample_rate: int) -> int {
    TURN * speed / (sample_rate * (SCALE as int))
}

/// The phase after one call, wrapped onto the circle.
pub open spec fn phase_next(phase: int, speed: int, sample_rate: int) -> int {
    (phase + phase_inc(speed, sample_rate)) % (TURN as int)
}

/// The rising half-wave: the parabola `4 u (1 - u)` scaled to full scale,
/// for `x` in phase units of one half cycle.
pub open spec fn sine_arch(x: int) -> int {
    4 * SCALE * x * (HALF_TURN - x) / ((HALF_TURN as int) * (HALF_TURN as int))
}

/// The full-cycle sine approximation: the arch, then its mirror image.
pub open spec fn sine_fx(phase: int) -> int {
    if phase < HALF_TURN {
        sine_arch(phase)
    } else {
        -sine_arch(phase - HALF_TURN)
    }
}

/// The oscillator state after one call.
pub open spec fn lfo_step(v: LfoView) -> LfoView {
    LfoView { phase: phase_next(v.phase, v.speed, v.sample_rate), ..v }
}

/// What one call emits: the shape evaluated at the advanced phase, scaled by
/// the amplitude; every shape but the sine is an unimplemented placeholder
/// that emits silence.
pub open spec fn lfo_out(v: LfoView) -> int {
    match v.shape {
        Shape::Sine => fx_mul(v.amp, sine_fx(phase_next(v.phase, v.speed, v.sample_rate))),
        Shape::Triangle => 0,
        Shape::Sawtooth => 0,
        Shape::Square => 0,
        Shape::Random => 0,
    }
}

pub struct Lfo {
    sample_rate: usize,
    shape: Shape,
    amp: i64,
    speed: i64,
    phase: i64,
}

impl View for Lfo {
    type V = LfoView;

    closed spec fn view(&self) -> LfoView {
        LfoView {
            sample_rate: self.sample_rate as int,
            shape: self.shape,
            amp: self.amp as int,
            speed: self.speed as int,
            phase: self.phase as int,
        }
    }
}

/// The rising half-wave, evaluated exactly; never leaves `[0, SCALE]`.
fn sine_arch_val(x: i64) -> (r: i64)
    requires
        0 <= x <= HALF_TURN,
    ensures
        r as int == sine_arch(x as int),
        0 <= r <= SCALE,
{
    proof {
        let xi = x as int;
        let h2 = (HALF_TURN as int) * (HALF_TURN as int);
        assert(0 <= 4 * SCALE * xi * (HALF_TURN - xi) && 4 * SCALE * xi * (HALF_TURN - xi) <= h2
            * (SCALE as int)) by (nonlinear_arith)
            requires
                0 <= xi <= HALF_TURN,
                h2 == (HALF_TURN as int) * (HALF_TURN as int),
        ;
        vstd::arithmetic::div_mod::lemma_div_is_ordered(
            4 * SCALE * xi * (HALF_TURN - xi),
            h2 * (SCALE as int),
            h2,
        );
        vstd::arithmetic::div_mod::lemma_div_multiples_vanish(SCALE as int, h2);
        vstd::arithmetic::div_mod::lemma_div_pos_is_pos(4 * SCALE * xi * (HALF_TURN - xi), h2);
    }
    proof {
        assert((4 * (SCALE as int)) * (x as int) <= 0x400_0000_0000_0000) by (nonlinear_arith)
            requires
                0 <= x <= HALF_TURN,
        ;
        assert(((4 * (SCALE as int)) * (x as int)) * ((HALF_TURN - x) as int)
            <= 0x100_0000_0000_0000_0000_0000) by (nonlinear_arith)
            requires
                0 <= (4 * (SCALE as int)) * (x as int) <= 0x400_0000_0000_0000,
                0 <= (HALF_TURN - x) as int <= HALF_TURN,
        ;
    }
    let num: u128 = 4 * (SCALE as u128) * (x as u128) * ((HALF_TURN - x) as u128);
    (num / ((HALF_TURN as u128) * (HALF_TURN as u128))) as i64
}

/// The full-cycle sine value; never leaves `[-SCALE, SCALE]`.
fn sine_val(phase: i64) -> (r: i64)
    requires
        0 <= phase < TURN,
    ensures
        r as int == sine_fx(phase as int),
        -SCALE <= r <= SCALE,
{
    if phase < HALF_TURN {
        sine_arch_val(phase)
    } else {
        -sine_arch_val(phase - HALF_TURN)
    }
}

impl Lfo {
    pub open spec fn wf(&self) -> bool {
        lfo_wf(self@)
    }

    /// Creates an oscillator at the given sample rate, shaped as a sine.
    pub fn new(sr: usize) -> (r: Lfo)
        requires
            1 <= sr,
        ensures
            r.wf(),
            r@ == (LfoView {
                sample_rate: sr as int,
                shape: Shape::Sine,
                amp: DEFAULT_AMP as int,
                speed: DEFAULT_SPEED as int,
                phase: 0,
            }),
    {
        Lfo {
            sample_rate: sr,
            shape: Shape::Sine,
            amp: DEFAULT_AMP,
            speed: DEFAULT_SPEED,
            phase: 0,
        }
    }

    /// Sets the amplitude.
    pub fn set_amp(&mut self, x: i64)
        requires
            old(self).wf(),
            fx_in_range(x as int),
        ensures
            final(self).wf(),
            final(self)@ == (LfoView { amp: x as int, ..old(self)@ }),
    {
        self.amp = x;
    }

    /// Sets the speed, in fixed-point hertz.
    pub fn set_speed(&mut self, x: i64)
        requires
            old(self).wf(),
            0 <= x,
        ensures
            final(self).wf(),
            final(self)@ == (LfoView { speed: x as int, ..old(self)@ }),
    {
        self.speed = x;
    }

    /// Selects the waveform.
    pub fn set_shape(&mut self, x: Shape)
        requires
            old(self).wf(),
        ensures
            final(self).wf(),
            final(self)@ == (LfoView { shape: x, ..old(self)@ }),
    {
        self.shape = x;
    }

    /// Advances the phase by one sample and emits the waveform value there;
    /// the output never exceeds the amplitude in magnitude.
    pub fn output(&mut self) -> (out: i64)
        requires
            old(self).wf(),
        ensures
            final(self).wf(),
            final(self)@ == lfo_step(old(self)@),
            out as int == lfo_out(old(self)@),
            fx_in_range(out as int),
            0 <= old(self)@.amp ==> -old(self)@.amp <= out as int <= old(self)@.amp,
    {
        let inc: u128 = ((TURN as u128) * (self.speed as u128)) / ((self.sample_rate as u128) * (
        SCALE as u128));
        let ph: u128 = ((self.phase as u128) + inc) % (TURN as u128);
        self.phase = ph as i64;
        proof {
            assert(self@.phase == phase_next(old(self)@.phase, old(self)@.speed, old(
                self,
            )@.sample_rate));
        }
        let s = sine_val(self.phase);
        let out = match self.shape {
            Shape::Sine => mul_sat(self.amp, s),
            Shape::Triangle => 0,
            Shape::Sawtooth => 0,
            Shape::Square => 0,
            Shape::Random => 0,
        };
        proof {
            let a = old(self)@.amp;
            let si = s as int;
            if 0 <= a {
                assert(-(a * (SCALE as int)) <= a * si <= a * (SCALE as int))
                    by (nonlinear_arith)
                    requires
                        0 <= a,
                        -SCALE <= si <= SCALE,
                ;
                vstd::arithmetic::div_mod::lemma_div_is_ordered(
                    a * si,
                    a * (SCALE as int),
                    SCALE as int,
                );
                vstd::arithmetic::div_mod::lemma_div_is_ordered(
                    -(a * si),
                    a * (SCALE as int),
                    SCALE as int,
                );
                vstd::arithmetic::div_mod::lemma_div_multiples_vanish(a, SCALE as int);
            }
        }
        out
    }
}

} // verus!
