//! The reverberation engine: eight comb-filter pairs in parallel, four
//! allpass pairs in series, a delay-modulating oscillator, a bit-crusher,
//! stereo crossfeed with width control, and a silence-triggered fade-out.
//!
//! Every delay-line capacity is fixed at construction from the tuning
//! constants, scaled by `sample_rate / 44100` and offset between the two
//! channels so that left and right decorrelate. One `process` call consumes
//! one stereo input sample and advances every owned filter by exactly one
//! step; its contract equates the whole call with [`reverb_step`], the
//! mathematical model of the signal path.
//!
//! A floating-point signal path would need a numeric-hygiene stage here,
//! flushing NaN, infinite and subnormal crossfeed results to zero before
//! they reach the output; saturating integer samples can hold no such
//! values, so that stage is vacuous and the crossfeed result is passed on
//! as computed.

use vstd::prelude::*;
use crate::fixed::{SCALE, HALF_SCALE, SAT, fx_add, fx_mul, fx_in_range, add_sat, mul_sat};
use crate::delay_buffer::DbView;
use crate::all_pass_filter::{AllPass, AllPassView, ap_wf, allpass_out, allpass_next};
use crate::comb_filter::{Comb, CombView, comb_wf, comb_out, comb_next, comb_init};
use crate::lfo::{Lfo, LfoView, lfo_wf, lfo_step, lfo_out, Shape};
use crate::bitcrusher::{BitCrusher, BitCrusherView, bc_wf, crush_next, DEFAULT_BIT_RATE, BIT_RATE_MAX};

verus! {

/// Stereo spread added to every tuning length on the right channel.
pub const OFFSET: usize = 34;

pub const COMB_TUN_1: usize = 1116;

pub const COMB_TUN_2: usize = 1188;

pub const COMB_TUN_3: usize = 1205;

pub const COMB_TUN_4: usize = 1221;

pub const COMB_TUN_5: usize = 1238;

pub const COMB_TUN_6: usize = 1255;

pub const COMB_TUN_7: usize = 1273;

pub const COMB_TUN_8: usize = 1290;

pub const AP_TUN_1: usize = 225;

pub const AP_TUN_2: usize = 331;

pub const AP_TUN_3: usize = 431;

pub const AP_TUN_4: usize = 547;

/// The input attenuation 0.015, in fixed point.
pub const GAIN_IN: i64 = 251658;

/// The oscillator speed the engine pins on every call: 44100 Hz, in fixed
/// point.
pub const LFO_SPEED: i64 = 739875225600;

/// The oscillator amplitude the engine pins on every call: 20 delay
/// percentage points, in fixed point.
pub const LFO_AMP: i64 = 335544320;

/// The silence threshold 0.0002, in fixed point.
pub const SILENCE_FX: i64 = 3355;

/// The per-sample silence-counter increment 0.001, in fixed point. It is a
/// fixed amount per sample, not scaled by the sample rate, so the wall-clock
/// fade-out duration depends on the sample rate — kept as designed.
pub const FADE_INC: i64 = 16777;

/// The counter value at which the fade-out factor reaches zero: 500, in
/// fixed point.
pub const FADE_FLOOR: i64 = 8388608000;

/// The wet level a fresh engine starts with: 0.8, in fixed point.
pub const DEFAULT_WET: i64 = 13421772;

/// The dry level a fresh engine starts with: 0.2, in fixed point.
pub const DEFAULT_DRY: i64 = 3355443;

/// The decay a fresh engine starts with: 0.67, in fixed point.
pub const DEFAULT_DECAY: i64 = 11240734;

/// The decay remapping slope 0.27, in fixed point.
pub const DECAY_MUL: i64 = 4529848;

/// The decay remapping offset 0.7, in fixed point.
pub const DECAY_OFF: i64 = 11744051;

/// The damping remapping slope 0.4, in fixed point.
pub const DAMP_MUL: i64 = 6710886;

/// The block position the bit-crusher consumes.
pub struct BufferData {
    buffer_idx: usize,
    buffer_size: usize,
}

impl BufferData {
    /// The position inside the current block.
    pub closed spec fn idx(&self) -> int {
        self.buffer_idx as int
    }

    /// The size of the current block.
    pub closed spec fn len(&self) -> int {
        self.buffer_size as int
    }

    /// Creates a block position at the start of an empty block.
    pub fn new() -> (r: BufferData)
        ensures
            r.idx() == 0,
            r.len() == 0,
    {
        BufferData { buffer_idx: 0, buffer_size: 0 }
    }
}

/// Scales a tuning length to the engine's sample rate.
pub fn calc_len(length: usize, sample_rate: usize) -> (r: usize)
    requires
        length * sample_rate <= usize::MAX,
    ensures
        r == length * sample_rate / 44100,
{
    length * sample_rate / 44100
}

#[verifier::ext_equal]
pub ghost struct ReverbView {
    pub combs: Seq<(CombView, CombView)>,
    pub allpasses: Seq<(AllPassView, AllPassView)>,
    pub wet_gains: (int, int),
    pub wet: int,
    pub width: int,
    pub dry: int,
    pub input_gain: int,
    pub damp: int,
    pub decay: int,
    pub size: int,
    pub lfo: LfoView,
    pub freeze: bool,
    pub bitcrusher: BitCrusherView,
    pub buffer_idx: int,
    pub buffer_size: int,
    pub counter: int,
    pub fadeout_factor: int,
}

pub open spec fn comb_views(s: Seq<(Comb, Comb)>) -> Seq<(CombView, CombView)> {
    s.map_values(|p: (Comb, Comb)| (p.0@, p.1@))
}

pub open spec fn ap_views(s: Seq<(AllPass, AllPass)>) -> Seq<(AllPassView, AllPassView)> {
    s.map_values(|p: (AllPass, AllPass)| (p.0@, p.1@))
}

pub open spec fn combs_ok(cs: Seq<(CombView, CombView)>) -> bool {
    forall|j: int| 0 <= j < cs.len() ==> {
        &&& comb_wf(#[trigger] cs[j].0)
        &&& comb_wf(cs[j].1)
        &&& 101 <= cs[j].0.buffer_len
        &&& 101 <= cs[j].1.buffer_len
    }
}

pub open spec fn aps_ok(aps: Seq<(AllPassView, AllPassView)>) -> bool {
    forall|j: int| 0 <= j < aps.len() ==> ap_wf(#[trigger] aps[j].0) && ap_wf(aps[j].1)
}

pub open spec fn reverb_wf(v: ReverbView) -> bool {
    &&& v.combs.len() == 8
    &&& combs_ok(v.combs)
    &&& v.allpasses.len() == 4
    &&& aps_ok(v.allpasses)
    &&& lfo_wf(v.lfo)
    &&& bc_wf(v.bitcrusher)
    &&& 0 <= v.wet <= SCALE
    &&& 0 <= v.width <= SCALE
    &&& 0 <= v.dry <= SCALE
    &&& 0 <= v.input_gain <= SCALE
    &&& 0 <= v.damp <= SCALE
    &&& 0 <= v.decay <= SCALE
    &&& fx_in_range(v.wet_gains.0)
    &&& fx_in_range(v.wet_gains.1)
    &&& 0 <= v.counter <= SAT
    &&& 0 <= v.fadeout_factor <= SCALE
    &&& 0 <= v.size
    &&& 0 <= v.buffer_idx
    &&& 0 <= v.buffer_size
}

/// The stored size leaves room for the oscillator's 20-point modulation
/// depth, so every modulated delay lands in the valid percentage band.
pub open spec fn size_modulable(v: ReverbView) -> bool {
    20 < v.size && v.size + 20 <= 100
}

/// The modulated delay percentage for one comb pair: the size plus the
/// oscillator value, capped at one below the line capacity, floored to
/// whole points, never negative.
pub open spec fn comb_delay(size: int, lout: int, blen: int) -> int {
    let m = size * (SCALE as int) + lout;
    let cap = (blen - 1) * (SCALE as int);
    let m2 = if m > cap {
        cap
    } else {
        m
    };
    if m2 <= 0 {
        0
    } else {
        m2 / (SCALE as int)
    }
}

/// One comb pair's step: the oscillator advances once, the modulated delay
/// is applied to both channels, and each channel filter absorbs its input.
pub open spec fn comb_pair_step(
    pair: (CombView, CombView),
    lfo: LfoView,
    size: int,
    x0: int,
    x1: int,
) -> ((CombView, CombView), LfoView, int, int) {
    let lout = lfo_out(lfo);
    let lfo2 = lfo_step(lfo);
    let d = comb_delay(size, lout, pair.0.buffer_len);
    let c0 = CombView { delay: d, ..pair.0 };
    let c1 = CombView { delay: d, ..pair.1 };
    ((comb_next(c0, x0), comb_next(c1, x1)), lfo2, comb_out(c0), comb_out(c1))
}

/// The parallel comb stage from pair `i` on, accumulating both channels.
pub open spec fn combs_stage(
    combs: Seq<(CombView, CombView)>,
    lfo: LfoView,
    size: int,
    x0: int,
    x1: int,
    i: int,
    acc0: int,
    acc1: int,
) -> (Seq<(CombView, CombView)>, LfoView, int, int)
    decreases combs.len() - i,
{
    if i < 0 || i >= combs.len() {
        (combs, lfo, acc0, acc1)
    } else {
        let (pair2, lfo2, o0, o1) = comb_pair_step(combs[i], lfo, size, x0, x1);
        combs_stage(
            combs.update(i, pair2),
            lfo2,
            size,
            x0,
            x1,
            i + 1,
            fx_add(acc0, o0),
            fx_add(acc1, o1),
        )
    }
}

/// The serial allpass stage from pair `i` on, each call at feedback one
/// half.
pub open spec fn allpass_stage(
    aps: Seq<(AllPassView, AllPassView)>,
    a0: int,
    a1: int,
    i: int,
) -> (Seq<(AllPassView, AllPassView)>, int, int)
    decreases aps.len() - i,
{
    if i < 0 || i >= aps.len() {
        (aps, a0, a1)
    } else {
        let o0 = allpass_out(aps[i].0, a0);
        let o1 = allpass_out(aps[i].1, a1);
        let p = (allpass_next(aps[i].0, a0, HALF_SCALE as int), allpass_next(
            aps[i].1,
            a1,
            HALF_SCALE as int,
        ));
        allpass_stage(aps.update(i, p), o0, o1, i + 1)
    }
}

/// An input quiet enough to count toward the fade-out.
pub open spec fn silent(x: int) -> bool {
    -SILENCE_FX < x < SILENCE_FX
}

/// The fade-out factor a counter value selects: full scale shrinking
/// linearly to zero, never negative.
pub open spec fn fade_of(counter: int) -> int {
    let f = SCALE - counter / 500;
    if f < 0 {
        0
    } else {
        f
    }
}

/// The wet gain pair a wet level and width select: the direct gain and the
/// crossfeed gain of the mid/side-style width control.
pub open spec fn wet_gains_of(wet: int, width: int) -> (int, int) {
    (fx_mul(wet, fx_add(width / 2, HALF_SCALE as int)), fx_mul(wet, (SCALE - width) / 2))
}

/// The whole engine, one sample: attenuate and sum the inputs, run the comb
/// stage under delay modulation, cascade the allpass stage, crush both
/// channels, advance the silence fade-out, apply crossfeed and fade, and
/// add the scaled dry signal.
pub open spec fn reverb_step(v: ReverbView, in0: int, in1: int) -> (ReverbView, int, int) {
    let in_sum = fx_mul(fx_mul(fx_add(in0, in1), GAIN_IN as int), v.input_gain);
    let x0 = fx_add(fx_mul(in0, GAIN_IN as int), in_sum);
    let x1 = fx_add(fx_mul(in1, GAIN_IN as int), in_sum);
    let lfo0 = LfoView { amp: LFO_AMP as int, speed: LFO_SPEED as int, ..v.lfo };
    let (combs2, lfo2, c0, c1) = combs_stage(v.combs, lfo0, v.size, x0, x1, 0, 0, 0);
    let (aps2, a0, a1) = allpass_stage(v.allpasses, c0, c1, 0);
    let (bc1, b0) = crush_next(v.bitcrusher, a0, v.buffer_idx, v.buffer_size);
    let (bc2, b1) = crush_next(bc1, a1, v.buffer_idx, v.buffer_size);
    let counter2 = if silent(in0) && silent(in1) {
        fx_add(v.counter, FADE_INC as int)
    } else {
        0
    };
    let fade = fade_of(counter2);
    let rev0 = fx_mul(fx_add(fx_mul(b0, v.wet_gains.0), fx_mul(b1, v.wet_gains.1)), fade);
    let rev1 = fx_mul(fx_add(fx_mul(b1, v.wet_gains.0), fx_mul(b0, v.wet_gains.1)), fade);
    (
        ReverbView {
            combs: combs2,
            allpasses: aps2,
            lfo: lfo2,
            bitcrusher: bc2,
            counter: counter2,
            fadeout_factor: fade,
            ..v
        },
        fx_add(rev0, fx_mul(in0, v.dry)),
        fx_add(rev1, fx_mul(in1, v.dry)),
    )
}

pub struct Reverb {
    combs: Vec<(Comb, Comb)>,
    allpasses: Vec<(AllPass, AllPass)>,
    wet_gains: (i64, i64),
    wet: i64,
    width: i64,
    dry: i64,
    input_gain: i64,
    damp: i64,
    decay: i64,
    size: usize,
    lfo: Lfo,
    freeze: bool,
    bitcrusher: BitCrusher,
    buffer_data: BufferData,
    counter: i64,
    fadeout_factor: i64,
}

impl View for Reverb {
    type V = ReverbView;

    closed spec fn view(&self) -> ReverbView {
        ReverbView {
            combs: comb_views(self.combs@),
            allpasses: ap_views(self.allpasses@),
            wet_gains: (self.wet_gains.0 as int, self.wet_gains.1 as int),
            wet: self.wet as int,
            width: self.width as int,
            dry: self.dry as int,
            input_gain: self.input_gain as int,
            damp: self.damp as int,
            decay: self.decay as int,
            size: self.size as int,
            lfo: self.lfo@,
            freeze: self.freeze,
            bitcrusher: self.bitcrusher@,
            buffer_idx: self.buffer_data.idx(),
            buffer_size: self.buffer_data.len(),
            counter: self.counter as int,
            fadeout_factor: self.fadeout_factor as int,
        }
    }
}

proof fn lemma_comb_views_update(s: Seq<(Comb, Comb)>, i: int, v: (Comb, Comb))
    requires
        0 <= i < s.len(),
    ensures
        comb_views(s.update(i, v)) == comb_views(s).update(i, (v.0@, v.1@)),
{
    assert(comb_views(s.update(i, v)) =~= comb_views(s).update(i, (v.0@, v.1@)));
}

proof fn lemma_ap_views_update(s: Seq<(AllPass, AllPass)>, i: int, v: (AllPass, AllPass))
    requires
        0 <= i < s.len(),
    ensures
        ap_views(s.update(i, v)) == ap_views(s).update(i, (v.0@, v.1@)),
{
    assert(ap_views(s.update(i, v)) =~= ap_views(s).update(i, (v.0@, v.1@)));
}

/// Halves a nonnegative value.
fn half_nonneg(v: i64) -> (r: i64)
    requires
        0 <= v,
    ensures
        r as int == (v as int) / 2,
{
    ((v as u64) / 2) as i64
}

/// The feedback the engine currently pushes to its combs.
pub open spec fn effective_feedback(v: ReverbView) -> int {
    if v.freeze {
        SCALE as int
    } else {
        v.decay
    }
}

/// The damping the engine currently pushes to its combs.
pub open spec fn effective_damp(v: ReverbView) -> int {
    if v.freeze {
        0
    } else {
        v.damp
    }
}

/// A comb view with freshly pushed feedback and damping.
pub open spec fn comb_retuned(c: CombView, fb: int, dp: int) -> CombView {
    CombView { feedback: fb, damp: dp, damp_inv: SCALE - dp, ..c }
}

/// All comb pairs with freshly pushed feedback and damping.
pub open spec fn combs_retuned(cs: Seq<(CombView, CombView)>, fb: int, dp: int) -> Seq<
    (CombView, CombView),
> {
    cs.map_values(|p: (CombView, CombView)| (comb_retuned(p.0, fb, dp), comb_retuned(p.1, fb, dp)))
}

/// The base tuning length of comb pair `i`.
pub open spec fn comb_tuning(i: int) -> int {
    if i == 0 {
        1116
    } else if i == 1 {
        1188
    } else if i == 2 {
        1205
    } else if i == 3 {
        1221
    } else if i == 4 {
        1238
    } else if i == 5 {
        1255
    } else if i == 6 {
        1273
    } else {
        1290
    }
}

/// The base tuning length of allpass pair `i`.
pub open spec fn ap_tuning(i: int) -> int {
    if i == 0 {
        225
    } else if i == 1 {
        331
    } else if i == 2 {
        431
    } else {
        547
    }
}

/// A tuning length scaled to the engine's sample rate.
pub open spec fn scaled_len(base: int, sr: int) -> int {
    base * sr / 44100
}

/// A silent allpass section of the given length.
pub open spec fn ap_init(len: int) -> AllPassView {
    AllPassView { buf: DbView { samples: Seq::new(len as nat, |i: int| 0), pos: 0 } }
}

/// A fresh engine: all delay lines silent and scaled to the sample rate,
/// the parameters at their starting levels, the wet gains and the combs'
/// feedback and damping already derived from them.
pub open spec fn reverb_init(sr: int) -> ReverbView {
    let base = ReverbView {
        combs: Seq::new(
            8,
            |i: int|
                (
                    comb_init(scaled_len(comb_tuning(i), sr)),
                    comb_init(scaled_len(comb_tuning(i) + 34, sr)),
                ),
        ),
        allpasses: Seq::new(
            4,
            |i: int| (ap_init(scaled_len(ap_tuning(i), sr)), ap_init(
                scaled_len(ap_tuning(i) + 34, sr),
            )),
        ),
        wet_gains: (0, 0),
        wet: DEFAULT_WET as int,
        width: SCALE as int,
        dry: DEFAULT_DRY as int,
        input_gain: SCALE as int,
        damp: HALF_SCALE as int,
        decay: DEFAULT_DECAY as int,
        size: COMB_TUN_1 as int + OFFSET as int,
        lfo: LfoView {
            sample_rate: sr,
            shape: Shape::Sine,
            amp: crate::lfo::DEFAULT_AMP as int,
            speed: crate::lfo::DEFAULT_SPEED as int,
            phase: 0,
        },
        freeze: false,
        bitcrusher: BitCrusherView {
            bit_rate: DEFAULT_BIT_RATE as int,
            sample_rate: SCALE as int,
            prev_sample: 0,
            noise_level: 0,
        },
        buffer_idx: 0,
        buffer_size: 0,
        counter: 0,
        fadeout_factor: 0,
    };
    let mid = ReverbView { wet_gains: wet_gains_of(base.wet, base.width), ..base };
    ReverbView {
        combs: combs_retuned(mid.combs, effective_feedback(mid), effective_damp(mid)),
        ..mid
    }
}

impl Reverb {
    pub open spec fn wf(&self) -> bool {
        reverb_wf(self@)
    }

    /// Scales a tuning length to the sample rate, carrying the bounds every
    /// delay line needs.
    fn scaled(base: usize, sample_rate: usize) -> (r: usize)
        requires
            225 <= base <= 1324,
            8000 <= sample_rate <= 1000000,
        ensures
            r == scaled_len(base as int, sample_rate as int),
            base * 8000 / 44100 <= r <= 30022,
    {
        proof {
            let b = base as int;
            let sr = sample_rate as int;
            assert(b * 8000 <= b * sr <= 1324000000) by (nonlinear_arith)
                requires
                    225 <= b <= 1324,
                    8000 <= sr <= 1000000,
            ;
            vstd::arithmetic::div_mod::lemma_div_is_ordered(b * 8000, b * sr, 44100);
            vstd::arithmetic::div_mod::lemma_div_is_ordered(b * sr, 1324000000, 44100);
            vstd::arithmetic::div_mod::lemma_div_pos_is_pos(b * 8000, 44100);
        }
        calc_len(base, sample_rate)
    }

    /// Builds an engine for the given sample rate. Every delay-line
    /// capacity is fixed here; running at another sample rate means
    /// building a new engine. The starting size sits outside the modulable
    /// band, so a caller sets `size` before the first `process` call, as a
    /// host applying its parameter values does.
    pub fn new(sample_rate: usize) -> (r: Reverb)
        requires
            8000 <= sample_rate <= 1000000,
        ensures
            r.wf(),
            r@ == reverb_init(sample_rate as int),
    {
        let mut combs: Vec<(Comb, Comb)> = Vec::new();
        combs.push(
            (
                Comb::new(Self::scaled(COMB_TUN_1, sample_rate)),
                Comb::new(Self::scaled(COMB_TUN_1 + OFFSET, sample_rate)),
            ),
        );
        combs.push(
            (
                Comb::new(Self::scaled(COMB_TUN_2, sample_rate)),
                Comb::new(Self::scaled(COMB_TUN_2 + OFFSET, sample_rate)),
            ),
        );
        combs.push(
            (
                Comb::new(Self::scaled(COMB_TUN_3, sample_rate)),
                Comb::new(Self::scaled(COMB_TUN_3 + OFFSET, sample_rate)),
            ),
        );
        combs.push(
            (
                Comb::new(Self::scaled(COMB_TUN_4, sample_rate)),
                Comb::new(Self::scaled(COMB_TUN_4 + OFFSET, sample_rate)),
            ),
        );
        combs.push(
            (
                Comb::new(Self::scaled(COMB_TUN_5, sample_rate)),
                Comb::new(Self::scaled(COMB_TUN_5 + OFFSET, sample_rate)),
            ),
        );
        combs.push(
            (
                Comb::new(Self::scaled(COMB_TUN_6, sample_rate)),
                Comb::new(Self::scaled(COMB_TUN_6 + OFFSET, sample_rate)),
            ),
        );
        combs.push(
            (
                Comb::new(Self::scaled(COMB_TUN_7, sample_rate)),
                Comb::new(Self::scaled(COMB_TUN_7 + OFFSET, sample_rate)),
            ),
        );
        combs.push(
            (
                Comb::new(Self::scaled(COMB_TUN_8, sample_rate)),
                Comb::new(Self::scaled(COMB_TUN_8 + OFFSET, sample_rate)),
            ),
        );
        let mut allpasses: Vec<(AllPass, AllPass)> = Vec::new();
        allpasses.push(
            (
                AllPass::new(Self::scaled(AP_TUN_1, sample_rate)),
                AllPass::new(Self::scaled(AP_TUN_1 + OFFSET, sample_rate)),
            ),
        );
        allpasses.push(
            (
                AllPass::new(Self::scaled(AP_TUN_2, sample_rate)),
                AllPass::new(Self::scaled(AP_TUN_2 + OFFSET, sample_rate)),
            ),
        );
        allpasses.push(
            (
                AllPass::new(Self::scaled(AP_TUN_3, sample_rate)),
                AllPass::new(Self::scaled(AP_TUN_3 + OFFSET, sample_rate)),
            ),
        );
        allpasses.push(
            (
                AllPass::new(Self::scaled(AP_TUN_4, sample_rate)),
                AllPass::new(Self::scaled(AP_TUN_4 + OFFSET, sample_rate)),
            ),
        );
        let mut reverb = Reverb {
            combs,
            allpasses,
            wet_gains: (0, 0),
            wet: DEFAULT_WET,
            width: SCALE,
            dry: DEFAULT_DRY,
            input_gain: SCALE,
            damp: HALF_SCALE,
            decay: DEFAULT_DECAY,
            size: COMB_TUN_1 + OFFSET,
            lfo: Lfo::new(sample_rate),
            freeze: false,
            bitcrusher: BitCrusher::new(),
            buffer_data: BufferData::new(),
            counter: 0,
            fadeout_factor: 0,
        };
        proof {
            let sri = sample_rate as int;
            let base = reverb_init(sri);
            assert(reverb@.combs =~~= Seq::new(
                8,
                |i: int|
                    (
                        comb_init(scaled_len(comb_tuning(i), sri)),
                        comb_init(scaled_len(comb_tuning(i) + 34, sri)),
                    ),
            ));
            assert(reverb@.allpasses =~~= Seq::new(
                4,
                |i: int| (ap_init(scaled_len(ap_tuning(i), sri)), ap_init(
                    scaled_len(ap_tuning(i) + 34, sri),
                )),
            ));
            assert(reverb.wf());
        }
        reverb.update_wet_gains();
        reverb.update();
        proof {
            assert(reverb@ =~= reverb_init(sample_rate as int));
        }
        reverb
    }

    /// One sample through the whole engine: the call equals [`reverb_step`]
    /// on the engine's model, and both outputs stay on the saturation rail,
    /// so the pipeline can never diverge.
    #[verifier::loop_isolation(false)]
    pub fn process(&mut self, input: (i64, i64)) -> (out: (i64, i64))
        requires
            old(self).wf(),
            size_modulable(old(self)@),
            fx_in_range(input.0 as int),
            fx_in_range(input.1 as int),
        ensures
            final(self).wf(),
            size_modulable(final(self)@),
            final(self)@ == reverb_step(old(self)@, input.0 as int, input.1 as int).0,
            out.0 as int == reverb_step(old(self)@, input.0 as int, input.1 as int).1,
            out.1 as int == reverb_step(old(self)@, input.0 as int, input.1 as int).2,
            fx_in_range(out.0 as int),
            fx_in_range(out.1 as int),
    {
        let in_sum = mul_sat(mul_sat(add_sat(input.0, input.1), GAIN_IN), self.input_gain);
        let x0 = add_sat(mul_sat(input.0, GAIN_IN), in_sum);
        let x1 = add_sat(mul_sat(input.1, GAIN_IN), in_sum);
        self.lfo.set_speed(LFO_SPEED);
        self.lfo.set_amp(LFO_AMP);
        let ghost lfo0 = self.lfo@;
        let ghost combs0 = self@.combs;
        let ghost sizev = old(self)@.size;

        let mut acc0: i64 = 0;
        let mut acc1: i64 = 0;
        let mut i: usize = 0;
        while i < 8
            invariant
                0 <= i <= 8,
                self.combs@.len() == 8,
                combs_ok(self@.combs),
                self.lfo.wf(),
                self.lfo@.amp == LFO_AMP as int,
                fx_in_range(acc0 as int),
                fx_in_range(acc1 as int),
                self@ == (ReverbView { combs: self@.combs, lfo: self.lfo@, ..old(self)@ }),
                combs_stage(combs0, lfo0, sizev, x0 as int, x1 as int, 0, 0, 0) == combs_stage(
                    self@.combs,
                    self.lfo@,
                    sizev,
                    x0 as int,
                    x1 as int,
                    i as int,
                    acc0 as int,
                    acc1 as int,
                ),
            decreases 8 - i,
        {
            let ghost lfo_pre = self.lfo@;
            let ghost combs_pre = self@.combs;
            proof {
                assert(comb_wf(self@.combs[i as int].0));
                assert(comb_wf(self@.combs[i as int].1));
            }
            let blen = self.combs[i].0.buffer_len();
            let lout = self.lfo.output();
            let m: i64 = (self.size as i64) * SCALE + lout;
            let cap: i64 = ((blen - 1) as i64) * SCALE;
            let m2: i64 = if m > cap {
                cap
            } else {
                m
            };
            let d: usize = if m2 <= 0 {
                0
            } else {
                ((m2 as u64) / (SCALE as u64)) as usize
            };
            proof {
                assert(d == comb_delay(sizev, lout as int, blen as int));
                assert(SCALE <= m2 <= 100 * (SCALE as int));
                assert(1 <= d <= 100) by {
                    vstd::arithmetic::div_mod::lemma_div_is_ordered(
                        SCALE as int,
                        m2 as int,
                        SCALE as int,
                    );
                    vstd::arithmetic::div_mod::lemma_div_is_ordered(
                        m2 as int,
                        100 * (SCALE as int),
                        SCALE as int,
                    );
                    vstd::arithmetic::div_mod::lemma_div_multiples_vanish(1, SCALE as int);
                    vstd::arithmetic::div_mod::lemma_div_multiples_vanish(100, SCALE as int);
                }
                assert(100 <= (blen as int) * (d as int) && 100 <= (self@.combs[i as int].1.buffer_len)
                    * (d as int)) by (nonlinear_arith)
                    requires
                        1 <= d,
                        101 <= blen as int,
                        101 <= self@.combs[i as int].1.buffer_len,
                ;
            }
            let ghost before = self.combs@;
            let mut pair = self.combs.remove(i);
            proof {
                assert(comb_views(before)[i as int] == (pair.0@, pair.1@));
            }
            pair.0.set_delay(d);
            pair.1.set_delay(d);
            let o0 = pair.0.process(x0);
            let o1 = pair.1.process(x1);
            self.combs.insert(i, pair);
            proof {
                assert(self.combs@ =~= before.update(i as int, self.combs@[i as int]));
                lemma_comb_views_update(before, i as int, self.combs@[i as int]);
                assert(self@.combs == combs_pre.update(
                    i as int,
                    (
                        comb_next(CombView { delay: d as int, ..combs_pre[i as int].0 }, x0 as int),
                        comb_next(CombView { delay: d as int, ..combs_pre[i as int].1 }, x1 as int),
                    ),
                ));
                assert(comb_pair_step(combs_pre[i as int], lfo_pre, sizev, x0 as int, x1 as int)
                    == (
                    (self@.combs[i as int].0, self@.combs[i as int].1),
                    self.lfo@,
                    o0 as int,
                    o1 as int,
                ));
            }
            let a0 = add_sat(acc0, o0);
            let a1 = add_sat(acc1, o1);
            proof {
                assert(combs_stage(
                    combs_pre,
                    lfo_pre,
                    sizev,
                    x0 as int,
                    x1 as int,
                    i as int,
                    acc0 as int,
                    acc1 as int,
                ) == combs_stage(
                    self@.combs,
                    self.lfo@,
                    sizev,
                    x0 as int,
                    x1 as int,
                    i as int + 1,
                    a0 as int,
                    a1 as int,
                ));
                assert(self@ =~= (ReverbView {
                    combs: self@.combs,
                    lfo: self.lfo@,
                    ..old(self)@
                }));
                assert forall|j: int| 0 <= j < 8 implies {
                    &&& comb_wf(#[trigger] self@.combs[j].0)
                    &&& comb_wf(self@.combs[j].1)
                    &&& 101 <= self@.combs[j].0.buffer_len
                    &&& 101 <= self@.combs[j].1.buffer_len
                } by {
                    if j != i {
                        assert(self@.combs[j] == comb_views(before)[j]);
                    }
                }
            }
            acc0 = a0;
            acc1 = a1;
            i = i + 1;
        }
        proof {
            assert(combs_stage(combs0, lfo0, sizev, x0 as int, x1 as int, 0, 0, 0) == (
                self@.combs,
                self.lfo@,
                acc0 as int,
                acc1 as int,
            ));
        }
        let ghost combs2 = self@.combs;
        let ghost lfo2 = self.lfo@;

        let ghost aps0 = self@.allpasses;
        let mut i: usize = 0;
        while i < 4
            invariant
                0 <= i <= 4,
                self.allpasses@.len() == 4,
                aps_ok(self@.allpasses),
                fx_in_range(acc0 as int),
                fx_in_range(acc1 as int),
                self@ == (ReverbView {
                    combs: combs2,
                    lfo: lfo2,
                    allpasses: self@.allpasses,
                    ..old(self)@
                }),
                allpass_stage(aps0, combs_stage(combs0, lfo0, sizev, x0 as int, x1 as int, 0, 0, 0).2,
                    combs_stage(combs0, lfo0, sizev, x0 as int, x1 as int, 0, 0, 0).3, 0)
                    == allpass_stage(self@.allpasses, acc0 as int, acc1 as int, i as int),
            decreases 4 - i,
        {
            let ghost aps_pre = self@.allpasses;
            proof {
                assert(ap_wf(self@.allpasses[i as int].0));
                assert(ap_wf(self@.allpasses[i as int].1));
            }
            let ghost before = self.allpasses@;
            let mut pair = self.allpasses.remove(i);
            proof {
                assert(ap_views(before)[i as int] == (pair.0@, pair.1@));
            }
            let o0 = pair.0.process(acc0, HALF_SCALE);
            let o1 = pair.1.process(acc1, HALF_SCALE);
            self.allpasses.insert(i, pair);
            proof {
                assert(self.allpasses@ =~= before.update(i as int, self.allpasses@[i as int]));
                lemma_ap_views_update(before, i as int, self.allpasses@[i as int]);
                assert(allpass_stage(aps_pre, acc0 as int, acc1 as int, i as int)
                    == allpass_stage(self@.allpasses, o0 as int, o1 as int, i as int + 1));
                assert(self@ =~= (ReverbView {
                    combs: combs2,
                    lfo: lfo2,
                    allpasses: self@.allpasses,
                    ..old(self)@
                }));
                assert forall|j: int| 0 <= j < 4 implies ap_wf(#[trigger] self@.allpasses[j].0)
                    && ap_wf(self@.allpasses[j].1) by {
                    if j != i {
                        assert(self@.allpasses[j] == ap_views(before)[j]);
                    }
                }
            }
            acc0 = o0;
            acc1 = o1;
            i = i + 1;
        }
        let b0 = self.bitcrusher.process(
            acc0,
            self.buffer_data.buffer_idx,
            self.buffer_data.buffer_size,
        );
        let b1 = self.bitcrusher.process(
            acc1,
            self.buffer_data.buffer_idx,
            self.buffer_data.buffer_size,
        );
        self.counter = if input.0 < SILENCE_FX && input.0 > -SILENCE_FX && input.1 < SILENCE_FX
            && input.1 > -SILENCE_FX {
            add_sat(self.counter, FADE_INC)
        } else {
            0
        };
        let cdiv = ((self.counter as u64) / 500) as i64;
        proof {
            vstd::arithmetic::div_mod::lemma_div_pos_is_pos(self.counter as int, 500);
        }
        let f = SCALE - cdiv;
        self.fadeout_factor = if f < 0 {
            0
        } else {
            f
        };
        let rev0 = mul_sat(
            add_sat(mul_sat(b0, self.wet_gains.0), mul_sat(b1, self.wet_gains.1)),
            self.fadeout_factor,
        );
        let rev1 = mul_sat(
            add_sat(mul_sat(b1, self.wet_gains.0), mul_sat(b0, self.wet_gains.1)),
            self.fadeout_factor,
        );
        let out = (add_sat(rev0, mul_sat(input.0, self.dry)), add_sat(
            rev1,
            mul_sat(input.1, self.dry),
        ));
        proof {
            assert(self@ =~= reverb_step(old(self)@, input.0 as int, input.1 as int).0);
        }
        out
    }

    /// Pushes the current effective feedback and damping to all comb pairs.
    #[verifier::loop_isolation(false)]
    fn update(&mut self)
        requires
            old(self).wf(),
        ensures
            final(self).wf(),
            final(self)@ == (ReverbView {
                combs: combs_retuned(
                    old(self)@.combs,
                    effective_feedback(old(self)@),
                    effective_damp(old(self)@),
                ),
                ..old(self)@
            }),
    {
        let feedback: i64 = if self.freeze {
            SCALE
        } else {
            self.decay
        };
        let damp: i64 = if self.freeze {
            0
        } else {
            self.damp
        };
        let ghost target = combs_retuned(
            old(self)@.combs,
            effective_feedback(old(self)@),
            effective_damp(old(self)@),
        );
        let mut i: usize = 0;
        while i < 8
            invariant
                0 <= i <= 8,
                self.combs@.len() == 8,
                self@ == (ReverbView { combs: self@.combs, ..old(self)@ }),
                forall|j: int| 0 <= j < i ==> #[trigger] self@.combs[j] == target[j],
                forall|j: int| i <= j < 8 ==> #[trigger] self@.combs[j] == old(self)@.combs[j],
                combs_ok(self@.combs),
            decreases 8 - i,
        {
            let ghost before = self.combs@;
            let mut pair = self.combs.remove(i);
            proof {
                assert(comb_wf(comb_views(before)[i as int].0));
                assert(comb_wf(comb_views(before)[i as int].1));
                assert(comb_views(before)[i as int] == (pair.0@, pair.1@));
            }
            pair.0.set_feedback(feedback);
            pair.0.set_damp(damp);
            pair.1.set_feedback(feedback);
            pair.1.set_damp(damp);
            self.combs.insert(i, pair);
            proof {
                assert(self.combs@ =~= before.update(i as int, self.combs@[i as int]));
                lemma_comb_views_update(before, i as int, self.combs@[i as int]);
                assert(self@ =~= (ReverbView { combs: self@.combs, ..old(self)@ }));
                assert forall|j: int| 0 <= j < 8 implies {
                    &&& comb_wf(#[trigger] self@.combs[j].0)
                    &&& comb_wf(self@.combs[j].1)
                    &&& 101 <= self@.combs[j].0.buffer_len
                    &&& 101 <= self@.combs[j].1.buffer_len
                } by {
                    if j != i {
                        assert(self@.combs[j] == comb_views(before)[j]);
                    }
                }
            }
            i = i + 1;
        }
        proof {
            assert(self@.combs =~= target);
            assert(self@ =~= (ReverbView { combs: target, ..old(self)@ }));
        }
    }

    /// Sets the dry signal level.
    pub fn dry(&mut self, dry: i64)
        requires
            old(self).wf(),
            0 <= dry <= SCALE,
        ensures
            final(self).wf(),
            final(self)@ == (ReverbView { dry: dry as int, ..old(self)@ }),
    {
        self.dry = dry;
        proof {
            assert(final(self)@ =~= (ReverbView { dry: dry as int, ..old(self)@ }));
        }
    }

    /// Sets the wet signal level and recomputes the wet gain pair.
    pub fn wet(&mut self, wet: i64)
        requires
            old(self).wf(),
            0 <= wet <= SCALE,
        ensures
            final(self).wf(),
            final(self)@ == (ReverbView {
                wet: wet as int,
                wet_gains: wet_gains_of(wet as int, old(self)@.width),
                ..old(self)@
            }),
    {
        self.wet = wet;
        proof {
            assert(self@ =~= (ReverbView { wet: wet as int, ..old(self)@ }));
        }
        self.update_wet_gains();
    }

    /// Sets the stereo width and recomputes the wet gain pair.
    pub fn width(&mut self, width: i64)
        requires
            old(self).wf(),
            0 <= width <= SCALE,
        ensures
            final(self).wf(),
            final(self)@ == (ReverbView {
                width: width as int,
                wet_gains: wet_gains_of(old(self)@.wet, width as int),
                ..old(self)@
            }),
    {
        self.width = width;
        proof {
            assert(self@ =~= (ReverbView { width: width as int, ..old(self)@ }));
        }
        self.update_wet_gains();
    }

    /// Sets the damping: the control value is remapped by the slope 0.4 and
    /// pushed to all combs.
    pub fn damp(&mut self, damp: i64)
        requires
            old(self).wf(),
            0 <= damp <= SCALE,
        ensures
            final(self).wf(),
            final(self)@ == ({
                let mid = ReverbView { damp: fx_mul(damp as int, DAMP_MUL as int), ..old(self)@ };
                ReverbView {
                    combs: combs_retuned(mid.combs, effective_feedback(mid), effective_damp(mid)),
                    ..mid
                }
            }),
    {
        proof {
            crate::fixed::lemma_fx_mul_unit(damp as int, DAMP_MUL as int);
        }
        self.damp = mul_sat(damp, DAMP_MUL);
        proof {
            assert(self@ =~= (ReverbView {
                damp: fx_mul(damp as int, DAMP_MUL as int),
                ..old(self)@
            }));
        }
        self.update();
    }

    /// Sets the decay: the control value is remapped onto the band from 0.7
    /// to 0.97 and pushed to all combs as their feedback.
    pub fn decay(&mut self, decay: i64)
        requires
            old(self).wf(),
            0 <= decay <= SCALE,
        ensures
            final(self).wf(),
            final(self)@ == ({
                let mid = ReverbView {
                    decay: fx_add(fx_mul(decay as int, DECAY_MUL as int), DECAY_OFF as int),
                    ..old(self)@
                };
                ReverbView {
                    combs: combs_retuned(mid.combs, effective_feedback(mid), effective_damp(mid)),
                    ..mid
                }
            }),
    {
        proof {
            crate::fixed::lemma_fx_mul_unit(decay as int, DECAY_MUL as int);
        }
        self.decay = add_sat(mul_sat(decay, DECAY_MUL), DECAY_OFF);
        proof {
            assert(self@ =~= (ReverbView {
                decay: fx_add(fx_mul(decay as int, DECAY_MUL as int), DECAY_OFF as int),
                ..old(self)@
            }));
        }
        self.update();
    }

    /// Sets the size: the centre of the modulated delay percentage. It does
    /// not retune the combs' feedback or damping — an asymmetry with the
    /// other setters, kept as designed.
    pub fn size(&mut self, size: usize)
        requires
            old(self).wf(),
            size <= 100,
        ensures
            final(self).wf(),
            final(self)@ == (ReverbView { size: size as int, ..old(self)@ }),
    {
        self.size = size;
        proof {
            assert(final(self)@ =~= (ReverbView { size: size as int, ..old(self)@ }));
        }
    }

    /// Freezes or thaws the reverb: frozen combs run at full feedback with
    /// no damping, sustaining their content indefinitely.
    pub fn freeze(&mut self, is_freeze: bool)
        requires
            old(self).wf(),
        ensures
            final(self).wf(),
            final(self)@ == ({
                let mid = ReverbView { freeze: is_freeze, ..old(self)@ };
                ReverbView {
                    combs: combs_retuned(mid.combs, effective_feedback(mid), effective_damp(mid)),
                    ..mid
                }
            }),
    {
        self.freeze = is_freeze;
        proof {
            assert(self@ =~= (ReverbView { freeze: is_freeze, ..old(self)@ }));
        }
        self.update();
    }

    /// Sets the position inside the host's current processing block.
    pub fn set_idx(&mut self, idx: usize)
        requires
            old(self).wf(),
        ensures
            final(self).wf(),
            final(self)@ == (ReverbView { buffer_idx: idx as int, ..old(self)@ }),
    {
        self.buffer_data.buffer_idx = idx;
        proof {
            assert(final(self)@ =~= (ReverbView { buffer_idx: idx as int, ..old(self)@ }));
        }
    }

    /// Sets the size of the host's current processing block.
    pub fn set_size(&mut self, size: usize)
        requires
            old(self).wf(),
        ensures
            final(self).wf(),
            final(self)@ == (ReverbView { buffer_size: size as int, ..old(self)@ }),
    {
        self.buffer_data.buffer_size = size;
        proof {
            assert(final(self)@ =~= (ReverbView { buffer_size: size as int, ..old(self)@ }));
        }
    }

    /// Sets the bit-crusher's bit-depth.
    pub fn set_bit_rate(&mut self, bit_rate: i64)
        requires
            old(self).wf(),
            0 <= bit_rate <= BIT_RATE_MAX,
        ensures
            final(self).wf(),
            final(self)@ == (ReverbView {
                bitcrusher: BitCrusherView { bit_rate: bit_rate as int, ..old(self)@.bitcrusher },
                ..old(self)@
            }),
    {
        self.bitcrusher.set_bit_rate(bit_rate);
        proof {
            assert(final(self)@ =~= (ReverbView {
                bitcrusher: BitCrusherView { bit_rate: bit_rate as int, ..old(self)@.bitcrusher },
                ..old(self)@
            }));
        }
    }

    /// Recomputes the wet gain pair from the wet level and width.
    fn update_wet_gains(&mut self)
        requires
            old(self).wf(),
        ensures
            final(self).wf(),
            final(self)@ == (ReverbView {
                wet_gains: wet_gains_of(old(self)@.wet, old(self)@.width),
                ..old(self)@
            }),
    {
        let g = add_sat(half_nonneg(self.width), HALF_SCALE);
        self.wet_gains = (mul_sat(self.wet, g), mul_sat(self.wet, half_nonneg(SCALE - self.width)));
        proof {
            assert(self@ =~= (ReverbView {
                wet_gains: wet_gains_of(old(self)@.wet, old(self)@.width),
                ..old(self)@
            }));
        }
    }
}

/// Silence fade-out: every silent input pushes the counter up by the fixed
/// per-sample increment, and once the counter has crossed the fade floor a
/// silent input produces bit-exact zero on both channels — the fade factor
/// is exactly zero, so the reverb contribution vanishes whatever the filter
/// states hold, and the dry term of a zero input is zero.
pub proof fn lemma_silence_fadeout(v: ReverbView)
    requires
        reverb_wf(v),
        FADE_FLOOR <= v.counter,
    ensures
        reverb_step(v, 0, 0).0.counter == fx_add(v.counter, FADE_INC as int),
        reverb_step(v, 0, 0).0.fadeout_factor == 0,
        reverb_step(v, 0, 0).1 == 0,
        reverb_step(v, 0, 0).2 == 0,
{
    let counter2 = fx_add(v.counter, FADE_INC as int);
    assert(FADE_FLOOR <= counter2);
    vstd::arithmetic::div_mod::lemma_div_is_ordered(FADE_FLOOR as int, counter2, 500);
    assert(fade_of(counter2) == 0);
    assert forall|x: int| #[trigger] fx_mul(x, 0) == 0 by {}
    assert(fx_mul(0, v.dry) == 0);
}

} // verus!
