//! The lowpass feedback comb filter: one delay line, a one-pole low-pass in
//! the feedback path, and a delay value interpreted as a percentage of the
//! line's fixed capacity.
//!
//! Each step reads the delayed sample first and writes after, realising the
//! one-sample-latency feedback loop; the effective line length is recomputed
//! from the percentage on every step, so the delay can be modulated without
//! reallocating.

use vstd::prelude::*;
use crate::fixed::{SCALE, HALF_SCALE, fx_add, fx_mul, fx_in_range, add_sat, mul_sat};
use crate::delay_buffer::{DelayBuffer, DbView, db_wf, db_step_write, db_step_advance, delay_run, MAX_BUF_LEN};

verus! {

#[verifier::ext_equal]
pub ghost struct CombView {
    pub buf: DbView,
    pub buffer_len: int,
    pub delay: int,
    pub feedback: int,
    pub filter_state: int,
    pub damp: int,
    pub damp_inv: int,
}

pub open spec fn comb_wf(v: CombView) -> bool {
    &&& db_wf(v.buf)
    &&& v.buffer_len == v.buf.samples.len()
    &&& 0 <= v.delay
    &&& fx_in_range(v.feedback)
    &&& fx_in_range(v.filter_state)
    &&& fx_in_range(v.damp)
    &&& fx_in_range(v.damp_inv)
}

/// The effective line length: the stored percentage of the fixed capacity.
pub open spec fn comb_d_len(v: CombView) -> int {
    v.buffer_len * v.delay / 100
}

/// What one comb step returns: the sample leaving the delay line.
pub open spec fn comb_out(v: CombView) -> int {
    v.buf.samples[v.buf.pos]
}

/// The one-pole low-pass state after absorbing `output`.
pub open spec fn comb_state_next(v: CombView, output: int) -> int {
    fx_add(fx_mul(output, v.damp_inv), fx_mul(v.filter_state, v.damp))
}

/// The comb state after one step: the filtered feedback plus the input goes
/// onto the line, which advances within its current effective length.
pub open spec fn comb_next(v: CombView, input: int) -> CombView {
    let output = comb_out(v);
    let st = comb_state_next(v, output);
    let written = fx_add(input, fx_mul(st, v.feedback));
    CombView {
        buf: db_step_advance(db_step_write(v.buf, written), comb_d_len(v) - 1),
        filter_state: st,
        ..v
    }
}

/// A freshly built comb: a silent line used at its full capacity, with the
/// feedback, damping and low-pass state at their initial values.
pub open spec fn comb_init(len: int) -> CombView {
    CombView {
        buf: DbView { samples: Seq::new(len as nat, |i: int| 0), pos: 0 },
        buffer_len: len,
        delay: len,
        feedback: HALF_SCALE as int,
        filter_state: 0,
        damp: HALF_SCALE as int,
        damp_inv: HALF_SCALE as int,
    }
}

pub struct Comb {
    delay_buffer: DelayBuffer,
    pub buffer_len: usize,
    delay: usize,
    feedback: i64,
    filter_state: i64,
    damp: i64,
    damp_inv: i64,
}

impl View for Comb {
    type V = CombView;

    closed spec fn view(&self) -> CombView {
        CombView {
            buf: self.delay_buffer@,
            buffer_len: self.buffer_len as int,
            delay: self.delay as int,
            feedback: self.feedback as int,
            filter_state: self.filter_state as int,
            damp: self.damp as int,
            damp_inv: self.damp_inv as int,
        }
    }
}

impl Comb {
    pub open spec fn wf(&self) -> bool {
        comb_wf(self@)
    }

    /// Creates a comb over a silent delay line of `delay_length` samples.
    pub fn new(delay_length: usize) -> (r: Comb)
        requires
            1 <= delay_length <= MAX_BUF_LEN,
        ensures
            r.wf(),
            r@ == comb_init(delay_length as int),
    {
        let r = Comb {
            delay_buffer: DelayBuffer::new(delay_length),
            buffer_len: delay_length,
            delay: delay_length,
            feedback: HALF_SCALE,
            filter_state: 0,
            damp: HALF_SCALE,
            damp_inv: HALF_SCALE,
        };
        proof {
            assert(r@.buf.samples =~= comb_init(delay_length as int).buf.samples);
            assert(r@ =~= comb_init(delay_length as int));
        }
        r
    }

    /// The fixed capacity of the backing delay line.
    pub fn buffer_len(&self) -> (r: usize)
        requires
            self.wf(),
        ensures
            r as int == self@.buffer_len,
    {
        self.buffer_len
    }

    /// Sets the delay as a percentage of the line's capacity.
    pub fn set_delay(&mut self, x: usize)
        requires
            old(self).wf(),
        ensures
            final(self).wf(),
            final(self)@ == (CombView { delay: x as int, ..old(self)@ }),
    {
        self.delay = x;
    }

    /// Sets the damping coefficient and its complement.
    pub fn set_damp(&mut self, value: i64)
        requires
            old(self).wf(),
            0 <= value <= SCALE,
        ensures
            final(self).wf(),
            final(self)@ == (CombView {
                damp: value as int,
                damp_inv: SCALE - value,
                ..old(self)@
            }),
    {
        self.damp = value;
        self.damp_inv = SCALE - value;
    }

    /// Sets the feedback gain.
    pub fn set_feedback(&mut self, value: i64)
        requires
            old(self).wf(),
            0 <= value <= SCALE,
        ensures
            final(self).wf(),
            final(self)@ == (CombView { feedback: value as int, ..old(self)@ }),
    {
        self.feedback = value;
    }

    /// One comb step: read the line, update the low-pass, write the input
    /// plus the filtered feedback, and advance within the effective length.
    pub fn process(&mut self, input: i64) -> (out: i64)
        requires
            old(self).wf(),
            fx_in_range(input as int),
            old(self)@.delay <= 100,
            100 <= old(self)@.buffer_len * old(self)@.delay,
        ensures
            final(self).wf(),
            final(self)@ == comb_next(old(self)@, input as int),
            out as int == comb_out(old(self)@),
            fx_in_range(out as int),
    {
        let output = self.delay_buffer.read();
        self.filter_state = add_sat(
            mul_sat(output, self.damp_inv),
            mul_sat(self.filter_state, self.damp),
        );
        let feedback_out = mul_sat(self.filter_state, self.feedback);
        self.delay_buffer.write(add_sat(input, feedback_out));
        proof {
            let blen = old(self)@.buffer_len;
            let dl = old(self)@.delay;
            assert(blen * dl <= blen * 100) by (nonlinear_arith)
                requires
                    dl <= 100,
                    0 <= blen,
            ;
        }
        let d_len = ((self.buffer_len as u64) * (self.delay as u64) / 100) as usize;
        self.delay_buffer.advance_to(d_len - 1);
        output
    }
}

/// Comb filter degeneracy, one run: with zero feedback the comb writes each
/// input onto its line unchanged and emits exactly what a pure delay line of
/// the same effective length emits, whatever the damping, because the
/// low-pass state never reaches the line.
pub proof fn lemma_comb_zero_feedback_is_delay(v: CombView, inputs: Seq<int>)
    requires
        v.feedback == 0,
        forall|i: int| 0 <= i < inputs.len() ==> fx_in_range(#[trigger] inputs[i]),
    ensures
        comb_run(v, inputs).1 == delay_run(v.buf, comb_d_len(v) - 1, inputs).1,
        comb_run(v, inputs).0.buf == delay_run(v.buf, comb_d_len(v) - 1, inputs).0,
    decreases inputs.len(),
{
    if inputs.len() > 0 {
        let v1 = comb_next(v, inputs[0]);
        assert(fx_mul(comb_state_next(v, comb_out(v)), 0) == 0);
        assert(v1.buf == crate::delay_buffer::delay_step(v.buf, comb_d_len(v) - 1, inputs[0]));
        lemma_comb_zero_feedback_is_delay(v1, inputs.drop_first());
    }
}

/// A comb filter fed with a sequence of inputs: the final state and the
/// sequence of samples that came out.
pub open spec fn comb_run(v: CombView, inputs: Seq<int>) -> (CombView, Seq<int>)
    decreases inputs.len(),
{
    if inputs.len() == 0 {
        (v, Seq::empty())
    } else {
        let out0 = comb_out(v);
        let r = comb_run(comb_next(v, inputs[0]), inputs.drop_first());
        (r.0, seq![out0] + r.1)
    }
}

/// Comb filter degeneracy: with zero feedback the comb is a pure delay line
/// of its effective length `L`, independent of the damping — from step `L`
/// on, the output at step `k` is the input of step `k - L`.
pub proof fn lemma_comb_pure_delay(v: CombView, inputs: Seq<int>)
    requires
        v.feedback == 0,
        1 <= comb_d_len(v) <= v.buf.samples.len(),
        0 <= v.buf.pos < comb_d_len(v),
        forall|i: int| 0 <= i < inputs.len() ==> fx_in_range(#[trigger] inputs[i]),
    ensures
        comb_run(v, inputs).1.len() == inputs.len(),
        forall|k: int| comb_d_len(v) <= k < inputs.len()
            ==> #[trigger] comb_run(v, inputs).1[k] == inputs[k - comb_d_len(v)],
{
    lemma_comb_zero_feedback_is_delay(v, inputs);
    crate::delay_buffer::lemma_delay_run_outputs(v.buf, comb_d_len(v), inputs);
}

} // verus!
