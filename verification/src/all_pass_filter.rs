//! The Schroeder allpass section: one delay line, no persistent coefficient.
//!
//! Each step reads the delayed sample, writes `input + delayed * feedback`
//! back into the line, advances it, and returns `-input + delayed`. The
//! feedback coefficient is supplied per call because the surrounding
//! topology always uses the same one.

use vstd::prelude::*;
use crate::fixed::{fx_add, fx_mul, fx_in_range, fx_clip, add_sat, mul_sat};
use crate::delay_buffer::{
    DelayBuffer,
    DbView,
    db_wf,
    db_step_write,
    db_step_advance,
    delay_step,
    delay_run,
    lemma_delay_run_outputs,
    MAX_BUF_LEN,
};

verus! {

#[verifier::ext_equal]
pub ghost struct AllPassView {
    pub buf: DbView,
}

pub open spec fn ap_wf(v: AllPassView) -> bool {
    db_wf(v.buf)
}

/// What one allpass step returns: the delayed sample minus the input.
pub open spec fn allpass_out(v: AllPassView, input: int) -> int {
    fx_add(-input, v.buf.samples[v.buf.pos])
}

/// The allpass state after one step: the delay line holds
/// `input + delayed * feedback` and has advanced over its whole store.
pub open spec fn allpass_next(v: AllPassView, input: int, feedback: int) -> AllPassView {
    let written = fx_add(input, fx_mul(v.buf.samples[v.buf.pos], feedback));
    AllPassView {
        buf: db_step_advance(db_step_write(v.buf, written), v.buf.samples.len() - 1),
    }
}

pub struct AllPass {
    delay_buffer: DelayBuffer,
}

impl View for AllPass {
    type V = AllPassView;

    closed spec fn view(&self) -> AllPassView {
        AllPassView { buf: self.delay_buffer@ }
    }
}

impl AllPass {
    pub open spec fn wf(&self) -> bool {
        ap_wf(self@)
    }

    /// Creates an allpass section over a silent delay line of `length`.
    pub fn new(length: usize) -> (r: AllPass)
        requires
            1 <= length <= MAX_BUF_LEN,
        ensures
            r.wf(),
            r@.buf.pos == 0,
            r@.buf.samples.len() == length,
            forall|i: int| 0 <= i < length ==> r@.buf.samples[i] == 0,
    {
        AllPass { delay_buffer: DelayBuffer::new(length) }
    }

    /// One allpass step: read, feed back, advance, and return the
    /// phase-inverted blend.
    pub fn process(&mut self, input: i64, feedback: i64) -> (out: i64)
        requires
            old(self).wf(),
            fx_in_range(input as int),
            fx_in_range(feedback as int),
        ensures
            final(self).wf(),
            final(self)@ == allpass_next(old(self)@, input as int, feedback as int),
            out as int == allpass_out(old(self)@, input as int),
            fx_in_range(out as int),
    {
        let delayed = self.delay_buffer.read();
        let fed = add_sat(input, mul_sat(delayed, feedback));
        self.delay_buffer.write(fed);
        self.delay_buffer.advance();
        add_sat(-input, delayed)
    }
}

/// Allpass identity at zero feedback: the output is the delayed sample minus
/// the input, and the delay line receives the input unchanged, so its
/// content is never fed by itself. Together with the delay-line round trip,
/// the delayed sample is exactly what was written one line length ago.
pub proof fn lemma_allpass_zero_feedback(v: AllPassView, input: int)
    requires
        fx_in_range(input),
        fx_in_range(v.buf.samples[v.buf.pos]),
    ensures
        allpass_out(v, input) == fx_clip(-input + v.buf.samples[v.buf.pos]),
        allpass_next(v, input, 0).buf.samples == v.buf.samples.update(v.buf.pos, input),
{
}

/// An allpass section fed with a sequence of inputs: the final state and the
/// sequence of samples that came out.
pub open spec fn allpass_run(v: AllPassView, feedback: int, inputs: Seq<int>) -> (
    AllPassView,
    Seq<int>,
)
    decreases inputs.len(),
{
    if inputs.len() == 0 {
        (v, Seq::empty())
    } else {
        let out0 = allpass_out(v, inputs[0]);
        let r = allpass_run(allpass_next(v, inputs[0], feedback), feedback, inputs.drop_first());
        (r.0, seq![out0] + r.1)
    }
}

/// Allpass identity at zero feedback, over a whole run: the delay line holds
/// the raw inputs, and the output of step `k` is the delayed sample minus
/// the input — where from step `L` on the delayed sample is exactly the
/// input written `L` calls ago, `L` being the line length.
pub proof fn lemma_allpass_zero_feedback_run(v: AllPassView, inputs: Seq<int>)
    requires
        ap_wf(v),
        forall|i: int| 0 <= i < inputs.len() ==> fx_in_range(#[trigger] inputs[i]),
    ensures
        allpass_run(v, 0, inputs).1.len() == inputs.len(),
        forall|k: int|
            v.buf.samples.len() <= k < inputs.len() ==> #[trigger] allpass_run(v, 0, inputs).1[k]
                == fx_add(-inputs[k], inputs[k - v.buf.samples.len()]),
{
    lemma_allpass_run_reads_delay_line(v, inputs);
    lemma_delay_run_outputs(v.buf, v.buf.samples.len() as int, inputs);
}

/// At zero feedback the allpass delay line evolves exactly as a pure delay
/// line over the raw inputs, and each output is the line's emission minus
/// the step's input.
proof fn lemma_allpass_run_reads_delay_line(v: AllPassView, inputs: Seq<int>)
    requires
        ap_wf(v),
        forall|i: int| 0 <= i < inputs.len() ==> fx_in_range(#[trigger] inputs[i]),
    ensures
        allpass_run(v, 0, inputs).1.len() == inputs.len(),
        delay_run(v.buf, v.buf.samples.len() - 1, inputs).1.len() == inputs.len(),
        allpass_run(v, 0, inputs).0.buf == delay_run(
            v.buf,
            v.buf.samples.len() - 1,
            inputs,
        ).0,
        forall|k: int|
            0 <= k < inputs.len() ==> #[trigger] allpass_run(v, 0, inputs).1[k] == fx_add(
                -inputs[k],
                delay_run(v.buf, v.buf.samples.len() - 1, inputs).1[k],
            ),
    decreases inputs.len(),
{
    if inputs.len() > 0 {
        let v1 = allpass_next(v, inputs[0], 0);
        assert(fx_mul(v.buf.samples[v.buf.pos], 0) == 0);
        assert(v1.buf == delay_step(v.buf, v.buf.samples.len() - 1, inputs[0]));
        lemma_allpass_run_reads_delay_line(v1, inputs.drop_first());
        let outs = allpass_run(v, 0, inputs).1;
        let douts = delay_run(v.buf, v.buf.samples.len() - 1, inputs).1;
        let rest = allpass_run(v1, 0, inputs.drop_first()).1;
        let drest = delay_run(v1.buf, v.buf.samples.len() - 1, inputs.drop_first()).1;
        assert(outs == seq![allpass_out(v, inputs[0])] + rest);
        assert(douts == seq![v.buf.samples[v.buf.pos]] + drest);
        assert forall|k: int| 0 <= k < inputs.len() implies outs[k] == fx_add(
            -inputs[k],
            douts[k],
        ) by {
            if k > 0 {
                assert(outs[k] == rest[k - 1]);
                assert(douts[k] == drest[k - 1]);
                assert(inputs.drop_first()[k - 1] == inputs[k]);
            }
        }
    }
}

} // verus!
