//! A circular delay buffer: a fixed-length sample store with one index.
//!
//! `read` returns the sample under the index, `write` overwrites it, and the
//! `advance` operations move the index forward by one, wrapping at a caller
//! chosen limit so the effective delay length can shrink and stretch without
//! reallocating the backing store. Callers realise a one-sample-latency
//! feedback path by calling read, then write, then advance, in that order.

use vstd::prelude::*;
use crate::fixed::fx_in_range;

verus! {

/// Largest backing store a buffer may own; keeps index arithmetic in range
/// on any machine word size.
pub const MAX_BUF_LEN: usize = 1073741824;

/// The mathematical state of a delay buffer: its samples and its index.
#[verifier::ext_equal]
pub ghost struct DbView {
    pub samples: Seq<int>,
    pub pos: int,
}

/// Where the index lands after one step that wraps at `wrap_to`.
pub open spec fn next_pos(pos: int, wrap_to: int) -> int {
    if pos < wrap_to {
        pos + 1
    } else {
        0
    }
}

/// The buffer after overwriting the sample under the index.
pub open spec fn db_step_write(v: DbView, val: int) -> DbView {
    DbView { samples: v.samples.update(v.pos, val), pos: v.pos }
}

/// The buffer after one advance that wraps at `wrap_to`.
pub open spec fn db_step_advance(v: DbView, wrap_to: int) -> DbView {
    DbView { samples: v.samples, pos: next_pos(v.pos, wrap_to) }
}

/// The buffer after `n` advances that wrap at `wrap_to`.
pub open spec fn db_advance_n(v: DbView, wrap_to: int, n: nat) -> DbView
    decreases n,
{
    if n == 0 {
        v
    } else {
        db_advance_n(db_step_advance(v, wrap_to), wrap_to, (n - 1) as nat)
    }
}

/// A valid buffer: nonempty, index inside the store, samples in range.
pub open spec fn db_wf(v: DbView) -> bool {
    &&& 1 <= v.samples.len() <= MAX_BUF_LEN
    &&& 0 <= v.pos < v.samples.len()
    &&& forall|i: int| 0 <= i < v.samples.len() ==> fx_in_range(#[trigger] v.samples[i])
}

pub struct DelayBuffer {
    buffer: Vec<i64>,
    index: usize,
}

impl View for DelayBuffer {
    type V = DbView;

    closed spec fn view(&self) -> DbView {
        DbView {
            samples: self.buffer@.map_values(|v: i64| v as int),
            pos: self.index as int,
        }
    }
}

impl DelayBuffer {
    pub open spec fn wf(&self) -> bool {
        db_wf(self@)
    }

    /// Creates a new buffer of `length` silent samples.
    pub fn new(length: usize) -> (r: DelayBuffer)
        requires
            1 <= length <= MAX_BUF_LEN,
        ensures
            r.wf(),
            r@.pos == 0,
            r@.samples.len() == length,
            forall|i: int| 0 <= i < length ==> r@.samples[i] == 0,
    {
        let mut buffer: Vec<i64> = Vec::new();
        while buffer.len() < length
            invariant
                buffer.len() <= length,
                forall|i: int| 0 <= i < buffer.len() ==> buffer@[i] == 0i64,
            decreases length - buffer.len(),
        {
            buffer.push(0i64);
        }
        let r = DelayBuffer { buffer, index: 0 };
        proof {
            assert(forall|i: int|
                0 <= i < length ==> r@.samples[i] == #[trigger] r.buffer@[i] as int);
        }
        r
    }

    /// Reads the sample under the index without moving it.
    pub fn read(&mut self) -> (r: i64)
        requires
            old(self).wf(),
        ensures
            *final(self) == *old(self),
            r as int == old(self)@.samples[old(self)@.pos],
            fx_in_range(r as int),
    {
        proof {
            assert(fx_in_range(old(self)@.samples[old(self)@.pos]));
        }
        self.buffer[self.index]
    }

    /// Overwrites the sample under the index; the index does not move.
    pub fn write(&mut self, input: i64)
        requires
            old(self).wf(),
            fx_in_range(input as int),
        ensures
            final(self).wf(),
            final(self)@ == db_step_write(old(self)@, input as int),
    {
        let i = self.index;
        self.buffer[i] = input;
        proof {
            assert(final(self)@.samples =~= db_step_write(old(self)@, input as int).samples);
        }
    }

    /// Moves the index one step forward, wrapping at `to`.
    pub fn advance_to(&mut self, to: usize)
        requires
            old(self).wf(),
            to < old(self)@.samples.len(),
        ensures
            final(self).wf(),
            final(self)@ == db_step_advance(old(self)@, to as int),
    {
        if self.index < to {
            self.index = self.index + 1;
        } else {
            self.index = 0;
        }
    }

    /// Moves the index one step forward, wrapping over the whole store.
    pub fn advance(&mut self)
        requires
            old(self).wf(),
        ensures
            final(self).wf(),
            final(self)@ == db_step_advance(old(self)@, old(self)@.samples.len() - 1),
    {
        let to = self.buffer.len() - 1;
        self.advance_to(to);
    }
}

/// After `n` advances wrapping at `l - 1`, the samples are untouched and the
/// index has moved `n` steps around the ring of length `l`.
pub proof fn lemma_advance_n_pos(v: DbView, l: int, n: nat)
    requires
        1 <= l,
        0 <= v.pos < l,
    ensures
        db_advance_n(v, l - 1, n).samples == v.samples,
        db_advance_n(v, l - 1, n).pos == (v.pos + n) % l,
    decreases n,
{
    if n == 0 {
        vstd::arithmetic::div_mod::lemma_small_mod(v.pos as nat, l as nat);
    } else {
        let v1 = db_step_advance(v, l - 1);
        if v.pos < l - 1 {
            vstd::arithmetic::div_mod::lemma_small_mod((v.pos + 1) as nat, l as nat);
        } else {
            vstd::arithmetic::div_mod::lemma_mod_self_0(l);
        }
        assert(v1.pos == (v.pos + 1) % l);
        lemma_advance_n_pos(v1, l, (n - 1) as nat);
        vstd::arithmetic::div_mod::lemma_add_mod_noop(v.pos + 1, n - 1, l);
        vstd::arithmetic::div_mod::lemma_add_mod_noop((v.pos + 1) % l, n - 1, l);
        vstd::arithmetic::div_mod::lemma_mod_twice(v.pos + 1, l);
        vstd::arithmetic::div_mod::lemma_mod_twice(n - 1, l);
        assert(db_advance_n(v, l - 1, n) == db_advance_n(v1, l - 1, (n - 1) as nat));
    }
}

/// One step of a pure delay line of effective length `wrap_to + 1`:
/// the current sample leaves, the input takes its slot, the index advances.
pub open spec fn delay_step(v: DbView, wrap_to: int, input: int) -> DbView {
    db_step_advance(db_step_write(v, input), wrap_to)
}

/// A pure delay line fed with a sequence of inputs: the final state and the
/// sequence of samples that came out.
pub open spec fn delay_run(v: DbView, wrap_to: int, inputs: Seq<int>) -> (DbView, Seq<int>)
    decreases inputs.len(),
{
    if inputs.len() == 0 {
        (v, Seq::empty())
    } else {
        let out0 = v.samples[v.pos];
        let r = delay_run(delay_step(v, wrap_to, inputs[0]), wrap_to, inputs.drop_first());
        (r.0, seq![out0] + r.1)
    }
}

/// What a pure delay line of effective length `l` emits: for the first `l`
/// steps, the samples that already sat on the ring; from step `l` on, each
/// input comes back out exactly `l` steps after it went in.
pub proof fn lemma_delay_run_outputs(v: DbView, l: int, inputs: Seq<int>)
    requires
        1 <= l <= v.samples.len(),
        0 <= v.pos < l,
    ensures
        delay_run(v, l - 1, inputs).1.len() == inputs.len(),
        forall|k: int| 0 <= k < inputs.len() ==> #[trigger] delay_run(v, l - 1, inputs).1[k] == (
            if k < l {
                v.samples[(v.pos + k) % l]
            } else {
                inputs[k - l]
            }),
    decreases inputs.len(),
{
    broadcast use vstd::arithmetic::div_mod::lemma_mod_division_less_than_divisor;

    if inputs.len() > 0 {
        let v1 = delay_step(v, l - 1, inputs[0]);
        if v.pos < l - 1 {
            vstd::arithmetic::div_mod::lemma_small_mod((v.pos + 1) as nat, l as nat);
        } else {
            vstd::arithmetic::div_mod::lemma_mod_self_0(l);
        }
        assert(v1.pos == (v.pos + 1) % l);
        lemma_delay_run_outputs(v1, l, inputs.drop_first());
        let outs = delay_run(v, l - 1, inputs).1;
        let outs1 = delay_run(v1, l - 1, inputs.drop_first()).1;
        vstd::arithmetic::div_mod::lemma_small_mod(v.pos as nat, l as nat);
        assert forall|k: int| 1 <= k < inputs.len() implies outs[k] == (
            if k < l {
                v.samples[(v.pos + k) % l]
            } else {
                inputs[k - l]
            }) by {
            assert(outs[k] == outs1[k - 1]);
            vstd::arithmetic::div_mod::lemma_add_mod_noop(v.pos + 1, k - 1, l);
            vstd::arithmetic::div_mod::lemma_add_mod_noop((v.pos + 1) % l, k - 1, l);
            vstd::arithmetic::div_mod::lemma_mod_twice(v.pos + 1, l);
            vstd::arithmetic::div_mod::lemma_mod_twice(k - 1, l);
            assert((v1.pos + (k - 1)) % l == (v.pos + k) % l);
            if k < l {
                // the slot read at step k is not the slot written at step 0
                if v.pos + k < l {
                    vstd::arithmetic::div_mod::lemma_small_mod((v.pos + k) as nat, l as nat);
                } else {
                    vstd::arithmetic::div_mod::lemma_mod_sub_multiples_vanish(v.pos + k, l);
                    vstd::arithmetic::div_mod::lemma_small_mod((v.pos + k - l) as nat, l as nat);
                }
                assert((v.pos + k) % l != v.pos);
                assert(v1.samples[(v.pos + k) % l] == v.samples[(v.pos + k) % l]);
            } else if k == l {
                vstd::arithmetic::div_mod::lemma_mod_add_multiples_vanish(v.pos, l);
                assert((v.pos + k) % l == v.pos);
                assert(v1.samples[v.pos] == inputs[0]);
            }
        }
    }
}

/// Delay-line round trip: for any effective length `l >= 1`, writing a value
/// and then advancing `l` times (wrapping at `l - 1`) brings the index back
/// to the written slot, so a read returns the written value. This covers
/// both `advance` (where `l` is the full store) and `advance_to(l - 1)`.
pub proof fn lemma_delay_round_trip(v: DbView, val: int, l: int)
    requires
        1 <= l,
        0 <= v.pos < l,
        l <= v.samples.len(),
    ensures
        db_advance_n(db_step_write(v, val), l - 1, l as nat).pos == v.pos,
        db_advance_n(db_step_write(v, val), l - 1, l as nat).samples[v.pos] == val,
{
    let w = db_step_write(v, val);
    lemma_advance_n_pos(w, l, l as nat);
    vstd::arithmetic::div_mod::lemma_mod_add_multiples_vanish(v.pos, l);
    vstd::arithmetic::div_mod::lemma_small_mod(v.pos as nat, l as nat);
}

} // verus!
