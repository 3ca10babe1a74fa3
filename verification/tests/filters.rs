use lashverb::fixed::{SCALE, HALF_SCALE};
use lashverb::delay_buffer::DelayBuffer;
use lashverb::all_pass_filter::AllPass;
use lashverb::comb_filter::Comb;
use lashverb::lfo::{Lfo, Shape};
use lashverb::bitcrusher::BitCrusher;

#[test]
fn delay_round_trip_full_length() {
    let mut buf = DelayBuffer::new(5);
    buf.write(1234567);
    for _ in 0..5 {
        buf.advance();
    }
    assert_eq!(buf.read(), 1234567);
}

#[test]
fn delay_round_trip_effective_length() {
    // the effective length 3 is shorter than the capacity 5
    let mut buf = DelayBuffer::new(5);
    buf.write(-42);
    for _ in 0..3 {
        buf.advance_to(2);
    }
    assert_eq!(buf.read(), -42);
}

#[test]
fn delay_advance_to_zero_pins_the_index() {
    // a wrap limit of zero degenerates to always returning to slot zero
    let mut buf = DelayBuffer::new(3);
    buf.write(11);
    buf.advance_to(0);
    assert_eq!(buf.read(), 11);
    buf.advance_to(0);
    assert_eq!(buf.read(), 11);
}

#[test]
fn delay_write_does_not_move_index() {
    let mut buf = DelayBuffer::new(4);
    buf.write(7);
    buf.write(9);
    assert_eq!(buf.read(), 9);
}

#[test]
fn allpass_zero_feedback_emits_delayed_minus_input() {
    let mut ap = AllPass::new(4);
    // the line starts silent, so the first outputs are the negated inputs
    assert_eq!(ap.process(100, 0), -100);
    assert_eq!(ap.process(200, 0), -200);
    assert_eq!(ap.process(300, 0), -300);
    assert_eq!(ap.process(400, 0), -400);
    // from the fifth call on, each input written four calls ago comes back
    assert_eq!(ap.process(0, 0), 100);
    assert_eq!(ap.process(0, 0), 200);
    assert_eq!(ap.process(50, 0), -50 + 300);
}

#[test]
fn comb_zero_feedback_is_pure_delay() {
    let mut comb = Comb::new(4);
    comb.set_delay(100);
    comb.set_feedback(0);
    comb.set_damp(HALF_SCALE);
    let inputs = [SCALE, 17, -3000, 555, 0, 0, 0, 0];
    let mut outputs = Vec::new();
    for x in inputs.iter() {
        outputs.push(comb.process(*x));
    }
    // the effective length is 4: every input returns four calls later
    assert_eq!(&outputs[4..8], &inputs[0..4]);
}

#[test]
fn comb_zero_feedback_ignores_damp() {
    let mut low = Comb::new(6);
    low.set_delay(100);
    low.set_feedback(0);
    low.set_damp(0);
    let mut high = Comb::new(6);
    high.set_delay(100);
    high.set_feedback(0);
    high.set_damp(SCALE);
    for k in 0..24i64 {
        let x = (k * 12345) % SCALE;
        assert_eq!(low.process(x), high.process(x));
    }
}

#[test]
fn comb_feedback_builds_an_echo() {
    let mut comb = Comb::new(4);
    comb.set_delay(100);
    comb.set_feedback(HALF_SCALE);
    comb.set_damp(0);
    let mut outputs = Vec::new();
    for k in 0..12 {
        let x = if k == 0 { SCALE } else { 0 };
        outputs.push(comb.process(x));
    }
    // the impulse returns after 4 samples, then again at half strength
    assert_eq!(outputs[4], SCALE);
    assert_eq!(outputs[8], HALF_SCALE);
}

#[test]
fn lfo_peaks_at_quarter_turn() {
    // one call moves the phase a quarter turn; the parabolic sine peaks at
    // exactly full scale there
    let mut lfo = Lfo::new(44100);
    lfo.set_speed(11025 * SCALE);
    lfo.set_amp(20 * SCALE);
    assert_eq!(lfo.output(), 20 * SCALE);
}

#[test]
fn lfo_at_sample_rate_stays_silent() {
    // a full turn per call wraps the phase back onto zero
    let mut lfo = Lfo::new(44100);
    lfo.set_speed(44100 * SCALE);
    lfo.set_amp(20 * SCALE);
    for _ in 0..10 {
        assert_eq!(lfo.output(), 0);
    }
}

#[test]
fn lfo_half_turn_is_zero_crossing() {
    let mut lfo = Lfo::new(44100);
    lfo.set_speed(22050 * SCALE);
    lfo.set_amp(SCALE);
    assert_eq!(lfo.output(), 0);
}

#[test]
fn lfo_unimplemented_shapes_return_silence() {
    for shape in [Shape::Triangle, Shape::Sawtooth, Shape::Square, Shape::Random] {
        let mut lfo = Lfo::new(44100);
        lfo.set_shape(shape);
        lfo.set_speed(11025 * SCALE);
        lfo.set_amp(20 * SCALE);
        assert_eq!(lfo.output(), 0);
    }
}

#[test]
fn bitcrusher_near_identity_at_sixteen_bits() {
    // at 16 bits one quantization step is 2/2^16 of full scale: 512
    let mut bc = BitCrusher::new();
    bc.set_bit_rate(16 * SCALE);
    for x in [0i64, 1, 511, 512, 5592405, -5592405, SCALE, -SCALE, 123456] {
        let out = bc.process(x, 0, 1);
        assert!(0 <= x - out && x - out < 512, "x={} out={}", x, out);
    }
}

#[test]
fn bitcrusher_sixteen_bit_exact_value() {
    let mut bc = BitCrusher::new();
    bc.set_bit_rate(16 * SCALE);
    // floor((5592405 + SCALE) / 512) * 512 - SCALE
    assert_eq!(bc.process(5592405, 0, 1), 5592064);
}

#[test]
fn bitcrusher_six_bit_floor() {
    // at the default six bits one step is SCALE / 32; a tiny negative value
    // lands on the step below zero
    let mut bc = BitCrusher::new();
    assert_eq!(bc.process(-1, 0, 1), -524288);
    assert_eq!(bc.process(0, 0, 1), 0);
}

#[test]
fn bitcrusher_holds_between_block_starts() {
    let mut bc = BitCrusher::new();
    bc.set_bit_rate(16 * SCALE);
    bc.set_sample_rate(2 * SCALE);
    let fresh = bc.process(SCALE, 0, 4);
    assert_eq!(fresh, SCALE);
    // an odd block position strictly inside the block repeats the old value
    assert_eq!(bc.process(0, 1, 4), fresh);
    // an even position quantizes afresh and replaces the remembered value
    assert_eq!(bc.process(-1, 2, 4), -512);
    assert_eq!(bc.process(SCALE, 3, 4), -512);
}

#[test]
fn bitcrusher_factor_one_never_holds() {
    let mut bc = BitCrusher::new();
    bc.set_bit_rate(16 * SCALE);
    let a = bc.process(SCALE, 5, 16);
    let b = bc.process(0, 6, 16);
    assert_eq!(a, SCALE);
    assert_eq!(b, 0);
}
