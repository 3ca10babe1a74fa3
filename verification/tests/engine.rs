use lashverb::fixed::{SCALE, HALF_SCALE, SAT};
use lashverb::reverb::{Reverb, BufferData, calc_len};

#[test]
fn calc_len_scales_tunings() {
    assert_eq!(calc_len(1116, 44100), 1116);
    assert_eq!(calc_len(1116, 8000), 202);
    assert_eq!(calc_len(225, 8000), 40);
    assert_eq!(calc_len(1290, 96000), 2808);
}

#[test]
fn buffer_data_starts_empty() {
    let _ = BufferData::new();
}

#[test]
fn size_band_edges_process_cleanly() {
    // the engine modulates the size by up to 20 points either way; both
    // edges of the usable band must stay inside the delay lines
    for size in [21usize, 80] {
        let mut reverb = Reverb::new(44100);
        reverb.size(size);
        reverb.set_idx(0);
        reverb.set_size(1);
        for _ in 0..2000 {
            let (l, r) = reverb.process((SCALE / 2, -SCALE / 2));
            assert!(l.abs() <= SAT && r.abs() <= SAT);
        }
    }
}

#[test]
fn extreme_sample_rates_construct() {
    let mut low = Reverb::new(8000);
    low.size(50);
    low.set_size(1);
    low.process((SCALE, SCALE));
    let mut high = Reverb::new(1000000);
    high.size(50);
    high.set_size(1);
    high.process((SCALE, SCALE));
}

#[test]
fn impulse_response_decays_without_diverging() {
    let mut reverb = Reverb::new(8000);
    reverb.size(50);
    reverb.wet(SCALE);
    reverb.dry(0);
    reverb.decay(HALF_SCALE);
    reverb.set_bit_rate(16 * SCALE);
    reverb.set_idx(0);
    reverb.set_size(1);

    let mut early_max: i64 = 0;
    let mut late_max: i64 = 0;
    let mut saw_tail = false;
    for k in 0..30000usize {
        let x = if k == 0 { (SCALE, SCALE) } else { (0, 0) };
        let (l, r) = reverb.process(x);
        assert!(l.abs() < SAT && r.abs() < SAT, "diverged at {}", k);
        let mag = l.abs().max(r.abs());
        if k > 100 && k < 5000 && mag > 0 {
            saw_tail = true;
        }
        if k < 5000 {
            early_max = early_max.max(mag);
        }
        if k >= 25000 {
            late_max = late_max.max(mag);
        }
    }
    assert!(saw_tail, "no reverb tail appeared");
    assert!(late_max < early_max, "tail did not decay");
    // by the end the tail sits inside one sixteen-bit quantization step
    assert!(late_max <= 1024, "tail stuck at {}", late_max);
}

#[test]
fn silence_fades_to_bit_exact_zero() {
    // freeze the combs so the tail would ring forever; only the fade-out can
    // silence it, and it must do so bit-exactly
    let mut reverb = Reverb::new(8000);
    reverb.size(50);
    reverb.wet(SCALE);
    reverb.dry(0);
    reverb.freeze(true);
    reverb.set_idx(0);
    reverb.set_size(1);

    reverb.process((SCALE, SCALE));
    let mut saw_nonzero = false;
    let mut last = (0i64, 0i64);
    // the counter gains 16777 per silent sample and the fade dies at
    // 8388608000, i.e. after 500006 silent samples
    for _ in 0..501000usize {
        last = reverb.process((0, 0));
        if last != (0, 0) {
            saw_nonzero = true;
        }
    }
    assert!(saw_nonzero, "frozen tail never rang");
    assert_eq!(last, (0, 0));
}

#[test]
fn dry_passthrough_before_tail_arrives() {
    let mut reverb = Reverb::new(8000);
    reverb.size(50);
    reverb.wet(SCALE);
    reverb.dry(SCALE);
    reverb.set_idx(0);
    reverb.set_size(1);
    // a dry-only check: with silence the output is exactly the dry term
    let (l, r) = reverb.process((0, 0));
    assert_eq!((l, r), (0, 0));
    let (l, r) = reverb.process((1000000, -1000000));
    // the reverb tail has not reached the output yet: dry signal only
    assert_eq!((l, r), (1000000, -1000000));
}

#[test]
fn dry_level_scales_the_input() {
    let mut reverb = Reverb::new(8000);
    reverb.size(50);
    reverb.wet(0);
    reverb.dry(HALF_SCALE);
    reverb.set_idx(0);
    reverb.set_size(1);
    let (l, r) = reverb.process((SCALE, -SCALE));
    assert_eq!((l, r), (HALF_SCALE, -HALF_SCALE));
}
