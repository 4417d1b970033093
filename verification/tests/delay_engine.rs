use glitch_delay::engine::DelayEngine;
use glitch_delay::model::{MixOp, StepResult};

/// Combines the gained input sample with the taps as the returned mixing
/// operation directs; this is the one floating-point part of a step.
fn mixed(out: &StepResult<f32>, gained: f32) -> f32 {
    match out.mix {
        MixOp::Pass => gained,
        MixOp::AddTap => gained + out.tap,
        MixOp::ReplaceTap => out.tap,
        MixOp::MulTap => gained * out.tap,
        MixOp::AddBothTaps => gained + out.tap + out.tap2,
    }
}

#[test]
fn fresh_engine_state() {
    let engine = DelayEngine::new(0.0f32);
    assert_eq!(engine.write_cursor(), 0);
    assert_eq!(engine.read_cursor(), 399999);
    assert_eq!(engine.read(0), 0.0);
    assert_eq!(engine.read(200000), 0.0);
    assert_eq!(engine.read(399999), 0.0);
}

#[test]
fn passthrough_mode_zero_and_eight() {
    let mut engine = DelayEngine::new(0.0f32);
    let gain = 0.5f32;
    for mode in [0u64, 8, 100] {
        let input = 0.75f32;
        let gained = input * gain;
        let out = engine.step(gained, 1000, mode);
        assert_eq!(out.mix, MixOp::Pass);
        assert_eq!(mixed(&out, gained), input * gain);
    }
}

#[test]
fn replace_mode_outputs_history() {
    let mut engine = DelayEngine::new(0.0f32);
    let gain = 0.5f32;
    // The first step reads the silent end of the buffer and stores 1.0 * gain.
    let out = engine.step(1.0 * gain, 1000, 3);
    assert_eq!(out.mix, MixOp::ReplaceTap);
    assert_eq!(mixed(&out, 1.0 * gain), 0.0);
    // The read cursor has wrapped onto the slot just written: the output is
    // the stored 1.0 * gain, whatever the current input sample is.
    let out = engine.step(123.0, 1000, 3);
    assert_eq!(mixed(&out, 123.0), 1.0 * gain);
}

#[test]
fn impulse_round_trip_mode_one() {
    let mut engine = DelayEngine::new(0.0f32);
    // Unit impulse under gain 1.0; the read cursor stands a full cycle of
    // 399999 positions behind the write cursor, which the wrap from the
    // sentinel slot turns into an echo at the very next sample.
    let out = engine.step(1.0, 1000, 1);
    assert_eq!(mixed(&out, 1.0), 1.0);
    for k in 2u32..=400001 {
        let out = engine.step(0.0, 1000, 1);
        let expected = if k == 2 { 1.0 } else { 0.0 };
        assert_eq!(mixed(&out, 0.0), expected, "sample {k}");
    }
}

#[test]
fn delayed_echo_after_time_change() {
    let mut engine = DelayEngine::new(0.0f32);
    for _ in 0..10000 {
        engine.step(0.0, 1000, 1);
    }
    assert_eq!(engine.write_cursor(), 10000);
    // Halving the time pulls the read cursor back to 4999, putting it
    // 5001 positions behind the write cursor.
    engine.observe_time(500);
    assert_eq!(engine.read_cursor(), 4999);
    let out = engine.step(1.0, 1000, 1);
    assert_eq!(mixed(&out, 1.0), 1.0);
    // The impulse sits in slot 10000 and comes back exactly one cursor
    // separation later.
    for j in 1..=6000 {
        let out = engine.step(0.0, 1000, 1);
        let expected = if j == 5001 { 1.0 } else { 0.0 };
        assert_eq!(mixed(&out, 0.0), expected, "silence step {j}");
    }
}

#[test]
fn time_change_rescales_read_cursor() {
    let mut engine = DelayEngine::new(0.0f32);
    for _ in 0..100 {
        engine.step(0.0, 1000, 1);
    }
    assert_eq!(engine.read_cursor(), 99);
    // First poll always differs from the initial last-observed value; a
    // full-scale time value keeps the cursor unchanged within truncation.
    engine.observe_time(1000);
    assert_eq!(engine.read_cursor(), 99);
    // An unchanged value never rescales.
    engine.observe_time(1000);
    assert_eq!(engine.read_cursor(), 99);
    // Halving the time halves the read cursor, truncating.
    engine.observe_time(500);
    assert_eq!(engine.read_cursor(), 49);
    // 49 * 999 / 1000 = 48951 / 1000, truncated.
    engine.observe_time(999);
    assert_eq!(engine.read_cursor(), 48);
}

#[test]
fn mode_two_upper_region_perturbation() {
    let mut engine = DelayEngine::new(0.0f32);
    for _ in 0..200003 {
        engine.step(0.0, 1000, 1);
    }
    assert_eq!(engine.write_cursor(), 200003);
    assert_eq!(engine.read_cursor(), 200002);
    let read_before = engine.read_cursor();
    // Incremented write cursor 200004: not a multiple of 5, a multiple of
    // 7, so the perturbation is exactly +2 on top of the baseline.
    engine.step(0.0, 1000, 2);
    assert_eq!(engine.read_cursor(), read_before + 1 + 2);
    // Incremented write cursor 200005: a multiple of 5, so the
    // perturbation is exactly -1, not -1 and +2 together.
    let read_before = engine.read_cursor();
    engine.step(0.0, 1000, 2);
    assert_eq!(engine.read_cursor(), read_before + 1 - 1);
}

#[test]
fn mode_two_lower_region_double_advance() {
    let mut engine = DelayEngine::new(0.0f32);
    engine.step(0.0, 1000, 2);
    assert_eq!(engine.read_cursor(), 0);
    engine.step(0.0, 1000, 2);
    // Write cursor far below the upper region: baseline +1 plus extra +1.
    assert_eq!(engine.read_cursor(), 2);
}

#[test]
fn silence_stays_silent() {
    let mut engine = DelayEngine::new(0.0f32);
    // All-zero input under gain 1.0, over every mode, both delay scales
    // and a time change: the gained samples are all 0.0.
    for round in 0u64..2000 {
        if round == 1000 {
            engine.observe_time(700);
        }
        let mode = round % 9;
        let delay = if round % 2 == 0 { 1000 } else { 500 };
        let out = engine.step(0.0 * 1.0, delay, mode);
        assert_eq!(mixed(&out, 0.0), 0.0);
    }
    for i in 0..400000 {
        assert_eq!(engine.read(i), 0.0);
    }
}

#[test]
fn mode_four_multiplies_tap() {
    let mut engine = DelayEngine::new(0.0f32);
    engine.step(2.0, 1000, 1);
    let out = engine.step(3.0, 1000, 4);
    assert_eq!(out.mix, MixOp::MulTap);
    assert_eq!(out.tap, 2.0);
    assert_eq!(mixed(&out, 3.0), 6.0);
}

#[test]
fn mode_five_mixes_both_taps() {
    let mut engine = DelayEngine::new(0.0f32);
    engine.step(2.0, 1000, 1);
    engine.step(3.0, 1000, 1);
    // Read cursor 1: both taps land on slot 1 under a full-scale delay.
    let out = engine.step(4.0, 1000, 5);
    assert_eq!(out.mix, MixOp::AddBothTaps);
    assert_eq!(mixed(&out, 4.0), 4.0 + 3.0 + 3.0);
    // Read cursor 2: the secondary tap is slot 2 * 500 / 1000 = 1.
    let out = engine.step(5.0, 500, 5);
    assert_eq!(mixed(&out, 5.0), 5.0 + 4.0 + 3.0);
}

#[test]
fn secondary_tap_index_truncates() {
    let mut engine = DelayEngine::new(0.0f32);
    engine.step(2.0, 1000, 1);
    engine.step(3.0, 1000, 1);
    engine.step(4.0, 1000, 1);
    // Read cursor 2: the secondary slot is 2 * 999 / 1000 = 1, truncated
    // from 1.998.
    let out = engine.step(0.0, 999, 5);
    assert_eq!(out.tap, 4.0);
    assert_eq!(out.tap2, 3.0);
}

#[test]
fn mode_six_triple_perturbation() {
    let mut engine = DelayEngine::new(0.0f32);
    for _ in 0..4 {
        engine.step(0.0, 1000, 1);
    }
    assert_eq!(engine.write_cursor(), 4);
    assert_eq!(engine.read_cursor(), 3);
    // Incremented write cursor 5: not a multiple of 3, no perturbation.
    engine.step(0.0, 1000, 6);
    assert_eq!(engine.read_cursor(), 4);
    // Incremented write cursor 6: a multiple of 3 and even, so -3.
    engine.step(0.0, 1000, 6);
    assert_eq!(engine.read_cursor(), 2);
    engine.step(0.0, 1000, 6);
    engine.step(0.0, 1000, 6);
    assert_eq!(engine.read_cursor(), 4);
    // Incremented write cursor 9: a multiple of 3 and odd, so +3.
    engine.step(0.0, 1000, 6);
    assert_eq!(engine.read_cursor(), 8);
}

#[test]
fn mode_seven_combines_rules() {
    let mut engine = DelayEngine::new(0.0f32);
    for _ in 0..4 {
        engine.step(0.0, 1000, 1);
    }
    // Below the upper region: incremented write cursor 5 gives no triple
    // perturbation and the extra +1 of the boundary rule.
    let out = engine.step(0.0, 1000, 7);
    assert_eq!(out.mix, MixOp::AddBothTaps);
    assert_eq!(engine.read_cursor(), 5);
    // Incremented write cursor 6: -3 from the triple rule, +1 from the
    // boundary rule.
    engine.step(0.0, 1000, 7);
    assert_eq!(engine.read_cursor(), 4);
}

#[test]
fn mode_seven_upper_region() {
    let mut engine = DelayEngine::new(0.0f32);
    for _ in 0..200003 {
        engine.step(0.0, 1000, 1);
    }
    assert_eq!(engine.read_cursor(), 200002);
    // Incremented write cursor 200004: a multiple of 3 and even (-3), not
    // a multiple of 5 but of 7 (+2).
    engine.step(0.0, 1000, 7);
    assert_eq!(engine.read_cursor(), 200002 + 1 - 3 + 2);
    // Incremented write cursor 200005: no triple perturbation, -1 from
    // the multiple-of-5 rule.
    engine.step(0.0, 1000, 7);
    assert_eq!(engine.read_cursor(), 200002 + 1 - 1);
}

#[test]
fn advance_read_boundary_rule() {
    let mut engine = DelayEngine::new(0.0f32);
    engine.advance_read(-5);
    assert_eq!(engine.read_cursor(), 399994);
    engine.advance_read(5);
    assert_eq!(engine.read_cursor(), 0);
    engine.advance_read(-1);
    assert_eq!(engine.read_cursor(), 0);
    engine.advance_read(10);
    assert_eq!(engine.read_cursor(), 10);
}

#[test]
fn write_wraps_and_sentinel_stays() {
    let mut engine = DelayEngine::new(0.0f32);
    engine.write(7.0);
    assert_eq!(engine.read(0), 7.0);
    assert_eq!(engine.write_cursor(), 1);
    while engine.write_cursor() < 399998 {
        engine.write(1.5);
    }
    engine.write(9.0);
    // The cursor reaches the boundary constant and resets, so the top
    // slot is never written.
    assert_eq!(engine.write_cursor(), 0);
    assert_eq!(engine.read(399998), 9.0);
    assert_eq!(engine.read(399999), 0.0);
}

#[test]
fn frame_processing_matches_steps() {
    let mut framed = DelayEngine::new(0.0f32);
    let frame = vec![1.0f32, 2.0];
    let outs = framed.process_frame(&frame, 500, 1000, 1);
    assert_eq!(outs.len(), 2);

    let mut stepped = DelayEngine::new(0.0f32);
    stepped.observe_time(500);
    let first = stepped.step(1.0, 1000, 1);
    let second = stepped.step(2.0, 1000, 1);
    assert_eq!(outs[0].tap, first.tap);
    assert_eq!(outs[0].tap2, first.tap2);
    assert_eq!(outs[0].mix, first.mix);
    assert_eq!(outs[1].tap, second.tap);
    assert_eq!(outs[1].tap2, second.tap2);
    assert_eq!(outs[1].mix, second.mix);
    assert_eq!(framed.read_cursor(), stepped.read_cursor());
    assert_eq!(framed.write_cursor(), stepped.write_cursor());
    assert_eq!(framed.read(0), 1.0);
    assert_eq!(framed.read(1), 2.0);
}

#[test]
fn empty_frame_only_polls_time() {
    let mut engine = DelayEngine::new(0.0f32);
    let outs = engine.process_frame(&Vec::new(), 500, 1000, 1);
    assert!(outs.is_empty());
    // 399999 * 500 / 1000, with the boundary rule applied afterwards.
    assert_eq!(engine.read_cursor(), 199999);
    assert_eq!(engine.write_cursor(), 0);
}
