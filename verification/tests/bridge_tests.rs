use mic_bridge::bridge::{buffer_level_ms, AudioBridge};
use mic_bridge::types::{EngineState, GateState};

#[test]
fn buffer_level_formula() {
    // 48000 samples at 48000 Hz, 2 channels: 48000 / (48000*2/1000) = 500 ms.
    assert_eq!(buffer_level_ms(48_000, 48_000, 2), 500);
}

#[test]
fn buffer_level_zero_denominator_clamps_to_zero() {
    assert_eq!(buffer_level_ms(48_000, 0, 2), 0);
    assert_eq!(buffer_level_ms(48_000, 100, 0), 0);
}

#[test]
fn closed_gate_outputs_silence_and_counts_no_underrun() {
    let mut bridge = AudioBridge::new(1000, 1);
    let input: Vec<i32> = vec![800; 5];
    bridge.push_input(&input);
    let out = bridge.render_output(false, 8);
    assert_eq!(out, vec![0; 8]);
    let status = bridge.status(GateState::default());
    assert_eq!(status.xruns, 0);
    assert_eq!(status.engine_state, EngineState::Running);
}

#[test]
fn open_gate_ramps_then_plays_then_underruns() {
    // 1000 Hz mono: the 8 ms ramp is 8 frames; gain climbs one eighth per
    // frame, so a steady 800 input ramps 100, 200, ... up to 800.
    let mut bridge = AudioBridge::new(1000, 1);
    let input: Vec<i32> = vec![800; 10];
    bridge.push_input(&input);
    let out = bridge.render_output(true, 10);
    assert_eq!(out, vec![100, 200, 300, 400, 500, 600, 700, 800, 800, 800]);
    let status = bridge.status(GateState::default());
    assert_eq!(status.xruns, 0);
    // The queue has drained: each further frame is silence plus one underrun.
    let out = bridge.render_output(true, 3);
    assert_eq!(out, vec![0, 0, 0]);
    let status = bridge.status(GateState::default());
    assert_eq!(status.xruns, 3);
    // A closed microphone gate stops the underrun accounting.
    let out = bridge.render_output(false, 4);
    assert_eq!(out, vec![0, 0, 0, 0]);
    assert_eq!(bridge.status(GateState::default()).xruns, 3);
}

#[test]
fn closed_gate_does_not_drain_the_queue() {
    let mut bridge = AudioBridge::new(1000, 2);
    bridge.push_input(&vec![5; 2000]);
    // 2000 samples at 1000 Hz * 2 channels = 1000 ms worth of audio.
    assert_eq!(bridge.status(GateState::default()).buffer_level_ms, 1000);
    bridge.render_output(false, 500);
    assert_eq!(bridge.status(GateState::default()).buffer_level_ms, 1000);
}

#[test]
fn stream_error_is_recorded_and_reported() {
    let mut bridge = AudioBridge::new(48_000, 2);
    assert!(bridge.status(GateState::default()).last_error.is_none());
    bridge.record_error("output stream error: device lost".to_string());
    let status = bridge.status(GateState::default());
    assert_eq!(
        status.last_error.as_deref(),
        Some("output stream error: device lost")
    );
    // The bridge keeps running in a degraded state.
    assert_eq!(status.engine_state, EngineState::Running);
}

#[test]
fn negative_samples_scale_toward_zero() {
    let mut bridge = AudioBridge::new(1000, 1);
    bridge.push_input(&vec![-800; 10]);
    let out = bridge.render_output(true, 8);
    assert_eq!(out, vec![-100, -200, -300, -400, -500, -600, -700, -800]);
}
