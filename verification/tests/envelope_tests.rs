use mic_bridge::envelope::{apply_envelope, ramp_frames};

#[test]
fn envelope_should_reach_bounds() {
    let mut gain: u32 = 0;
    apply_envelope(&mut gain, true, 960, 48_000);
    assert!(gain > 0);
    apply_envelope(&mut gain, false, 9600, 48_000);
    // Gain is a numerator over the ramp length; 0.01 of unity is ramp / 100.
    assert!(gain * 100 <= ramp_frames(48_000));
}

#[test]
fn ramp_is_8ms_of_frames() {
    assert_eq!(ramp_frames(48_000), 384);
    assert_eq!(ramp_frames(1000), 8);
    // A degenerate rate still ramps within one frame.
    assert_eq!(ramp_frames(0), 1);
}

#[test]
fn envelope_reaches_unity_within_the_ramp() {
    let ramp = ramp_frames(48_000);
    let mut gain: u32 = 0;
    // 8 ms at 48 kHz is 384 frames: the ramp completes at or before that.
    apply_envelope(&mut gain, true, 384, 48_000);
    assert_eq!(gain, ramp);
}

#[test]
fn envelope_moves_one_step_per_frame() {
    let mut gain: u32 = 0;
    apply_envelope(&mut gain, true, 10, 48_000);
    assert_eq!(gain, 10);
    apply_envelope(&mut gain, false, 4, 48_000);
    assert_eq!(gain, 6);
    apply_envelope(&mut gain, false, 100, 48_000);
    assert_eq!(gain, 0);
}
