use mic_bridge::gate::{gate_transition, GateController};
use mic_bridge::types::GateMode;

#[test]
fn gate_toggle_should_flip_state() {
    let mut gate = GateController::new(GateMode::Ptt);
    assert!(!gate.is_open());
    gate.toggle("test");
    assert!(gate.is_open());
    gate.toggle("test");
    assert!(!gate.is_open());
}

#[test]
fn set_open_stamps_source_and_snapshot_agrees() {
    let mut gate = GateController::new(GateMode::Toggle);
    gate.set_open(true, "ui");
    assert!(gate.is_open());
    let snap = gate.snapshot();
    assert!(snap.is_open);
    assert_eq!(snap.mode, GateMode::Toggle);
    assert_eq!(snap.last_source, "ui");
    // The fast read and the snapshot never disagree after a completed write.
    assert_eq!(gate.is_open(), snap.is_open);
}

#[test]
fn set_mode_keeps_open_flag() {
    let mut gate = GateController::new(GateMode::Ptt);
    gate.set_open(true, "ui");
    gate.set_mode(GateMode::Hybrid);
    assert!(gate.is_open());
    let snap = gate.snapshot();
    assert_eq!(snap.mode, GateMode::Hybrid);
    assert_eq!(snap.last_source, "mode");
}

#[test]
fn ptt_transition_follows_press_and_release() {
    assert_eq!(gate_transition(GateMode::Ptt, true, false), Some(true));
    assert_eq!(gate_transition(GateMode::Ptt, false, true), Some(false));
}

#[test]
fn toggle_transition_flips_on_press_only() {
    assert_eq!(gate_transition(GateMode::Toggle, true, false), Some(true));
    assert_eq!(gate_transition(GateMode::Toggle, true, true), Some(false));
    assert_eq!(gate_transition(GateMode::Toggle, false, true), None);
}

#[test]
fn hybrid_transition_equals_toggle_unconfirmed() {
    // Hybrid behaves exactly as Toggle does (unconfirmed product intent;
    // the observed toggle-on-press behaviour is preserved).
    for pressed in [true, false] {
        for current in [true, false] {
            assert_eq!(
                gate_transition(GateMode::Hybrid, pressed, current),
                gate_transition(GateMode::Toggle, pressed, current)
            );
        }
    }
}

#[test]
fn apply_trigger_ptt_and_toggle() {
    let mut gate = GateController::new(GateMode::Ptt);
    gate.apply_trigger(GateMode::Ptt, true, "hotkey");
    assert!(gate.is_open());
    gate.apply_trigger(GateMode::Ptt, false, "hotkey");
    assert!(!gate.is_open());
    gate.apply_trigger(GateMode::Toggle, true, "hotkey");
    assert!(gate.is_open());
    // A release in toggle mode writes nothing.
    gate.apply_trigger(GateMode::Toggle, false, "hotkey");
    assert!(gate.is_open());
    assert_eq!(gate.snapshot().last_source, "hotkey");
}
