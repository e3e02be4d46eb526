use mic_bridge::types::{AppConfig, GateMode, GateState, RuntimeStatus};

#[test]
fn default_config_is_valid() {
    let cfg = AppConfig::default();
    assert_eq!(cfg.hotkey.accelerator, "Ctrl+Shift+V");
}

#[test]
fn default_config_rest_of_fields() {
    let cfg = AppConfig::default();
    assert_eq!(cfg.hotkey.mode, GateMode::Ptt);
    assert_eq!(cfg.route.input_device_id, "");
    assert_eq!(cfg.route.bridge_output_device_id, "");
    assert!(!cfg.launch_on_startup);
    assert!(cfg.minimize_to_tray);
}

#[test]
fn default_gate_state_is_closed_and_stamped() {
    let s = GateState::default();
    assert!(!s.is_open);
    assert_eq!(s.mode, GateMode::Ptt);
    assert_eq!(s.last_source, "system");
    // The clock reports milliseconds since the Unix epoch.
    assert!(s.changed_at >= 0);
}

#[test]
fn default_runtime_status_is_idle() {
    let s = RuntimeStatus::default();
    assert_eq!(s.buffer_level_ms, 0);
    assert_eq!(s.xruns, 0);
    assert!(s.last_error.is_none());
    assert!(!s.gate_state.is_open);
}
