use mic_bridge::binding::{parse_mouse_binding, MouseButton};
use mic_bridge::gate::GateController;
use mic_bridge::hook::{
    apply_hook_event, extract_button, hook_reaction, modifiers_match, HookReaction, ModifierState,
    WM_LBUTTONDOWN, WM_LBUTTONUP, WM_RBUTTONDOWN, WM_XBUTTONDOWN, WM_XBUTTONUP,
};
use mic_bridge::types::GateMode;
use mic_bridge::error::AppError;
use mic_bridge::hook::{complete_hook_registration, HookController, HookRegistration, HOOK_TIMEOUT_MS};

fn no_mods() -> ModifierState {
    ModifierState { ctrl: false, alt: false, shift: false, meta: false }
}

#[test]
fn button_messages_decode_to_buttons_and_edges() {
    assert_eq!(
        extract_button(WM_LBUTTONDOWN, 0),
        Some((MouseButton::Left, true))
    );
    assert_eq!(
        extract_button(WM_LBUTTONUP, 0),
        Some((MouseButton::Left, false))
    );
    assert_eq!(
        extract_button(WM_RBUTTONDOWN, 0),
        Some((MouseButton::Right, true))
    );
    // The extended buttons carry their sub-code in the high word.
    assert_eq!(
        extract_button(WM_XBUTTONDOWN, 1 << 16),
        Some((MouseButton::Back, true))
    );
    assert_eq!(
        extract_button(WM_XBUTTONUP, 2 << 16),
        Some((MouseButton::Forward, false))
    );
    assert_eq!(extract_button(WM_XBUTTONDOWN, 3 << 16), None);
    assert_eq!(extract_button(0x0200, 0), None);
}

#[test]
fn modifier_match_is_exact() {
    let b = parse_mouse_binding("Ctrl+MouseRight").unwrap();
    let held = ModifierState { ctrl: true, alt: false, shift: false, meta: false };
    assert!(modifiers_match(&b, held));
    // "At least these" is not enough: extra held modifiers fail the match.
    let extra = ModifierState { ctrl: true, alt: false, shift: true, meta: false };
    assert!(!modifiers_match(&b, extra));
    assert!(!modifiers_match(&b, no_mods()));
}

#[test]
fn non_matching_events_pass_through() {
    let b = parse_mouse_binding("Ctrl+MouseRight").unwrap();
    let r = hook_reaction(&b, WM_LBUTTONDOWN, 0, no_mods(), GateMode::Ptt, false);
    assert_eq!(r, HookReaction::Pass);
}

#[test]
fn ptt_hook_opens_on_press_and_closes_on_release() {
    let b = parse_mouse_binding("MouseRight").unwrap();
    let mut gate = GateController::new(GateMode::Ptt);
    let matched = apply_hook_event(&mut gate, &b, GateMode::Ptt, WM_RBUTTONDOWN, 0, no_mods());
    assert!(matched);
    assert!(gate.is_open());
    assert_eq!(gate.snapshot().last_source, "mouse_hotkey");
    let matched = apply_hook_event(&mut gate, &b, GateMode::Ptt, 0x0205, 0, no_mods());
    assert!(matched);
    assert!(!gate.is_open());
}

#[test]
fn toggle_hook_flips_on_press_and_ignores_release() {
    let b = parse_mouse_binding("MouseLeft").unwrap();
    let mut gate = GateController::new(GateMode::Toggle);
    assert!(apply_hook_event(&mut gate, &b, GateMode::Toggle, WM_LBUTTONDOWN, 0, no_mods()));
    assert!(gate.is_open());
    // The release still counts as a match (observers are notified) but
    // writes nothing.
    assert!(apply_hook_event(&mut gate, &b, GateMode::Toggle, WM_LBUTTONUP, 0, no_mods()));
    assert!(gate.is_open());
    assert!(apply_hook_event(&mut gate, &b, GateMode::Toggle, WM_LBUTTONDOWN, 0, no_mods()));
    assert!(!gate.is_open());
}

#[test]
fn hybrid_hook_behaves_as_toggle() {
    // Hybrid = Toggle (unconfirmed product intent; observed behaviour kept).
    let b = parse_mouse_binding("MouseLeft").unwrap();
    let mut gate = GateController::new(GateMode::Hybrid);
    assert!(apply_hook_event(&mut gate, &b, GateMode::Hybrid, WM_LBUTTONDOWN, 0, no_mods()));
    assert!(gate.is_open());
    assert!(apply_hook_event(&mut gate, &b, GateMode::Hybrid, WM_LBUTTONDOWN, 0, no_mods()));
    assert!(!gate.is_open());
}

#[test]
fn wrong_modifiers_leave_the_gate_alone() {
    let b = parse_mouse_binding("Ctrl+MouseLeft").unwrap();
    let mut gate = GateController::new(GateMode::Ptt);
    let matched = apply_hook_event(&mut gate, &b, GateMode::Ptt, WM_LBUTTONDOWN, 0, no_mods());
    assert!(!matched);
    assert!(!gate.is_open());
}

#[test]
fn hook_registration_outcomes_map_to_results() {
    assert_eq!(HOOK_TIMEOUT_MS, 3000);
    assert_eq!(complete_hook_registration(HookRegistration::Installed(42)).unwrap(), 42);
    match complete_hook_registration(HookRegistration::Failed("hook install failed".into())) {
        Err(AppError::Hotkey(m)) => assert_eq!(m, "hook install failed"),
        other => panic!("expected a hotkey error, got {other:?}"),
    }
    match complete_hook_registration(HookRegistration::TimedOut) {
        Err(AppError::Hotkey(m)) => assert!(m.contains("timed out"), "{m}"),
        other => panic!("expected a hotkey error, got {other:?}"),
    }
}

#[test]
fn hook_replacement_and_idempotent_unregister() {
    let mut hc = HookController::new();
    // Nothing installed: unregister is safe and hands back no thread.
    assert_eq!(hc.unregister(), None);
    // First registration: nothing to tear down, then a hook installs.
    assert_eq!(hc.begin_register(), None);
    hc.finish_register(HookRegistration::Installed(11)).unwrap();
    // Replacing: the previous hook thread is handed back for the join.
    assert_eq!(hc.begin_register(), Some(11));
    hc.finish_register(HookRegistration::Installed(22)).unwrap();
    // A failed replacement leaves no hook installed.
    assert_eq!(hc.begin_register(), Some(22));
    assert!(hc.finish_register(HookRegistration::TimedOut).is_err());
    assert_eq!(hc.unregister(), None);
}
