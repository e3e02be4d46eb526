use mic_bridge::binding::{is_mouse_accelerator, parse_mouse_binding, MouseBinding, MouseButton};
use mic_bridge::error::AppError;

#[test]
fn ctrl_mouse_right_parses() {
    let b = parse_mouse_binding("Ctrl+MouseRight").unwrap();
    assert_eq!(
        b,
        MouseBinding {
            ctrl: true,
            alt: false,
            shift: false,
            meta: false,
            button: MouseButton::Right,
        }
    );
}

#[test]
fn bare_mouse_left_parses() {
    let b = parse_mouse_binding("MouseLeft").unwrap();
    assert_eq!(
        b,
        MouseBinding {
            ctrl: false,
            alt: false,
            shift: false,
            meta: false,
            button: MouseButton::Left,
        }
    );
}

#[test]
fn unknown_mouse_token_is_rejected_naming_it() {
    let e = parse_mouse_binding("MouseFoo").unwrap_err();
    match e {
        AppError::Hotkey(m) => assert!(m.contains("MouseFoo"), "message was: {m}"),
        other => panic!("expected a hotkey error, got {other:?}"),
    }
}

#[test]
fn missing_button_token_is_rejected() {
    let e = parse_mouse_binding("Ctrl+Shift").unwrap_err();
    match e {
        AppError::Hotkey(m) => assert!(m.contains("missing"), "message was: {m}"),
        other => panic!("expected a hotkey error, got {other:?}"),
    }
}

#[test]
fn unknown_token_is_rejected_naming_it() {
    let e = parse_mouse_binding("Ctrl+F1+MouseLeft").unwrap_err();
    match e {
        AppError::Hotkey(m) => assert!(m.contains("F1"), "message was: {m}"),
        other => panic!("expected a hotkey error, got {other:?}"),
    }
}

#[test]
fn second_button_token_is_rejected() {
    let e = parse_mouse_binding("MouseLeft+MouseRight").unwrap_err();
    match e {
        AppError::Hotkey(m) => assert!(m.contains("MouseRight"), "message was: {m}"),
        other => panic!("expected a hotkey error, got {other:?}"),
    }
}

#[test]
fn tokens_are_trimmed_and_case_insensitive() {
    let b = parse_mouse_binding("  ctrl + SHIFT + mousemiddle ").unwrap();
    assert!(b.ctrl && b.shift && !b.alt && !b.meta);
    assert_eq!(b.button, MouseButton::Middle);
}

#[test]
fn all_modifier_spellings_are_recognized() {
    let b = parse_mouse_binding("Control+Alt+Win+MouseBack").unwrap();
    assert!(b.ctrl && b.alt && b.meta && !b.shift);
    assert_eq!(b.button, MouseButton::Back);
    let b = parse_mouse_binding("Super+MouseForward").unwrap();
    assert!(b.meta);
    assert_eq!(b.button, MouseButton::Forward);
    let b = parse_mouse_binding("Meta+MouseForward").unwrap();
    assert!(b.meta);
}

#[test]
fn mouse_accelerators_are_routed_by_prefix() {
    assert!(is_mouse_accelerator("Ctrl+MouseRight"));
    assert!(is_mouse_accelerator("mouseleft"));
    assert!(is_mouse_accelerator("MouseFoo"));
    assert!(!is_mouse_accelerator("Ctrl+Shift+V"));
    assert!(!is_mouse_accelerator(""));
}
