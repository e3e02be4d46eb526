use vstd::prelude::*;
use vstd::string::*;

use crate::binding::{MouseBinding, MouseButton};
use crate::error::AppError;
use crate::gate::{spec_gate_transition, GateController};
use crate::types::GateMode;

verus! {

/// The hook installation budget: the caller waits this long for the hook
/// thread to report before treating the registration as failed.
pub const HOOK_TIMEOUT_MS: u64 = 3000;

/// How the hook thread's installation handshake ended, as reported within
/// the budget.
#[derive(Clone, Debug)]
pub enum HookRegistration {
    /// The hook is installed; the thread's identifier lets an unregister
    /// post the targeted quit message.
    Installed(u32),
    /// Installation failed at the OS level, with its error text.
    Failed(String),
    /// No report arrived within the budget.
    TimedOut,
}

/// Settles the hook installation handshake: an installed hook hands back
/// the thread to signal on unregister; a failure surfaces its text as a
/// hotkey error; a timeout surfaces as a hotkey error too, after the
/// caller has joined the thread, so that none leaks.
pub fn complete_hook_registration(outcome: HookRegistration) -> (r: Result<u32, AppError>)
    ensures
        match outcome {
            HookRegistration::Installed(thread_id) => r matches Ok(t) && t == thread_id,
            HookRegistration::Failed(msg) => r matches Err(AppError::Hotkey(m)) && m@ == msg@,
            HookRegistration::TimedOut => r matches Err(AppError::Hotkey(m)) && m@
                == "mouse hook registration timed out"@,
        },
{
    match outcome {
        HookRegistration::Installed(thread_id) => Ok(thread_id),
        HookRegistration::Failed(msg) => Err(AppError::Hotkey(msg)),
        HookRegistration::TimedOut => Err(
            AppError::Hotkey(String::from_str("mouse hook registration timed out")),
        ),
    }
}

/// Message code of a left-button press in a low-level mouse hook.
pub const WM_LBUTTONDOWN: u32 = 0x0201;

/// Message code of a left-button release in a low-level mouse hook.
pub const WM_LBUTTONUP: u32 = 0x0202;

/// Message code of a right-button press in a low-level mouse hook.
pub const WM_RBUTTONDOWN: u32 = 0x0204;

/// Message code of a right-button release in a low-level mouse hook.
pub const WM_RBUTTONUP: u32 = 0x0205;

/// Message code of a middle-button press in a low-level mouse hook.
pub const WM_MBUTTONDOWN: u32 = 0x0207;

/// Message code of a middle-button release in a low-level mouse hook.
pub const WM_MBUTTONUP: u32 = 0x0208;

/// Message code of an extended-button press in a low-level mouse hook.
pub const WM_XBUTTONDOWN: u32 = 0x020B;

/// Message code of an extended-button release in a low-level mouse hook.
pub const WM_XBUTTONUP: u32 = 0x020C;

/// Sub-code of the first extended button (back).
pub const XBUTTON1: u32 = 1;

/// Sub-code of the second extended button (forward).
pub const XBUTTON2: u32 = 2;

/// The lifecycle of the one active hook: at most one binding is live at
/// any time. Registering first tears the previous hook down (replace
/// semantics); a failed registration leaves nothing installed; an
/// unregister with nothing installed does nothing.
#[derive(Debug)]
pub struct HookController {
    active: Option<u32>,
}

impl HookController {
    /// The installed hook thread, if one is live.
    pub closed spec fn spec_active(&self) -> Option<u32> {
        self.active
    }

    /// A controller with no hook installed.
    pub fn new() -> (r: Self)
        ensures
            r.spec_active() is None,
    {
        HookController { active: None }
    }

    /// Begins a registration: hands back the previously installed hook
    /// thread, which the caller must quit and join before installing the
    /// replacement; afterwards nothing is installed until the handshake
    /// settles.
    pub fn begin_register(&mut self) -> (previous: Option<u32>)
        ensures
            previous == old(self).spec_active(),
            final(self).spec_active() is None,
    {
        let previous = self.active;
        self.active = None;
        previous
    }

    /// Settles the installation handshake: only a report of success leaves
    /// a hook installed, under the thread that carries it.
    pub fn finish_register(&mut self, outcome: HookRegistration) -> (r: Result<(), AppError>)
        ensures
            match outcome {
                HookRegistration::Installed(thread_id) => r is Ok && final(self).spec_active()
                    == Some(thread_id),
                HookRegistration::Failed(msg) => (r matches Err(AppError::Hotkey(m)) && m@
                    == msg@) && final(self).spec_active() is None,
                HookRegistration::TimedOut => (r matches Err(AppError::Hotkey(m)) && m@
                    == "mouse hook registration timed out"@) && final(self).spec_active()
                    is None,
            },
    {
        match complete_hook_registration(outcome) {
            Ok(thread_id) => {
                self.active = Some(thread_id);
                Ok(())
            },
            Err(e) => {
                self.active = None;
                Err(e)
            },
        }
    }

    /// Takes an unregister request: hands back the hook thread to quit and
    /// join, if one is installed; safe to call when nothing is.
    pub fn unregister(&mut self) -> (previous: Option<u32>)
        ensures
            previous == old(self).spec_active(),
            final(self).spec_active() is None,
    {
        let previous = self.active;
        self.active = None;
        previous
    }
}

/// The modifier keys held at the moment a mouse event fired.
#[derive(Clone, Copy, Debug, PartialEq, Eq, Structural)]
pub struct ModifierState {
    pub ctrl: bool,
    pub alt: bool,
    pub shift: bool,
    pub meta: bool,
}

/// Which button a hook message names and whether it was pressed or
/// released. For the two extended buttons the high word of the event's
/// mouse data disambiguates back from forward; any other sub-code, and any
/// other message code, names no button.
pub open spec fn spec_extract_button(w_param: u32, mouse_data: u32) -> Option<(MouseButton, bool)> {
    if w_param == WM_LBUTTONDOWN {
        Some((MouseButton::Left, true))
    } else if w_param == WM_LBUTTONUP {
        Some((MouseButton::Left, false))
    } else if w_param == WM_RBUTTONDOWN {
        Some((MouseButton::Right, true))
    } else if w_param == WM_RBUTTONUP {
        Some((MouseButton::Right, false))
    } else if w_param == WM_MBUTTONDOWN {
        Some((MouseButton::Middle, true))
    } else if w_param == WM_MBUTTONUP {
        Some((MouseButton::Middle, false))
    } else if w_param == WM_XBUTTONDOWN || w_param == WM_XBUTTONUP {
        let xbutton = (mouse_data >> 16) & 0xffff;
        if xbutton == XBUTTON1 {
            Some((MouseButton::Back, w_param == WM_XBUTTONDOWN))
        } else if xbutton == XBUTTON2 {
            Some((MouseButton::Forward, w_param == WM_XBUTTONDOWN))
        } else {
            None
        }
    } else {
        None
    }
}

/// Decodes one hook message into a button and its press/release edge.
pub fn extract_button(w_param: u32, mouse_data: u32) -> (r: Option<(MouseButton, bool)>)
    ensures
        r == spec_extract_button(w_param, mouse_data),
{
    if w_param == WM_LBUTTONDOWN {
        Some((MouseButton::Left, true))
    } else if w_param == WM_LBUTTONUP {
        Some((MouseButton::Left, false))
    } else if w_param == WM_RBUTTONDOWN {
        Some((MouseButton::Right, true))
    } else if w_param == WM_RBUTTONUP {
        Some((MouseButton::Right, false))
    } else if w_param == WM_MBUTTONDOWN {
        Some((MouseButton::Middle, true))
    } else if w_param == WM_MBUTTONUP {
        Some((MouseButton::Middle, false))
    } else if w_param == WM_XBUTTONDOWN || w_param == WM_XBUTTONUP {
        let xbutton = (mouse_data >> 16) & 0xffff;
        if xbutton == XBUTTON1 {
            Some((MouseButton::Back, w_param == WM_XBUTTONDOWN))
        } else if xbutton == XBUTTON2 {
            Some((MouseButton::Forward, w_param == WM_XBUTTONDOWN))
        } else {
            None
        }
    } else {
        None
    }
}

/// An exact modifier match: every flag of the binding equals the live key
/// state, with no "at least these" leniency.
pub open spec fn spec_modifiers_match(binding: MouseBinding, mods: ModifierState) -> bool {
    binding.ctrl == mods.ctrl && binding.alt == mods.alt && binding.shift == mods.shift
        && binding.meta == mods.meta
}

/// Compares the binding's modifier chord against the live key state.
pub fn modifiers_match(binding: &MouseBinding, mods: ModifierState) -> (r: bool)
    ensures
        r == spec_modifiers_match(*binding, mods),
{
    binding.ctrl == mods.ctrl && binding.alt == mods.alt && binding.shift == mods.shift
        && binding.meta == mods.meta
}

/// What one hook message asks of the microphone gate.
#[derive(Clone, Copy, Debug, PartialEq, Eq, Structural)]
pub enum HookReaction {
    /// The event does not match the binding: pass it on, touch nothing.
    Pass,
    /// The event matches: apply the optional gate write, then publish the
    /// new gate snapshot to observers.
    Trigger(Option<bool>),
}

/// The decision the hook callback takes for one message: match the decoded
/// button against the binding, the live modifiers exactly against the
/// binding's chord, and on a match apply the mode's transition for the
/// press/release edge.
pub open spec fn spec_hook_reaction(
    binding: MouseBinding,
    w_param: u32,
    mouse_data: u32,
    mods: ModifierState,
    mode: GateMode,
    current_open: bool,
) -> HookReaction {
    match spec_extract_button(w_param, mouse_data) {
        None => HookReaction::Pass,
        Some((button, pressed)) => if button == binding.button && spec_modifiers_match(
            binding,
            mods,
        ) {
            HookReaction::Trigger(spec_gate_transition(mode, pressed, current_open))
        } else {
            HookReaction::Pass
        },
    }
}

/// Decides what one hook message asks of the microphone gate.
pub fn hook_reaction(
    binding: &MouseBinding,
    w_param: u32,
    mouse_data: u32,
    mods: ModifierState,
    mode: GateMode,
    current_open: bool,
) -> (r: HookReaction)
    ensures
        r == spec_hook_reaction(*binding, w_param, mouse_data, mods, mode, current_open),
{
    match extract_button(w_param, mouse_data) {
        None => HookReaction::Pass,
        Some((button, pressed)) => {
            if button == binding.button && modifiers_match(binding, mods) {
                match mode {
                    GateMode::Ptt => HookReaction::Trigger(Some(pressed)),
                    GateMode::Toggle | GateMode::Hybrid => {
                        if pressed {
                            HookReaction::Trigger(Some(!current_open))
                        } else {
                            HookReaction::Trigger(None)
                        }
                    },
                }
            } else {
                HookReaction::Pass
            }
        },
    }
}

/// Runs one hook message against the microphone gate: on a matching event
/// the mode's transition is written through it, attributed to the mouse
/// hotkey.
/// Returns whether the event matched, so the caller knows to publish the
/// new snapshot.
pub fn apply_hook_event(
    gate: &mut GateController,
    binding: &MouseBinding,
    mode: GateMode,
    w_param: u32,
    mouse_data: u32,
    mods: ModifierState,
) -> (matched: bool)
    ensures
        matched == (spec_hook_reaction(
            *binding,
            w_param,
            mouse_data,
            mods,
            mode,
            old(gate)@.is_open,
        ) != HookReaction::Pass),
        match spec_hook_reaction(*binding, w_param, mouse_data, mods, mode, old(gate)@.is_open) {
            HookReaction::Trigger(Some(next)) => final(gate)@.is_open == next
                && final(gate)@.last_source@ == "mouse_hotkey"@,
            _ => final(gate)@ == old(gate)@,
        },
        final(gate)@.mode == old(gate)@.mode,
{
    let current = gate.is_open();
    match hook_reaction(binding, w_param, mouse_data, mods, mode, current) {
        HookReaction::Pass => false,
        HookReaction::Trigger(Some(next)) => {
            gate.set_open(next, "mouse_hotkey");
            true
        },
        HookReaction::Trigger(None) => true,
    }
}

} // verus!
