use vstd::prelude::*;
use vstd::string::*;

use crate::clock;
use crate::types::{GateMode, GateState};

verus! {

/// The value of the open flag after one toggle.
pub open spec fn spec_toggle(is_open: bool) -> bool {
    !is_open
}

/// What a trigger press or release does to the microphone gate under a
/// mode: `Some(next)` sets the open flag to `next`, `None` writes nothing.
///
/// Push-to-talk opens on press and closes on release. Toggle flips on press
/// and ignores the release. Hybrid behaves as Toggle does (unconfirmed
/// product intent; the observed behaviour is preserved).
pub open spec fn spec_gate_transition(mode: GateMode, pressed: bool, current: bool) -> Option<
    bool,
> {
    match mode {
        GateMode::Ptt => Some(pressed),
        GateMode::Toggle => if pressed {
            Some(spec_toggle(current))
        } else {
            None
        },
        GateMode::Hybrid => if pressed {
            Some(spec_toggle(current))
        } else {
            None
        },
    }
}

/// Law: toggling the microphone gate twice, with no intervening write,
/// restores the original open/closed value.
pub proof fn lemma_toggle_twice_restores(is_open: bool)
    ensures
        spec_toggle(spec_toggle(is_open)) == is_open,
{
}

/// Decides, without touching any gate, what a trigger event does.
pub fn gate_transition(mode: GateMode, pressed: bool, current: bool) -> (r: Option<bool>)
    ensures
        r == spec_gate_transition(mode, pressed, current),
{
    match mode {
        GateMode::Ptt => Some(pressed),
        GateMode::Toggle => if pressed {
            Some(!current)
        } else {
            None
        },
        GateMode::Hybrid => if pressed {
            Some(!current)
        } else {
            None
        },
    }
}

/// The authoritative open/closed state of the microphone gate.
///
/// All three trigger sources (keyboard accelerator, mouse hook, UI command)
/// funnel their writes through this one value; the embedding program
/// serializes them behind a single lock, which this sequential model renders
/// as `&mut self`. Because there is one state value, a read can never
/// disagree with the snapshot a completed write left behind.
#[derive(Debug)]
pub struct GateController {
    state: GateState,
}

impl View for GateController {
    type V = GateState;

    closed spec fn view(&self) -> GateState {
        self.state
    }
}

impl GateController {
    /// A closed gate in the given mode, attributed to the system.
    pub fn new(initial_mode: GateMode) -> (r: Self)
        ensures
            !r@.is_open,
            r@.mode == initial_mode,
            r@.last_source@ == "system"@,
    {
        let mut state = GateState::default();
        state.mode = initial_mode;
        GateController { state }
    }

    /// Replaces the mode and stamps the change; the open flag is untouched.
    pub fn set_mode(&mut self, mode: GateMode)
        ensures
            final(self)@.is_open == old(self)@.is_open,
            final(self)@.mode == mode,
            final(self)@.last_source@ == "mode"@,
    {
        self.state.mode = mode;
        self.state.changed_at = clock::now_millis();
        self.state.last_source = String::from_str("mode");
    }

    /// Sets the open flag and stamps which source asked for it.
    pub fn set_open(&mut self, open: bool, source: &str)
        ensures
            final(self)@.is_open == open,
            final(self)@.mode == old(self)@.mode,
            final(self)@.last_source@ == source@,
    {
        self.state.is_open = open;
        self.state.changed_at = clock::now_millis();
        self.state.last_source = String::from_str(source);
    }

    /// Reads the current open flag and delegates the inverted value to
    /// `set_open`.
    pub fn toggle(&mut self, source: &str)
        ensures
            final(self)@.is_open == spec_toggle(old(self)@.is_open),
            final(self)@.mode == old(self)@.mode,
            final(self)@.last_source@ == source@,
    {
        let next = !self.is_open();
        self.set_open(next, source);
    }

    /// The current open flag; in the embedding program this is the fast read
    /// the audio callback takes, and it always equals the flag of the
    /// snapshot that the last completed write left behind.
    pub fn is_open(&self) -> (r: bool)
        ensures
            r == self@.is_open,
    {
        self.state.is_open
    }

    /// The full state the last completed write left behind.
    pub fn snapshot(&self) -> (r: GateState)
        ensures
            r == self@,
    {
        GateState {
            is_open: self.state.is_open,
            mode: self.state.mode,
            last_source: self.state.last_source.clone(),
            changed_at: self.state.changed_at,
        }
    }

    /// Applies one trigger event: where the mode maps the event to a new open
    /// flag, writes it through `set_open`; otherwise writes nothing.
    pub fn apply_trigger(&mut self, mode: GateMode, pressed: bool, source: &str)
        ensures
            match spec_gate_transition(mode, pressed, old(self)@.is_open) {
                Some(next) => final(self)@.is_open == next && final(self)@.last_source@
                    == source@,
                None => final(self)@ == old(self)@,
            },
            final(self)@.mode == old(self)@.mode,
    {
        let current = self.is_open();
        match gate_transition(mode, pressed, current) {
            Some(next) => self.set_open(next, source),
            None => (),
        }
    }
}

} // verus!
