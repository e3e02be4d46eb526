use vstd::prelude::*;
use vstd::string::*;

use crate::clock;

verus! {

/// Whether a device records (input) or plays (output).
#[derive(Clone, Copy, Debug, PartialEq, Eq, Structural)]
pub enum DeviceDirection {
    Input,
    Output,
}

/// One enumerated audio device, with its session-scoped identifier.
#[derive(Clone, Debug)]
pub struct DeviceInfo {
    pub id: String,
    pub name: String,
    pub direction: DeviceDirection,
    pub is_default: bool,
    pub is_virtual_candidate: bool,
}

/// The result of one device enumeration session.
#[derive(Clone, Debug)]
pub struct DeviceList {
    pub inputs: Vec<DeviceInfo>,
    pub outputs: Vec<DeviceInfo>,
}

/// How a trigger press or release moves the microphone gate.
#[derive(Clone, Copy, Debug, PartialEq, Eq, Structural)]
pub enum GateMode {
    Ptt,
    Toggle,
    Hybrid,
}

impl Default for GateMode {
    fn default() -> (r: Self)
        ensures
            r == GateMode::Ptt,
    {
        GateMode::Ptt
    }
}

/// The accelerator binding the user configured, and the mode it drives.
#[derive(Clone, Debug)]
pub struct HotkeyConfig {
    pub accelerator: String,
    pub mode: GateMode,
}

impl Default for HotkeyConfig {
    fn default() -> (r: Self)
        ensures
            r.accelerator@ == "Ctrl+Shift+V"@,
            r.mode == GateMode::Ptt,
    {
        HotkeyConfig { accelerator: String::from_str("Ctrl+Shift+V"), mode: GateMode::Ptt }
    }
}

/// The pair of device identifiers the bridge runs between.
#[derive(Clone, Debug)]
pub struct AudioRouteConfig {
    pub input_device_id: String,
    pub bridge_output_device_id: String,
}

impl Default for AudioRouteConfig {
    fn default() -> (r: Self)
        ensures
            r.input_device_id@ == Seq::<char>::empty(),
            r.bridge_output_device_id@ == Seq::<char>::empty(),
    {
        AudioRouteConfig { input_device_id: String::new(), bridge_output_device_id: String::new() }
    }
}

/// The persisted application configuration.
#[derive(Clone, Debug)]
pub struct AppConfig {
    pub route: AudioRouteConfig,
    pub hotkey: HotkeyConfig,
    pub launch_on_startup: bool,
    pub minimize_to_tray: bool,
}

impl Default for AppConfig {
    fn default() -> (r: Self)
        ensures
            r.route.input_device_id@ == Seq::<char>::empty(),
            r.route.bridge_output_device_id@ == Seq::<char>::empty(),
            r.hotkey.accelerator@ == "Ctrl+Shift+V"@,
            r.hotkey.mode == GateMode::Ptt,
            !r.launch_on_startup,
            r.minimize_to_tray,
    {
        AppConfig {
            route: AudioRouteConfig::default(),
            hotkey: HotkeyConfig::default(),
            launch_on_startup: false,
            minimize_to_tray: true,
        }
    }
}

/// A snapshot of the microphone gate: open flag, mode, the source of the
/// last write and when it happened (milliseconds since the Unix epoch).
#[derive(Clone, Debug)]
pub struct GateState {
    pub is_open: bool,
    pub mode: GateMode,
    pub last_source: String,
    pub changed_at: i64,
}

impl Default for GateState {
    fn default() -> (r: Self)
        ensures
            !r.is_open,
            r.mode == GateMode::Ptt,
            r.last_source@ == "system"@,
    {
        GateState {
            is_open: false,
            mode: GateMode::Ptt,
            last_source: String::from_str("system"),
            changed_at: clock::now_millis(),
        }
    }
}

/// Where the engine stands, as reported to observers.
#[derive(Clone, Copy, Debug, PartialEq, Eq, Structural)]
pub enum EngineState {
    Idle,
    Running,
    Error,
}

/// An externally observable snapshot of the running bridge.
#[derive(Clone, Debug)]
pub struct RuntimeStatus {
    pub engine_state: EngineState,
    pub buffer_level_ms: u32,
    pub xruns: u64,
    pub last_error: Option<String>,
    pub gate_state: GateState,
}

impl Default for RuntimeStatus {
    fn default() -> (r: Self)
        ensures
            r.engine_state == EngineState::Idle,
            r.buffer_level_ms == 0,
            r.xruns == 0,
            r.last_error is None,
            !r.gate_state.is_open,
            r.gate_state.mode == GateMode::Ptt,
    {
        RuntimeStatus {
            engine_state: EngineState::Idle,
            buffer_level_ms: 0,
            xruns: 0,
            last_error: None,
            gate_state: GateState::default(),
        }
    }
}

/// What the virtual microphone backend reported at startup.
#[derive(Clone, Debug)]
pub struct VirtualMicStatus {
    pub backend: String,
    pub ready: bool,
    pub detail: String,
}

} // verus!
