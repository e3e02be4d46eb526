//! Verified core of a microphone gating bridge: a gate state machine,
//! a linear gain envelope, a bounded FIFO sample queue with underrun
//! accounting, an engine lifecycle supervisor, device-format negotiation,
//! and a mouse-binding accelerator parser.

pub mod binding;
pub mod bridge;
mod clock;
pub mod devices;
pub mod envelope;
pub mod error;
pub mod formats;
pub mod gate;
pub mod hook;
pub mod queue;
pub mod strutil;
pub mod supervisor;
pub mod types;
pub mod vmic;
