use vstd::prelude::*;
use vstd::string::*;

verus! {

/// Typed errors of the bridge core.
///
/// Each variant carries a human-readable detail string: for parse errors it
/// names the offending input, for device errors the device that was asked for.
#[derive(Clone, Debug)]
pub enum AppError {
    /// A malformed route or accelerator string.
    InvalidArgument(String),
    /// A device identifier that does not resolve.
    DeviceNotFound(String),
    /// Format negotiation or stream creation failed.
    Audio(String),
    /// Configuration could not be loaded or stored.
    Config(String),
    /// An accelerator could not be parsed, or a hook could not be installed.
    Hotkey(String),
    /// A timeout, or an OS-level failure of threading or hooking.
    System(String),
}

impl AppError {
    /// The detail string carried by the error, whatever its kind.
    pub open spec fn spec_detail(&self) -> Seq<char> {
        match self {
            AppError::InvalidArgument(s) => s@,
            AppError::DeviceNotFound(s) => s@,
            AppError::Audio(s) => s@,
            AppError::Config(s) => s@,
            AppError::Hotkey(s) => s@,
            AppError::System(s) => s@,
        }
    }

    /// Returns the detail string carried by the error.
    pub fn detail(&self) -> (r: &String)
        ensures
            r@ == self.spec_detail(),
    {
        match self {
            AppError::InvalidArgument(s) => s,
            AppError::DeviceNotFound(s) => s,
            AppError::Audio(s) => s,
            AppError::Config(s) => s,
            AppError::Hotkey(s) => s,
            AppError::System(s) => s,
        }
    }

    /// A short label for the kind of error, for display.
    pub fn kind_label(&self) -> (r: String)
        ensures
            matches!(self, AppError::InvalidArgument(_)) ==> r@ == "invalid argument"@,
            matches!(self, AppError::DeviceNotFound(_)) ==> r@ == "device not found"@,
            matches!(self, AppError::Audio(_)) ==> r@ == "audio"@,
            matches!(self, AppError::Config(_)) ==> r@ == "config"@,
            matches!(self, AppError::Hotkey(_)) ==> r@ == "hotkey"@,
            matches!(self, AppError::System(_)) ==> r@ == "system"@,
    {
        match self {
            AppError::InvalidArgument(_) => String::from_str("invalid argument"),
            AppError::DeviceNotFound(_) => String::from_str("device not found"),
            AppError::Audio(_) => String::from_str("audio"),
            AppError::Config(_) => String::from_str("config"),
            AppError::Hotkey(_) => String::from_str("hotkey"),
            AppError::System(_) => String::from_str("system"),
        }
    }
}

} // verus!
