//! Instance bootstrap decisions: which layers and extensions to enable,
//! the requested API version, and how the debug-messenger callback
//! classifies and answers each message.

use vstd::prelude::*;
use vstd::string::StringExecFns;

verus! {

/// Severity bit by which the API flags a verbose diagnostic message.
pub const SEVERITY_VERBOSE: u32 = 0x1;
/// Severity bit by which the API flags an informational message.
pub const SEVERITY_INFO: u32 = 0x10;
/// Severity bit by which the API flags a warning.
pub const SEVERITY_WARNING: u32 = 0x100;
/// Severity bit by which the API flags an error.
pub const SEVERITY_ERROR: u32 = 0x1000;

/// The name of the one validation layer enabled when validation is
/// requested.
pub fn validation_layer_name() -> (r: &'static str)
    ensures
        r@ == "VK_LAYER_KHRONOS_validation"@,
{
    "VK_LAYER_KHRONOS_validation"
}

/// The name of the debug-messenger extension enabled alongside the
/// validation layer.
pub fn debug_utils_extension_name() -> (r: &'static str)
    ensures
        r@ == "VK_EXT_debug_utils"@,
{
    "VK_EXT_debug_utils"
}

/// The layers to enable on the instance: the validation layer alone when
/// validation is requested, none otherwise.
pub fn instance_layers(enable_validation: bool) -> (r: Vec<String>)
    ensures
        enable_validation ==> r@.len() == 1 && r@[0]@ == "VK_LAYER_KHRONOS_validation"@,
        !enable_validation ==> r@.len() == 0,
{
    let mut r: Vec<String> = Vec::new();
    if enable_validation {
        r.push(String::from_str(validation_layer_name()));
    }
    r
}

/// The extensions to enable on the instance: the platform-required
/// presentation extensions as the window system reports them, in order,
/// with the debug extension appended when validation is requested.
pub fn instance_extensions(platform: Vec<String>, enable_validation: bool) -> (r: Vec<String>)
    ensures
        r@.len() == platform@.len() + (if enable_validation { 1int } else { 0int }),
        forall|i: int| 0 <= i < platform@.len() ==> r@[i] == platform@[i],
        enable_validation ==> r@[platform@.len() as int]@ == "VK_EXT_debug_utils"@,
{
    let mut r = platform;
    if enable_validation {
        r.push(String::from_str(debug_utils_extension_name()));
    }
    r
}

/// The packed API version word: variant, major, minor and patch in the
/// bit layout the API defines.
pub open spec fn packed_api_version(variant: u32, major: u32, minor: u32, patch: u32) -> u32 {
    (variant << 29) | (major << 22) | (minor << 12) | patch
}

/// Pack an API version from its four components.
pub fn make_api_version(variant: u32, major: u32, minor: u32, patch: u32) -> (r: u32)
    ensures
        r == packed_api_version(variant, major, minor, patch),
{
    (variant << 29u32) | (major << 22u32) | (minor << 12u32) | patch
}

/// The API version the instance requests.
pub fn requested_api_version() -> (r: u32)
    ensures
        r == packed_api_version(0, 1, 0, 106),
{
    make_api_version(0, 1, 0, 106)
}

/// The log level a validation message is forwarded at.
#[derive(Clone, Copy, Debug, PartialEq, Eq, Structural)]
pub enum LogLevel {
    Error,
    Warn,
    Info,
    Trace,
}

/// The level a reported severity word classifies to: the severity flag
/// bits are ordered, so a word at or above a flag's value carries at
/// least that gravity.
pub open spec fn severity_level(severity: u32) -> LogLevel {
    if severity >= SEVERITY_ERROR {
        LogLevel::Error
    } else if severity >= SEVERITY_WARNING {
        LogLevel::Warn
    } else if severity >= SEVERITY_INFO {
        LogLevel::Info
    } else {
        LogLevel::Trace
    }
}

/// What the debug-messenger callback does with one message: the level to
/// forward it at, and whether to ask the API to suppress the call that
/// triggered it.
#[derive(Clone, Copy, Debug, PartialEq, Eq, Structural)]
pub struct DebugMessageAction {
    pub level: LogLevel,
    /// Always false: instrumentation must never fail the call it
    /// observes.
    pub suppress: bool,
}

/// Classify one validation message by its severity word. The verdict
/// never suppresses the instrumented call.
pub fn handle_debug_message(severity: u32) -> (r: DebugMessageAction)
    ensures
        r.level == severity_level(severity),
        r.suppress == false,
{
    let level = if severity >= SEVERITY_ERROR {
        LogLevel::Error
    } else if severity >= SEVERITY_WARNING {
        LogLevel::Warn
    } else if severity >= SEVERITY_INFO {
        LogLevel::Info
    } else {
        LogLevel::Trace
    };
    DebugMessageAction { level, suppress: false }
}

} // verus!
