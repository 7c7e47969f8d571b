//! The response-side vocabulary: symbolic error codes, the error body,
//! the action names, and how a reload outcome is reported.

use vstd::prelude::*;
use crate::reload::ReloadOutcome;
use crate::text::str_eq;

verus! {

/// The error half of a response: a symbolic code and a human-readable
/// message.
pub struct ErrorBody {
    pub code: String,
    pub message: String,
}

/// The closed set of symbolic error codes a response can carry.
#[derive(Clone, Copy, Debug, PartialEq, Eq, Structural)]
pub enum ErrorCode {
    /// Schema, range or charset violation, including an unsupported key.
    InvalidParam,
    /// Malformed request id.
    BadRequestId,
    /// The input was not valid JSON.
    BadJson,
    /// The input could not be read at all.
    BadInput,
    /// The runtime filesystem root does not look real.
    BadEnv,
    /// The config file could not be written.
    ConfigWrite,
    /// The module-management tool is absent.
    ModprobeNotFound,
    /// The module-management tool ran and failed.
    ModprobeFailed,
    /// Reload required but the device is in use and not forced.
    BusyDevice,
    /// The device node never appeared within the retry budget.
    DeviceMissing,
    /// Effective parameters still disagree with the request after reload.
    ConfigMismatch,
    /// Unknown action name.
    UnknownAction,
    /// The response itself could not be encoded.
    SerializeFailed,
}

/// The wire form of each symbolic code.
pub open spec fn code_str_of(c: ErrorCode) -> Seq<char> {
    match c {
        ErrorCode::InvalidParam => "E_INVALID_PARAM"@,
        ErrorCode::BadRequestId => "E_REQUEST"@,
        ErrorCode::BadJson => "E_JSON"@,
        ErrorCode::BadInput => "E_INPUT"@,
        ErrorCode::BadEnv => "E_ENV"@,
        ErrorCode::ConfigWrite => "E_CONFIG_WRITE"@,
        ErrorCode::ModprobeNotFound => "E_MODPROBE_NOT_FOUND"@,
        ErrorCode::ModprobeFailed => "E_MODPROBE"@,
        ErrorCode::BusyDevice => "E_BUSY_DEVICE"@,
        ErrorCode::DeviceMissing => "E_DEVICE_MISSING"@,
        ErrorCode::ConfigMismatch => "E_CONFIG_MISMATCH"@,
        ErrorCode::UnknownAction => "E_ACTION"@,
        ErrorCode::SerializeFailed => "E_SERIALIZE"@,
    }
}

impl ErrorCode {
    /// The wire form of this code.
    pub fn as_str(&self) -> (r: &'static str)
        ensures
            r@ == code_str_of(*self),
    {
        match self {
            ErrorCode::InvalidParam => "E_INVALID_PARAM",
            ErrorCode::BadRequestId => "E_REQUEST",
            ErrorCode::BadJson => "E_JSON",
            ErrorCode::BadInput => "E_INPUT",
            ErrorCode::BadEnv => "E_ENV",
            ErrorCode::ConfigWrite => "E_CONFIG_WRITE",
            ErrorCode::ModprobeNotFound => "E_MODPROBE_NOT_FOUND",
            ErrorCode::ModprobeFailed => "E_MODPROBE",
            ErrorCode::BusyDevice => "E_BUSY_DEVICE",
            ErrorCode::DeviceMissing => "E_DEVICE_MISSING",
            ErrorCode::ConfigMismatch => "E_CONFIG_MISMATCH",
            ErrorCode::UnknownAction => "E_ACTION",
            ErrorCode::SerializeFailed => "E_SERIALIZE",
        }
    }
}

/// The actions the helper serves.
#[derive(Clone, Copy, Debug, PartialEq, Eq, Structural)]
pub enum ActionKind {
    Noop,
    V4l2Status,
    V4l2EnsureConfig,
    V4l2Load,
    V4l2Reload,
    SndStatus,
    SndLoad,
    SndUnload,
    Unknown,
}

/// The action named by a request's action string; anything unrecognized is
/// `Unknown`.
pub open spec fn action_of(s: Seq<char>) -> ActionKind {
    if s == "noop"@ {
        ActionKind::Noop
    } else if s == "v4l2.status"@ {
        ActionKind::V4l2Status
    } else if s == "v4l2.ensure_config"@ {
        ActionKind::V4l2EnsureConfig
    } else if s == "v4l2.load"@ {
        ActionKind::V4l2Load
    } else if s == "v4l2.reload"@ {
        ActionKind::V4l2Reload
    } else if s == "snd_aloop.status"@ {
        ActionKind::SndStatus
    } else if s == "snd_aloop.load"@ {
        ActionKind::SndLoad
    } else if s == "snd_aloop.unload"@ {
        ActionKind::SndUnload
    } else {
        ActionKind::Unknown
    }
}

/// Maps a request's action string to the action it names.
pub fn parse_action(action: &str) -> (r: ActionKind)
    ensures
        r == action_of(action@),
{
    if str_eq(action, "noop") {
        ActionKind::Noop
    } else if str_eq(action, "v4l2.status") {
        ActionKind::V4l2Status
    } else if str_eq(action, "v4l2.ensure_config") {
        ActionKind::V4l2EnsureConfig
    } else if str_eq(action, "v4l2.load") {
        ActionKind::V4l2Load
    } else if str_eq(action, "v4l2.reload") {
        ActionKind::V4l2Reload
    } else if str_eq(action, "snd_aloop.status") {
        ActionKind::SndStatus
    } else if str_eq(action, "snd_aloop.load") {
        ActionKind::SndLoad
    } else if str_eq(action, "snd_aloop.unload") {
        ActionKind::SndUnload
    } else {
        ActionKind::Unknown
    }
}

/// The error code a reload outcome is reported under; the three
/// successful outcomes carry none.
pub open spec fn outcome_code_of(o: ReloadOutcome) -> Option<ErrorCode> {
    match o {
        ReloadOutcome::BusyButReady => None,
        ReloadOutcome::AlreadyReady => None,
        ReloadOutcome::Reloaded => None,
        ReloadOutcome::RejectedBusy => Some(ErrorCode::BusyDevice),
        ReloadOutcome::ConfigWriteFailed => Some(ErrorCode::ConfigWrite),
        ReloadOutcome::ToolMissing => Some(ErrorCode::ModprobeNotFound),
        ReloadOutcome::ToolFailed => Some(ErrorCode::ModprobeFailed),
        ReloadOutcome::DeviceMissing => Some(ErrorCode::DeviceMissing),
        ReloadOutcome::WrongConfig => Some(ErrorCode::ConfigMismatch),
    }
}

/// Classifies a reload outcome for the response: a success reports no
/// error code, every failure reports its specific code.
pub fn outcome_code(o: ReloadOutcome) -> (r: Option<ErrorCode>)
    ensures
        r == outcome_code_of(o),
{
    match o {
        ReloadOutcome::BusyButReady => None,
        ReloadOutcome::AlreadyReady => None,
        ReloadOutcome::Reloaded => None,
        ReloadOutcome::RejectedBusy => Some(ErrorCode::BusyDevice),
        ReloadOutcome::ConfigWriteFailed => Some(ErrorCode::ConfigWrite),
        ReloadOutcome::ToolMissing => Some(ErrorCode::ModprobeNotFound),
        ReloadOutcome::ToolFailed => Some(ErrorCode::ModprobeFailed),
        ReloadOutcome::DeviceMissing => Some(ErrorCode::DeviceMissing),
        ReloadOutcome::WrongConfig => Some(ErrorCode::ConfigMismatch),
    }
}

/// The `reason` a successful no-reload outcome reports.
pub open spec fn outcome_reason_of(o: ReloadOutcome) -> Option<Seq<char>> {
    match o {
        ReloadOutcome::BusyButReady => Some("busy_but_already_ready"@),
        ReloadOutcome::AlreadyReady => Some("already_ready"@),
        _ => None,
    }
}

/// The reason string a successful no-reload outcome reports: the busy
/// device was left untouched, or the configuration already matched.
pub fn outcome_reason(o: ReloadOutcome) -> (r: Option<&'static str>)
    ensures
        match r {
            Some(s) => outcome_reason_of(o) == Some(s@),
            None => outcome_reason_of(o) is None,
        },
{
    match o {
        ReloadOutcome::BusyButReady => Some("busy_but_already_ready"),
        ReloadOutcome::AlreadyReady => Some("already_ready"),
        _ => None,
    }
}

/// Whether a reload outcome is reported as success.
pub open spec fn outcome_ok_of(o: ReloadOutcome) -> bool {
    outcome_code_of(o) is None
}

/// Whether the response for this outcome says `ok: true`.
pub fn outcome_ok(o: ReloadOutcome) -> (r: bool)
    ensures
        r == outcome_ok_of(o),
{
    outcome_code(o).is_none()
}

/// Whether the outcome means the module was actually reloaded.
pub open spec fn outcome_reloaded_of(o: ReloadOutcome) -> bool {
    o == ReloadOutcome::Reloaded
}

/// Whether the response for this outcome says `reloaded: true`.
pub fn outcome_reloaded(o: ReloadOutcome) -> (r: bool)
    ensures
        r == outcome_reloaded_of(o),
{
    match o {
        ReloadOutcome::Reloaded => true,
        _ => false,
    }
}

} // verus!
