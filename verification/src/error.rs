//! The session's errors, the statuses of the transport, and the result codes.

use vstd::prelude::*;

verus! {

/// Code that the host receives for a call that succeeded or was accepted.
pub const CODE_OK: i32 = 0;

/// Code that the host receives for a call that failed, whatever the reason.
pub const CODE_FAILED: i32 = -1;

/// Why an operation of the session failed.
#[derive(Clone, Copy, Debug, PartialEq, Eq, Structural)]
pub enum SessionError {
    /// An argument at the boundary was missing or had no positive length.
    MalformedInput,
    /// Scanning was asked for before the watcher existed.
    WatcherNotInitialized,
    /// No scanned device matches the name.
    DeviceNotFound,
    /// The operation needs a connected device.
    NotConnected,
    /// No discovered characteristic has the identifier.
    CharacteristicNotFound,
    /// The transport listed no services: it completed without success.
    ServiceQueryFailed,
    /// The transport completed a read without success.
    ReadFailed,
    /// The transport completed the descriptor write that turns notifications
    /// on without success.
    EnableNotificationFailed,
    /// The transport completed the descriptor write that turns notifications
    /// off without success.
    DisableNotificationFailed,
    /// The transport raised an error, with its code.
    Transport(i32),
}

/// The text that describes an error.
pub open spec fn message_text(e: SessionError) -> Seq<char> {
    match e {
        SessionError::MalformedInput => "Malformed input"@,
        SessionError::WatcherNotInitialized => "Watcher not initialized"@,
        SessionError::DeviceNotFound => "Device not found in scan results"@,
        SessionError::NotConnected => "Not connected"@,
        SessionError::CharacteristicNotFound => "Characteristic not found"@,
        SessionError::ServiceQueryFailed => "Failed to get services"@,
        SessionError::ReadFailed => "Read failed"@,
        SessionError::EnableNotificationFailed => "Enable notification failed"@,
        SessionError::DisableNotificationFailed => "Disable notification failed"@,
        SessionError::Transport(_) => "Transport error"@,
    }
}

/// The numeric code of an error: the transport's own code where it raised
/// one, the generic failure code otherwise.
pub open spec fn error_code(e: SessionError) -> i32 {
    match e {
        SessionError::Transport(code) => code,
        _ => CODE_FAILED,
    }
}

impl SessionError {
    /// The text that describes this error.
    pub fn message(&self) -> (r: &'static str)
        ensures
            r@ == message_text(*self),
    {
        match self {
            SessionError::MalformedInput => "Malformed input",
            SessionError::WatcherNotInitialized => "Watcher not initialized",
            SessionError::DeviceNotFound => "Device not found in scan results",
            SessionError::NotConnected => "Not connected",
            SessionError::CharacteristicNotFound => "Characteristic not found",
            SessionError::ServiceQueryFailed => "Failed to get services",
            SessionError::ReadFailed => "Read failed",
            SessionError::EnableNotificationFailed => "Enable notification failed",
            SessionError::DisableNotificationFailed => "Disable notification failed",
            SessionError::Transport(_) => "Transport error",
        }
    }

    /// The numeric code of this error.
    pub fn code(&self) -> (r: i32)
        ensures
            r == error_code(*self),
    {
        match self {
            SessionError::Transport(code) => *code,
            _ => CODE_FAILED,
        }
    }
}

/// The status with which the transport completed a GATT operation.
#[derive(Clone, Copy, Debug, PartialEq, Eq, Structural)]
pub enum GattStatus {
    Success,
    Unreachable,
    ProtocolError,
    AccessDenied,
    /// A status that is none of the four.
    Other,
}

/// Turns an outcome that carries the transport's error code into one of the
/// session.
pub open spec fn transported<T>(outcome: Result<T, i32>) -> Result<T, SessionError> {
    match outcome {
        Ok(v) => Ok(v),
        Err(code) => Err(SessionError::Transport(code)),
    }
}

/// Turns an outcome that carries the transport's error code into one of the
/// session.
pub fn from_transport<T>(outcome: Result<T, i32>) -> (r: Result<T, SessionError>)
    ensures
        r == transported(outcome),
{
    match outcome {
        Ok(v) => Ok(v),
        Err(code) => Err(SessionError::Transport(code)),
    }
}

/// What a GATT operation came to: success only where the transport completed
/// it with the status of success, `failure` where it completed it with any
/// other status, and the transport's own error where it raised one.
pub open spec fn completed(status: Result<GattStatus, i32>, failure: SessionError) -> Result<
    (),
    SessionError,
> {
    match status {
        Ok(GattStatus::Success) => Ok(()),
        Ok(_) => Err(failure),
        Err(code) => Err(SessionError::Transport(code)),
    }
}

/// Judges the status with which a GATT operation ended.
pub fn check_completed(status: Result<GattStatus, i32>, failure: SessionError) -> (r: Result<
    (),
    SessionError,
>)
    ensures
        r == completed(status, failure),
{
    match status {
        Ok(GattStatus::Success) => Ok(()),
        Ok(_) => Err(failure),
        Err(code) => Err(SessionError::Transport(code)),
    }
}

/// The code that the host receives for an outcome: zero for success, the
/// generic failure code for every error.
pub open spec fn code_of<T>(outcome: Result<T, SessionError>) -> i32 {
    if outcome is Ok {
        CODE_OK
    } else {
        CODE_FAILED
    }
}

/// The code that the host receives for an outcome.
pub fn result_code<T>(outcome: &Result<T, SessionError>) -> (code: i32)
    ensures
        code == code_of(*outcome),
{
    match outcome {
        Ok(_) => CODE_OK,
        Err(_) => CODE_FAILED,
    }
}

} // verus!
