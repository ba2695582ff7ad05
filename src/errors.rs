//! The engine's error taxonomy and its translation into bus reply codes.

use vstd::prelude::*;

verus! {

/// The kinds of failure that the storage engine reports.
#[derive(Clone, Copy, Debug, PartialEq, Eq, Structural)]
pub enum ErrorKind {
    /// A failure with no more specific kind.
    Error,
    /// The name or the device is already taken.
    AlreadyExists,
    /// The target is in use.
    Busy,
    /// An argument was rejected.
    Invalid,
    /// The target does not exist.
    NotFound,
    /// An I/O operation failed.
    Io,
    /// An internal inconsistency.
    Internal,
}

/// An error of the storage engine: its kind and a message for diagnostics.
#[derive(Clone, Debug)]
pub struct EngineError {
    pub kind: ErrorKind,
    pub message: String,
}

/// Reply code of a call that succeeded.
pub const OK_CODE: u16 = 0;

/// The message that goes with `OK_CODE`.
pub const OK_MESSAGE: &'static str = "OK";

/// The reply code that stands for each kind of error; never `OK_CODE`.
pub open spec fn code_of(kind: ErrorKind) -> u16 {
    match kind {
        ErrorKind::Error => 1,
        ErrorKind::AlreadyExists => 2,
        ErrorKind::Busy => 3,
        ErrorKind::Io => 4,
        ErrorKind::Internal => 5,
        ErrorKind::Invalid => 6,
        ErrorKind::NotFound => 7,
    }
}

impl EngineError {
    pub fn new(kind: ErrorKind, message: String) -> (r: EngineError)
        ensures
            r.kind == kind,
            r.message == message,
    {
        EngineError { kind, message }
    }
}

/// The reply code of an error kind.
pub fn error_code(kind: ErrorKind) -> (r: u16)
    ensures
        r == code_of(kind),
        r != OK_CODE,
{
    match kind {
        ErrorKind::Error => 1,
        ErrorKind::AlreadyExists => 2,
        ErrorKind::Busy => 3,
        ErrorKind::Io => 4,
        ErrorKind::Internal => 5,
        ErrorKind::Invalid => 6,
        ErrorKind::NotFound => 7,
    }
}

/// Translates an engine error into the (code, message) pair of a reply; the
/// message is kept as it is.
pub fn engine_to_dbus_err_tuple(err: &EngineError) -> (r: (u16, String))
    ensures
        r.0 == code_of(err.kind),
        r.0 != OK_CODE,
        r.1@ == err.message@,
{
    (error_code(err.kind), err.message.clone())
}

/// The code of a successful reply.
pub fn msg_code_ok() -> (r: u16)
    ensures
        r == OK_CODE,
{
    OK_CODE
}

/// The message of a successful reply.
pub fn msg_string_ok() -> (r: String)
    ensures
        r@ == OK_MESSAGE@,
{
    String::from_str(OK_MESSAGE)
}

} // verus!
