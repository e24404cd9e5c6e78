//! The error taxonomy of the two command surfaces.

use vstd::prelude::*;

verus! {

/// Errors of the modern, explicit-connection surface.
///
/// `InvalidAddress` reports a denied or unparsable address, `TooManyConnections`
/// a full handle table, `TypeError` a server-reported type mismatch (only where
/// a command discriminates it), and `Other` carries the message of any other
/// failure.
#[derive(Debug, Clone, PartialEq, Eq)]
pub enum Error {
    InvalidAddress,
    TooManyConnections,
    TypeError,
    Other(String),
}

/// The single, undifferentiated error of the legacy surface.
#[derive(Debug, Clone, Copy, PartialEq, Eq)]
pub enum LegacyError {
    Error,
}

/// Wraps a transport failure message into the catch-all error.
pub fn other_error(message: String) -> (r: Error)
    ensures
        r == Error::Other(message),
{
    Error::Other(message)
}

/// Classifies a failed command: a server-reported type mismatch becomes
/// `TypeError`, anything else keeps its message in `Other`.
pub fn command_error(type_mismatch: bool, message: String) -> (r: Error)
    ensures
        r == (if type_mismatch {
            Error::TypeError
        } else {
            Error::Other(message)
        }),
{
    if type_mismatch {
        Error::TypeError
    } else {
        Error::Other(message)
    }
}

/// Collapses any modern-surface failure into the one legacy error, keeping
/// successes as they are.
pub fn collapse<T>(r: Result<T, Error>) -> (out: Result<T, LegacyError>)
    ensures
        r matches Ok(v) ==> out == Ok::<T, LegacyError>(v),
        r is Err ==> out == Err::<T, LegacyError>(LegacyError::Error),
{
    match r {
        Ok(v) => Ok(v),
        Err(_) => Err(LegacyError::Error),
    }
}

/// Converts a modern count to the legacy signed width, bit-for-bit, as the
/// legacy surface reports it.
pub fn legacy_count(count: u32) -> (r: i64)
    ensures
        r == count as i64,
{
    count as i64
}

} // verus!
