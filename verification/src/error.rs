//! The error values that the library's fallible functions report.

use vstd::prelude::*;

verus! {

/// Why a lookup, a parse, or a whole snapshot build failed.
///
/// Every failure of a component aborts the enclosing build and is surfaced
/// verbatim; no partial snapshot is ever returned.
#[derive(Debug, Clone, Copy, PartialEq, Eq, Structural)]
pub enum ProcessError {
    /// An underlying file could not be opened or read (the process may be
    /// gone, or the filesystem absent).
    Io,
    /// No line of the status record begins with the requested key.
    NotFound,
    /// A key line exists but carries no value token.
    FieldMissing,
    /// A numeric field was not valid for its expected base, or does not fit
    /// its expected width.
    Parse,
    /// The user id has no corresponding username entry; carries the id that
    /// failed to resolve.
    UserNotFound(u32),
    /// A signal-number conversion was asked for a value outside 1..=64;
    /// carries the offending value. The mask decoder never supplies one.
    SignalConversionError(u32),
}

} // verus!
