//! The error taxonomy: a malformed name is distinguished from a failure
//! reported by the operating system, whose error code is preserved verbatim.

use vstd::prelude::*;

verus! {

/// Why a semaphore operation failed.
///
/// `NameEncoding` is detected before any system request is issued: the
/// caller's name cannot be represented as a terminated byte string because
/// it already contains an embedded terminator byte.
///
/// `SystemResource` means the operating system rejected the request; the
/// originating OS error code is carried verbatim, without reinterpretation,
/// so callers can branch on the cause (already-exists, does-not-exist,
/// permission-denied, ...).
#[derive(Clone, Copy, Debug, PartialEq, Eq, Structural)]
pub enum SemError {
    /// The supplied name contains an embedded terminator byte.
    NameEncoding,
    /// The operating system reported failure with this error code.
    SystemResource { code: i32 },
}

impl SemError {
    /// The OS error code, where the operating system was the one to refuse.
    pub fn os_code(&self) -> (r: Option<i32>)
        ensures
            r == (match *self {
                SemError::NameEncoding => Option::<i32>::None,
                SemError::SystemResource { code } => Option::<i32>::Some(code),
            }),
    {
        match self {
            SemError::NameEncoding => None,
            SemError::SystemResource { code } => Some(*code),
        }
    }
}

} // verus!
