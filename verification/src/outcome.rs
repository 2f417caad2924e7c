//! Interpretation of raw system-call results into the structured error type.
//! Every fallible operation returns a result rather than aborting, and the
//! originating OS error code is carried verbatim so callers can branch on
//! the cause.

use vstd::prelude::*;

use crate::error::SemError;

verus! {

/// Interpret the outcome of an open or create request: `attached` is whether
/// the system call handed back a live resource reference, and `os_code` is
/// the OS error code it reported otherwise. On failure the code is carried
/// verbatim.
pub fn open_outcome(attached: bool, os_code: i32) -> (r: Result<(), SemError>)
    ensures
        (r is Ok) <==> attached,
        !attached ==> r == Err::<(), SemError>(SemError::SystemResource { code: os_code }),
{
    if attached {
        Ok(())
    } else {
        Err(SemError::SystemResource { code: os_code })
    }
}

/// Interpret the raw integer result of a post or wait request, which reports
/// failure by returning -1 with the cause in the OS error code. On failure
/// the code is carried verbatim.
pub fn operation_outcome(ret: i32, os_code: i32) -> (r: Result<(), SemError>)
    ensures
        (r is Ok) <==> ret != -1,
        ret == -1 ==> r == Err::<(), SemError>(SemError::SystemResource { code: os_code }),
{
    if ret == -1 {
        Err(SemError::SystemResource { code: os_code })
    } else {
        Ok(())
    }
}

/// Interpret the raw result of a read of the current count. On success the
/// observed value is passed through unmodified — zero-or-negative encodings
/// are OS-defined (some systems report the number of blocked waiters as a
/// negative count) and must not be normalized here. On failure the OS error
/// code is carried verbatim.
pub fn value_outcome(ret: i32, os_code: i32, observed: i32) -> (r: Result<i32, SemError>)
    ensures
        (r is Ok) <==> ret != -1,
        ret != -1 ==> r == Ok::<i32, SemError>(observed),
        ret == -1 ==> r == Err::<i32, SemError>(SemError::SystemResource { code: os_code }),
{
    if ret == -1 {
        Err(SemError::SystemResource { code: os_code })
    } else {
        Ok(observed)
    }
}

} // verus!
