//! Verified core of a named counting semaphore handle.
//!
//! A named semaphore is a kernel-managed counter that unrelated processes
//! share by agreeing on a name. The system request that creates or opens one
//! takes a terminated byte string, open-policy flag bits and permission-mode
//! bits; misencoding any of them produces shared state that is wrong for
//! every process involved. This crate verifies that translation: permission
//! facets and open policies to the exact bit values the system call expects,
//! the caller's name to a terminated byte string (rejecting embedded
//! terminators before any request is issued), the open-first/create-second
//! fallback plan, and the interpretation of raw system-call results into a
//! structured error type. A spec-level model of the kernel's semaphore
//! namespace states the laws the protocol is designed around.
//!
//! Issuing the requests is inherently unsafe (raw system calls on
//! process-shared state) and lives outside this crate; the unverified shim
//! builds every request through this crate and hands every raw outcome back
//! to it.

pub mod error;
pub mod flags;
pub mod model;
pub mod outcome;
pub mod request;
