//! Building the requests the semaphore system call takes: the caller's name
//! as a terminated byte string (rejected before any request is issued if it
//! already contains an embedded terminator), together with the encoded open
//! policy, permission mode and initial count. Open-only requests carry no
//! mode and no count: those are meaningful only on creation and must not be
//! sent when merely attaching.

use vstd::prelude::*;
use vstd::slice::slice_to_vec;
use vstd::utf8::encode_utf8;

use crate::error::SemError;
use crate::flags::OpenPolicy;
use crate::flags::SemFSMode;
use crate::flags::spec_policy_from_flags;

verus! {

/// The byte string handed to the system call for a given name: its byte
/// encoding with the terminator byte appended.
pub open spec fn terminated_name_bytes(name: Seq<char>) -> Seq<u8> {
    encode_utf8(name).push(0u8)
}

/// True when the name's byte encoding already contains the terminator byte,
/// so the name cannot be represented as a terminated byte string.
pub open spec fn name_has_embedded_terminator(name: Seq<char>) -> bool {
    encode_utf8(name).contains(0u8)
}

/// Encode a caller-supplied name as the terminated byte string the system
/// call takes. Fails, before any request is issued, exactly when the name
/// contains an embedded terminator byte.
pub fn encode_name(name: &str) -> (r: Result<Vec<u8>, SemError>)
    ensures
        (r is Ok) <==> !name_has_embedded_terminator(name@),
        (r matches Ok(bytes) ==> bytes@ == terminated_name_bytes(name@)),
        (r is Err) ==> r == Err::<Vec<u8>, SemError>(SemError::NameEncoding),
{
    let mut bytes: Vec<u8> = slice_to_vec(name.as_bytes());
    let n: usize = bytes.len();
    let mut i: usize = 0;
    while i < n
        invariant
            i <= n,
            n == bytes@.len(),
            bytes@ == encode_utf8(name@),
            forall|j: int| 0 <= j < i ==> bytes@[j] != 0u8,
        decreases n - i,
    {
        if bytes[i] == 0 {
            proof {
                assert(encode_utf8(name@)[i as int] == 0u8);
            }
            return Err(SemError::NameEncoding);
        }
        i = i + 1;
    }
    bytes.push(0);
    Ok(bytes)
}

/// For a name without an embedded terminator, the terminated byte string is
/// well-formed for the system call: it carries exactly one terminator byte,
/// and that byte stands at the end.
pub proof fn lemma_terminated_name_shape(name: Seq<char>)
    requires
        !name_has_embedded_terminator(name),
    ensures
        terminated_name_bytes(name).len() == encode_utf8(name).len() + 1,
        terminated_name_bytes(name).last() == 0u8,
        forall|i: int|
            0 <= i < terminated_name_bytes(name).len() - 1 ==> terminated_name_bytes(name)[i]
                != 0u8,
{
    let bytes = encode_utf8(name);
    assert forall|i: int|
        0 <= i < terminated_name_bytes(name).len() - 1 implies terminated_name_bytes(name)[i]
        != 0u8 by {
        assert(terminated_name_bytes(name)[i] == bytes[i]);
        assert(!bytes.contains(0u8));
    }
}

/// One request to the semaphore system call.
///
/// An `Open` request attaches to an existing semaphore: it carries only the
/// terminated name, because permission mode and initial count are meaningless
/// when nothing is created and must not be sent. A `Create` request carries
/// the encoded open flags, the encoded permission bits and the starting
/// count.
pub enum SemRequest {
    /// Attach to an existing semaphore; fail if the name does not exist.
    Open {
        /// The terminated name bytes.
        name_bytes: Vec<u8>,
    },
    /// Create a semaphore (or, without exclusivity, attach if it exists).
    Create {
        /// The terminated name bytes.
        name_bytes: Vec<u8>,
        /// The encoded open policy bits.
        oflag: i32,
        /// The encoded permission bits, used only if creation happens.
        mode_bits: u32,
        /// The starting count, used only if creation happens.
        initial_count: u32,
    },
}

/// The terminated name bytes a request carries.
pub open spec fn request_name_bytes(req: SemRequest) -> Seq<u8> {
    match req {
        SemRequest::Open { name_bytes } => name_bytes@,
        SemRequest::Create { name_bytes, .. } => name_bytes@,
    }
}

/// What `open_request` promises of a request built for `name`.
pub open spec fn open_request_wf(req: SemRequest, name: Seq<char>) -> bool {
    &&& req is Open
    &&& request_name_bytes(req) == terminated_name_bytes(name)
}

/// What `create_request` promises of a request built for `name` with the
/// given mode, initial count and exclusivity.
pub open spec fn create_request_wf(
    req: SemRequest,
    name: Seq<char>,
    mode: SemFSMode,
    initial: u32,
    create_exclusive: bool,
) -> bool {
    match req {
        SemRequest::Open { .. } => false,
        SemRequest::Create { name_bytes, oflag, mode_bits, initial_count } => {
            &&& name_bytes@ == terminated_name_bytes(name)
            &&& oflag == spec_policy_from_flags(true, create_exclusive).spec_bits()
            &&& mode_bits == mode.spec_bits()
            &&& initial_count == initial
        },
    }
}

/// Build the request that creates a semaphore under `name` with the given
/// permission mode and starting count, exclusively if asked. Fails exactly
/// when the name contains an embedded terminator byte, before any request is
/// issued.
pub fn create_request(name: &str, mode: SemFSMode, value: u32, create_exclusive: bool) -> (r:
    Result<SemRequest, SemError>)
    ensures
        (r is Ok) <==> !name_has_embedded_terminator(name@),
        (r matches Ok(req) ==> create_request_wf(req, name@, mode, value, create_exclusive)),
        (r is Err) ==> r == Err::<SemRequest, SemError>(SemError::NameEncoding),
{
    let name_bytes: Vec<u8> = match encode_name(name) {
        Ok(bytes) => bytes,
        Err(e) => {
            return Err(e);
        },
    };
    let policy: OpenPolicy = OpenPolicy::from_flags(true, create_exclusive);
    let oflag: i32 = policy.bits();
    let mode_bits: u32 = mode.bits();
    Ok(SemRequest::Create { name_bytes, oflag, mode_bits, initial_count: value })
}

/// Build the request that attaches to an existing semaphore under `name`,
/// carrying no mode and no count. Fails exactly when the name contains an
/// embedded terminator byte, before any request is issued.
pub fn open_request(name: &str) -> (r: Result<SemRequest, SemError>)
    ensures
        (r is Ok) <==> !name_has_embedded_terminator(name@),
        (r matches Ok(req) ==> open_request_wf(req, name@)),
        (r is Err) ==> r == Err::<SemRequest, SemError>(SemError::NameEncoding),
{
    let name_bytes: Vec<u8> = match encode_name(name) {
        Ok(bytes) => bytes,
        Err(e) => {
            return Err(e);
        },
    };
    Ok(SemRequest::Open { name_bytes })
}

/// The two-step open-or-create algorithm, as data: attach first, and only if
/// that fails, create. The ordering is the design decision this type
/// preserves — attaching to an existing semaphore must never overwrite its
/// mode or reset its count, so creation is the fallback, not the default.
/// It is two designed steps, not a retry: neither step is ever repeated.
pub struct OpenOrCreatePlan {
    /// First step: attach to an existing semaphore under the name.
    pub first_open: SemRequest,
    /// Second step, issued only if the first fails: create with the caller's
    /// mode, initial count and exclusivity.
    pub then_create: SemRequest,
}

/// What `open_or_create_plan` promises of the plan it builds.
pub open spec fn open_or_create_plan_wf(
    plan: OpenOrCreatePlan,
    name: Seq<char>,
    mode: SemFSMode,
    initial: u32,
    create_exclusive: bool,
) -> bool {
    &&& open_request_wf(plan.first_open, name)
    &&& create_request_wf(plan.then_create, name, mode, initial, create_exclusive)
}

/// Build the open-first, create-second plan for `name`. Fails exactly when
/// the name contains an embedded terminator byte — in that case neither step
/// could be issued, and the failure is reported once, before any request.
pub fn open_or_create_plan(name: &str, mode: SemFSMode, value: u32, create_exclusive: bool) -> (r:
    Result<OpenOrCreatePlan, SemError>)
    ensures
        (r is Ok) <==> !name_has_embedded_terminator(name@),
        (r matches Ok(plan) ==> open_or_create_plan_wf(plan, name@, mode, value, create_exclusive)),
        (r is Err) ==> r == Err::<OpenOrCreatePlan, SemError>(SemError::NameEncoding),
{
    let first_open: SemRequest = match open_request(name) {
        Ok(req) => req,
        Err(e) => {
            return Err(e);
        },
    };
    let then_create: SemRequest = match create_request(name, mode, value, create_exclusive) {
        Ok(req) => req,
        Err(e) => {
            return Err(e);
        },
    };
    Ok(OpenOrCreatePlan { first_open, then_create })
}

} // verus!
