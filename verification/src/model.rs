//! A spec-level model of the kernel's named-semaphore namespace: a map from
//! terminated name bytes to the current count of the semaphore living under
//! that name. The model states what the system call is documented to do with
//! each request, and the laws below are proved against it: what a fresh
//! exclusive creation yields, why a second exclusive creation fails, how
//! post and wait move the count, and why the open-first/create-second plan
//! never resets an existing count.
//!
//! The model deliberately leaves out what the layer above cannot rely on:
//! blocking (a wait is modelled only where the count is at least one, the
//! case in which it returns without blocking) and OS-defined
//! negative-count encodings of a read.

use vstd::prelude::*;

use crate::flags::bits_request_creation;
use crate::flags::bits_request_exclusivity;
use crate::flags::spec_policy_from_flags;
use crate::flags::OpenPolicy;
use crate::flags::lemma_policy_bits_faithful;
use crate::flags::SemFSMode;
use crate::request::create_request_wf;
use crate::request::open_or_create_plan_wf;
use crate::request::open_request_wf;
use crate::request::terminated_name_bytes;
use crate::request::OpenOrCreatePlan;
use crate::request::SemRequest;

verus! {

/// The kernel namespace, as the model sees it: the count of each live named
/// semaphore, keyed by the terminated name bytes of the requests that reach
/// it.
pub type SemNamespace = Map<Seq<u8>, nat>;

/// What an open or create request yields in the model.
pub enum SemOpenModel {
    /// The name existed and the request attached to it; the semaphore's
    /// count at that moment.
    Attached { count: nat },
    /// The name was absent and the request created it with this count.
    Created { count: nat },
    /// The name existed but the request demanded exclusive creation.
    FailAlreadyExists,
    /// The name was absent and the request did not ask for creation.
    FailDoesNotExist,
}

/// The documented behaviour of the open/create system call: attach when the
/// name exists (unless exclusive creation was demanded, which then fails),
/// create with the given initial count when it is absent and creation was
/// requested, and fail otherwise.
pub open spec fn model_sem_open(
    ns: SemNamespace,
    name: Seq<u8>,
    wants_create: bool,
    wants_exclusive: bool,
    initial: nat,
) -> SemOpenModel {
    if ns.contains_key(name) {
        if wants_create && wants_exclusive {
            SemOpenModel::FailAlreadyExists
        } else {
            SemOpenModel::Attached { count: ns[name] }
        }
    } else if wants_create {
        SemOpenModel::Created { count: initial }
    } else {
        SemOpenModel::FailDoesNotExist
    }
}

/// The namespace after an open or create request: unchanged unless the
/// request created the name. Attaching never overwrites a count.
pub open spec fn model_ns_after_open(
    ns: SemNamespace,
    name: Seq<u8>,
    wants_create: bool,
    wants_exclusive: bool,
    initial: nat,
) -> SemNamespace {
    if !ns.contains_key(name) && wants_create {
        ns.insert(name, initial)
    } else {
        ns
    }
}

/// The model outcome of issuing a built request against a namespace: an
/// open-only request neither creates nor demands exclusivity; a create
/// request behaves as its encoded flag bits say.
pub open spec fn model_issue(ns: SemNamespace, req: SemRequest) -> SemOpenModel {
    match req {
        SemRequest::Open { name_bytes } => model_sem_open(ns, name_bytes@, false, false, 0),
        SemRequest::Create { name_bytes, oflag, mode_bits, initial_count } => model_sem_open(
            ns,
            name_bytes@,
            bits_request_creation(oflag),
            bits_request_exclusivity(oflag),
            initial_count as nat,
        ),
    }
}

/// The namespace after issuing a built request.
pub open spec fn model_ns_after_issue(ns: SemNamespace, req: SemRequest) -> SemNamespace {
    match req {
        SemRequest::Open { name_bytes } => model_ns_after_open(ns, name_bytes@, false, false, 0),
        SemRequest::Create { name_bytes, oflag, mode_bits, initial_count } => model_ns_after_open(
            ns,
            name_bytes@,
            bits_request_creation(oflag),
            bits_request_exclusivity(oflag),
            initial_count as nat,
        ),
    }
}

/// The model outcome of running an open-first/create-second plan: the first
/// step's attachment if it succeeds, the creation step's outcome otherwise.
pub open spec fn model_issue_plan(ns: SemNamespace, plan: OpenOrCreatePlan) -> SemOpenModel {
    let first = model_issue(ns, plan.first_open);
    if first is Attached {
        first
    } else {
        model_issue(ns, plan.then_create)
    }
}

/// The namespace after running an open-first/create-second plan.
pub open spec fn model_ns_after_issue_plan(ns: SemNamespace, plan: OpenOrCreatePlan) -> SemNamespace {
    let first = model_issue(ns, plan.first_open);
    if first is Attached {
        model_ns_after_issue(ns, plan.first_open)
    } else {
        model_ns_after_issue(ns, plan.then_create)
    }
}

/// A post: the count grows by exactly one.
pub open spec fn model_post(count: nat) -> nat {
    (count + 1) as nat
}

/// A wait on a count of at least one: the count shrinks by exactly one, and
/// the call returns without blocking. A wait on a count of zero blocks and
/// is not modelled here.
pub open spec fn model_wait(count: nat) -> nat
    recommends
        count >= 1,
{
    (count - 1) as nat
}

/// A read of the count: the value is observed unmodified.
pub open spec fn model_get_value(count: nat) -> int {
    count as int
}

/// For every name not already in use, a creation request built by
/// `create_request` — exclusive or not — succeeds in the model: the
/// semaphore is created with the caller's initial count, so a read of the
/// new semaphore observes exactly that count (zero yields zero), and the
/// name is registered under it.
pub proof fn lemma_fresh_create_succeeds(
    ns: SemNamespace,
    req: SemRequest,
    name: Seq<char>,
    mode: SemFSMode,
    value: u32,
    create_exclusive: bool,
)
    requires
        create_request_wf(req, name, mode, value, create_exclusive),
        !ns.contains_key(terminated_name_bytes(name)),
    ensures
        model_issue(ns, req) == (SemOpenModel::Created { count: value as nat }),
        model_get_value(value as nat) == value as int,
        model_ns_after_issue(ns, req) == ns.insert(terminated_name_bytes(name), value as nat),
{
    lemma_policy_bits_faithful(spec_policy_from_flags(true, create_exclusive));
}

/// After a successful exclusive creation of a fresh name, a second exclusive
/// creation of the same name fails with the already-exists outcome, whatever
/// mode and initial count the second request carries.
pub proof fn lemma_exclusive_create_twice_fails(
    ns: SemNamespace,
    first: SemRequest,
    second: SemRequest,
    name: Seq<char>,
    mode1: SemFSMode,
    mode2: SemFSMode,
    value1: u32,
    value2: u32,
)
    requires
        create_request_wf(first, name, mode1, value1, true),
        create_request_wf(second, name, mode2, value2, true),
        !ns.contains_key(terminated_name_bytes(name)),
    ensures
        model_issue(ns, first) == (SemOpenModel::Created { count: value1 as nat }),
        model_issue(model_ns_after_issue(ns, first), second) == SemOpenModel::FailAlreadyExists,
{
    lemma_policy_bits_faithful(OpenPolicy::CreateExclusive);
}

/// A post followed by a read observes a count greater by exactly one, and a
/// wait on a count of at least one followed by a read observes a count
/// smaller by exactly one.
pub proof fn lemma_post_wait_move_count_by_one(count: nat)
    ensures
        model_get_value(model_post(count)) == model_get_value(count) + 1,
        count >= 1 ==> model_get_value(model_wait(count)) == model_get_value(count) - 1,
{
}

/// Balanced round trip: a post followed by a wait returns the count to its
/// value before the post — the net effect of a balanced post/wait pair is
/// nothing.
pub proof fn lemma_post_then_wait_round_trip(count: nat)
    ensures
        model_wait(model_post(count)) == count,
{
}

/// An open-only request, as `open_request` builds it, attaches exactly when
/// the name is in use — observing the existing semaphore's count — and fails
/// with the does-not-exist outcome otherwise; either way it changes nothing
/// in the namespace.
pub proof fn lemma_open_only_attaches_iff_present(
    ns: SemNamespace,
    req: SemRequest,
    name: Seq<char>,
)
    requires
        open_request_wf(req, name),
    ensures
        ns.contains_key(terminated_name_bytes(name)) ==> model_issue(ns, req)
            == (SemOpenModel::Attached { count: ns[terminated_name_bytes(name)] }),
        !ns.contains_key(terminated_name_bytes(name)) ==> model_issue(ns, req)
            == SemOpenModel::FailDoesNotExist,
        model_ns_after_issue(ns, req) == ns,
{
}

/// Open-first, create-second: running the plan built by
/// `open_or_create_plan` against a namespace in which the name already lives
/// with count N attaches to the existing semaphore and observes N — never
/// the caller's initial count — and leaves the namespace, and so the
/// existing count, unchanged.
pub proof fn lemma_plan_never_resets_existing_count(
    ns: SemNamespace,
    plan: OpenOrCreatePlan,
    name: Seq<char>,
    mode: SemFSMode,
    value: u32,
    create_exclusive: bool,
)
    requires
        open_or_create_plan_wf(plan, name, mode, value, create_exclusive),
        ns.contains_key(terminated_name_bytes(name)),
    ensures
        model_issue_plan(ns, plan) == (SemOpenModel::Attached {
            count: ns[terminated_name_bytes(name)],
        }),
        model_ns_after_issue_plan(ns, plan) == ns,
{
}

} // verus!
