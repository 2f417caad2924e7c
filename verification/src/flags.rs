//! Encoding of permission modes and open policies into the primitive bit
//! values the semaphore system call expects. Pure and total: all inputs are
//! well-formed by construction, and the translation happens in one place,
//! right at the system-call boundary.

use vstd::prelude::*;

verus! {

/// Full access for the owning user, as the system call encodes it.
pub const MODE_BITS_USER: u32 = 0o700;

/// Full access for the owning group, as the system call encodes it.
pub const MODE_BITS_GROUP: u32 = 0o070;

/// Full access for others, as the system call encodes it.
pub const MODE_BITS_OTHER: u32 = 0o007;

/// The open flag requesting that an absent semaphore be created.
pub const CREATE_FLAG_BITS: i32 = 0o100;

/// The open flag requesting that creation fail if the name already exists.
pub const EXCLUSIVE_FLAG_BITS: i32 = 0o200;

/// Relies on libc::S_IRWXU: read, write and execute for the owning user.
#[verifier::external_body]
fn sys_mode_user_bits() -> (r: u32)
    ensures
        r == MODE_BITS_USER,
{
    libc::S_IRWXU
}

/// Relies on libc::S_IRWXG: read, write and execute for the owning group.
#[verifier::external_body]
fn sys_mode_group_bits() -> (r: u32)
    ensures
        r == MODE_BITS_GROUP,
{
    libc::S_IRWXG
}

/// Relies on libc::S_IRWXO: read, write and execute for others.
#[verifier::external_body]
fn sys_mode_other_bits() -> (r: u32)
    ensures
        r == MODE_BITS_OTHER,
{
    libc::S_IRWXO
}

/// Relies on libc::O_CREAT: the open flag that requests creation.
#[verifier::external_body]
fn sys_flag_create() -> (r: i32)
    ensures
        r == CREATE_FLAG_BITS,
{
    libc::O_CREAT
}

/// Relies on libc::O_EXCL: the open flag that requests exclusivity.
#[verifier::external_body]
fn sys_flag_exclusive() -> (r: i32)
    ensures
        r == EXCLUSIVE_FLAG_BITS,
{
    libc::O_EXCL
}

/// The permission mode of a semaphore object: three independent grant
/// facets, one per category. Each facet is all-or-nothing: granting a
/// category grants its full read/write/execute group of bits.
#[derive(Clone, Copy, Debug, PartialEq, Eq, Structural)]
pub struct SemFSMode {
    /// Grant full access to the owning user.
    pub user: bool,
    /// Grant full access to the owning group.
    pub group: bool,
    /// Grant full access to others.
    pub other: bool,
}

impl SemFSMode {
    /// The encoded permission bits: the union of the primitive bit groups of
    /// exactly the granted facets.
    pub open spec fn spec_bits(self) -> u32 {
        (if self.user {
            MODE_BITS_USER
        } else {
            0u32
        }) | (if self.group {
            MODE_BITS_GROUP
        } else {
            0u32
        }) | (if self.other {
            MODE_BITS_OTHER
        } else {
            0u32
        })
    }

    /// A mode granting nothing.
    pub fn empty() -> (r: SemFSMode)
        ensures
            r == (SemFSMode { user: false, group: false, other: false }),
    {
        SemFSMode { user: false, group: false, other: false }
    }

    /// The convenience union: all three categories granted.
    pub fn all() -> (r: SemFSMode)
        ensures
            r == (SemFSMode { user: true, group: true, other: true }),
    {
        SemFSMode { user: true, group: true, other: true }
    }

    /// Encode this mode into the primitive permission bits of the system
    /// call.
    pub fn bits(&self) -> (r: u32)
        ensures
            r == self.spec_bits(),
    {
        let u: u32 = if self.user {
            sys_mode_user_bits()
        } else {
            0
        };
        let g: u32 = if self.group {
            sys_mode_group_bits()
        } else {
            0
        };
        let o: u32 = if self.other {
            sys_mode_other_bits()
        } else {
            0
        };
        u | g | o
    }
}

/// Granting all three categories encodes to the union of the three primitive
/// bit groups, the conventional all-permissions value.
pub proof fn lemma_all_mode_bits()
    ensures
        (SemFSMode { user: true, group: true, other: true }).spec_bits() == 0o777u32,
{
    assert(0o700u32 | 0o070u32 | 0o007u32 == 0o777u32) by (bit_vector);
}

/// The open policy of a request: exactly one of the three is active.
///
/// `Create` means create-or-attach: create the semaphore if the name is
/// absent, attach to the existing one otherwise. `CreateExclusive` means
/// creation must fail if the name already exists; it is encoded as `Create`
/// plus an exclusivity bit, never as a standalone value. `OpenOnly` relies
/// on the default attach-to-existing behaviour and must fail if the name
/// does not exist.
#[derive(Clone, Copy, Debug, PartialEq, Eq, Structural)]
pub enum OpenPolicy {
    /// Fail if the named semaphore does not already exist.
    OpenOnly,
    /// Create if absent; attach to the existing semaphore if present.
    Create,
    /// Create, failing if the name is already taken.
    CreateExclusive,
}

/// The open policy selected by a pair of intent flags: creation wanted or
/// not, and, only meaningful together with creation, exclusivity wanted or
/// not.
pub open spec fn spec_policy_from_flags(wants_create: bool, wants_exclusive: bool) -> OpenPolicy {
    if !wants_create {
        OpenPolicy::OpenOnly
    } else if wants_exclusive {
        OpenPolicy::CreateExclusive
    } else {
        OpenPolicy::Create
    }
}

/// True when the given open flag bits request creation.
pub open spec fn bits_request_creation(oflag: i32) -> bool {
    oflag & CREATE_FLAG_BITS != 0
}

/// True when the given open flag bits request exclusivity.
pub open spec fn bits_request_exclusivity(oflag: i32) -> bool {
    oflag & EXCLUSIVE_FLAG_BITS != 0
}

impl OpenPolicy {
    /// The encoded open flag bits: zero for open-only, the create bit for
    /// create-or-attach, and the create bit together with the exclusivity
    /// bit for exclusive creation.
    pub open spec fn spec_bits(self) -> i32 {
        match self {
            OpenPolicy::OpenOnly => 0,
            OpenPolicy::Create => CREATE_FLAG_BITS,
            OpenPolicy::CreateExclusive => CREATE_FLAG_BITS | EXCLUSIVE_FLAG_BITS,
        }
    }

    /// Select the policy from intent flags.
    pub fn from_flags(wants_create: bool, wants_exclusive: bool) -> (r: OpenPolicy)
        ensures
            r == spec_policy_from_flags(wants_create, wants_exclusive),
    {
        if !wants_create {
            OpenPolicy::OpenOnly
        } else if wants_exclusive {
            OpenPolicy::CreateExclusive
        } else {
            OpenPolicy::Create
        }
    }

    /// Encode this policy into the primitive open flag bits of the system
    /// call.
    pub fn bits(&self) -> (r: i32)
        ensures
            r == self.spec_bits(),
    {
        match self {
            OpenPolicy::OpenOnly => 0,
            OpenPolicy::Create => sys_flag_create(),
            OpenPolicy::CreateExclusive => {
                let c: i32 = sys_flag_create();
                let e: i32 = sys_flag_exclusive();
                c | e
            },
        }
    }
}

/// Encoding `Create` alone never implies exclusivity, while encoding
/// `CreateExclusive` sets both the create bit and the exclusivity bit, and
/// `OpenOnly` encodes to the no-op value: exclusivity is never requested
/// without creation.
pub proof fn lemma_policy_bits_faithful(policy: OpenPolicy)
    ensures
        bits_request_creation(policy.spec_bits()) <==> policy != OpenPolicy::OpenOnly,
        bits_request_exclusivity(policy.spec_bits()) <==> policy == OpenPolicy::CreateExclusive,
        policy == OpenPolicy::OpenOnly ==> policy.spec_bits() == 0,
{
    assert(0o100i32 & 0o100i32 != 0) by (bit_vector);
    assert(0o100i32 & 0o200i32 == 0) by (bit_vector);
    assert(0i32 & 0o100i32 == 0) by (bit_vector);
    assert(0i32 & 0o200i32 == 0) by (bit_vector);
    assert((0o100i32 | 0o200i32) & 0o100i32 != 0) by (bit_vector);
    assert((0o100i32 | 0o200i32) & 0o200i32 != 0) by (bit_vector);
}

} // verus!
