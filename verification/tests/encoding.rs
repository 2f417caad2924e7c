use named_semaphore::error::SemError;
use named_semaphore::flags::OpenPolicy;
use named_semaphore::flags::SemFSMode;
use named_semaphore::flags::CREATE_FLAG_BITS;
use named_semaphore::flags::EXCLUSIVE_FLAG_BITS;
use named_semaphore::flags::MODE_BITS_GROUP;
use named_semaphore::flags::MODE_BITS_OTHER;
use named_semaphore::flags::MODE_BITS_USER;
use named_semaphore::request::encode_name;

#[test]
fn mode_bits_per_facet() {
    let user = SemFSMode { user: true, group: false, other: false };
    let group = SemFSMode { user: false, group: true, other: false };
    let other = SemFSMode { user: false, group: false, other: true };
    assert_eq!(user.bits(), 0o700);
    assert_eq!(group.bits(), 0o070);
    assert_eq!(other.bits(), 0o007);
    assert_eq!(SemFSMode::empty().bits(), 0);
}

#[test]
fn mode_bits_all_is_union() {
    assert_eq!(SemFSMode::all().bits(), 0o777);
    assert_eq!(
        SemFSMode::all().bits(),
        MODE_BITS_USER | MODE_BITS_GROUP | MODE_BITS_OTHER
    );
}

#[test]
fn mode_bits_match_system_values() {
    assert_eq!(MODE_BITS_USER, libc::S_IRWXU);
    assert_eq!(MODE_BITS_GROUP, libc::S_IRWXG);
    assert_eq!(MODE_BITS_OTHER, libc::S_IRWXO);
    assert_eq!(SemFSMode::all().bits(), libc::S_IRWXU | libc::S_IRWXG | libc::S_IRWXO);
}

#[test]
fn policy_bits_match_system_values() {
    assert_eq!(OpenPolicy::OpenOnly.bits(), 0);
    assert_eq!(OpenPolicy::Create.bits(), libc::O_CREAT);
    assert_eq!(OpenPolicy::CreateExclusive.bits(), libc::O_CREAT | libc::O_EXCL);
    assert_eq!(CREATE_FLAG_BITS, libc::O_CREAT);
    assert_eq!(EXCLUSIVE_FLAG_BITS, libc::O_EXCL);
}

#[test]
fn create_alone_never_implies_exclusivity() {
    assert_eq!(OpenPolicy::Create.bits() & libc::O_EXCL, 0);
    assert_ne!(OpenPolicy::CreateExclusive.bits() & libc::O_EXCL, 0);
    assert_ne!(OpenPolicy::CreateExclusive.bits() & libc::O_CREAT, 0);
}

#[test]
fn policy_from_intent_flags() {
    assert_eq!(OpenPolicy::from_flags(false, false), OpenPolicy::OpenOnly);
    assert_eq!(OpenPolicy::from_flags(false, true), OpenPolicy::OpenOnly);
    assert_eq!(OpenPolicy::from_flags(true, false), OpenPolicy::Create);
    assert_eq!(OpenPolicy::from_flags(true, true), OpenPolicy::CreateExclusive);
}

#[test]
fn name_is_terminated() {
    let bytes = encode_name("TEST_SEM").unwrap();
    assert_eq!(bytes, b"TEST_SEM\0".to_vec());
}

#[test]
fn empty_name_is_just_the_terminator() {
    let bytes = encode_name("").unwrap();
    assert_eq!(bytes, vec![0u8]);
}

#[test]
fn multi_byte_name_keeps_its_encoding() {
    let bytes = encode_name("sémaphore").unwrap();
    let mut expected = "sémaphore".as_bytes().to_vec();
    expected.push(0);
    assert_eq!(bytes, expected);
}

#[test]
fn embedded_terminator_is_a_name_encoding_error() {
    assert_eq!(encode_name("bad\0name"), Err(SemError::NameEncoding));
    assert_eq!(encode_name("\0"), Err(SemError::NameEncoding));
    assert_eq!(encode_name("trailing\0"), Err(SemError::NameEncoding));
}

#[test]
fn error_carries_the_os_code() {
    let err = SemError::SystemResource { code: libc::EEXIST };
    assert_eq!(err.os_code(), Some(libc::EEXIST));
    assert_eq!(SemError::NameEncoding.os_code(), None);
}
