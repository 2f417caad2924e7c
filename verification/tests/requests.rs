use named_semaphore::error::SemError;
use named_semaphore::flags::SemFSMode;
use named_semaphore::request::create_request;
use named_semaphore::request::open_or_create_plan;
use named_semaphore::request::open_request;
use named_semaphore::request::SemRequest;

#[test]
fn exclusive_create_request_carries_everything() {
    let req = create_request("TEST_SEM", SemFSMode::all(), 0, true).unwrap();
    match req {
        SemRequest::Create { name_bytes, oflag, mode_bits, initial_count } => {
            assert_eq!(name_bytes, b"TEST_SEM\0".to_vec());
            assert_eq!(oflag, libc::O_CREAT | libc::O_EXCL);
            assert_eq!(mode_bits, 0o777);
            assert_eq!(initial_count, 0);
        },
        SemRequest::Open { .. } => panic!("create must build a create request"),
    }
}

#[test]
fn plain_create_request_is_not_exclusive() {
    let mode = SemFSMode { user: true, group: false, other: false };
    let req = create_request("work_queue", mode, 3, false).unwrap();
    match req {
        SemRequest::Create { name_bytes, oflag, mode_bits, initial_count } => {
            assert_eq!(name_bytes, b"work_queue\0".to_vec());
            assert_eq!(oflag, libc::O_CREAT);
            assert_eq!(oflag & libc::O_EXCL, 0);
            assert_eq!(mode_bits, 0o700);
            assert_eq!(initial_count, 3);
        },
        SemRequest::Open { .. } => panic!("create must build a create request"),
    }
}

#[test]
fn open_request_sends_no_mode_and_no_count() {
    let req = open_request("TEST_SEM").unwrap();
    match req {
        SemRequest::Open { name_bytes } => {
            assert_eq!(name_bytes, b"TEST_SEM\0".to_vec());
        },
        SemRequest::Create { .. } => panic!("open must build an open-only request"),
    }
}

#[test]
fn create_request_rejects_embedded_terminator() {
    let r = create_request("bad\0name", SemFSMode::all(), 0, true);
    assert!(matches!(r, Err(SemError::NameEncoding)));
}

#[test]
fn open_request_rejects_embedded_terminator() {
    let r = open_request("bad\0name");
    assert!(matches!(r, Err(SemError::NameEncoding)));
}

#[test]
fn plan_opens_first_and_creates_second() {
    let plan = open_or_create_plan("shared", SemFSMode::all(), 7, false).unwrap();
    match plan.first_open {
        SemRequest::Open { name_bytes } => assert_eq!(name_bytes, b"shared\0".to_vec()),
        SemRequest::Create { .. } => panic!("the first step must only attach"),
    }
    match plan.then_create {
        SemRequest::Create { name_bytes, oflag, mode_bits, initial_count } => {
            assert_eq!(name_bytes, b"shared\0".to_vec());
            assert_eq!(oflag, libc::O_CREAT);
            assert_eq!(mode_bits, 0o777);
            assert_eq!(initial_count, 7);
        },
        SemRequest::Open { .. } => panic!("the fallback step must create"),
    }
}

#[test]
fn plan_keeps_the_exclusivity_request_in_the_fallback() {
    let plan = open_or_create_plan("shared", SemFSMode::all(), 0, true).unwrap();
    match plan.then_create {
        SemRequest::Create { oflag, .. } => {
            assert_eq!(oflag, libc::O_CREAT | libc::O_EXCL);
        },
        SemRequest::Open { .. } => panic!("the fallback step must create"),
    }
}

#[test]
fn plan_rejects_embedded_terminator_before_any_step() {
    let r = open_or_create_plan("bad\0name", SemFSMode::all(), 0, false);
    assert!(matches!(r, Err(SemError::NameEncoding)));
}
