use httpsys_server::overlapped::completion_callback;
use httpsys_server::overlapped::OverlappedFuture;
use httpsys_server::overlapped::OverlappedObject;
use httpsys_server::overlapped::OverlappedPoll;
use httpsys_server::overlapped::OverlappedWrap;
use httpsys_server::overlapped::Submission;
use httpsys_server::status::IoError;
use httpsys_server::status::ERROR_INSUFFICIENT_BUFFER;
use httpsys_server::status::ERROR_INVALID_HANDLE;
use httpsys_server::status::ERROR_IO_INCOMPLETE;
use httpsys_server::status::ERROR_IO_PENDING;
use httpsys_server::status::NO_ERROR;
use httpsys_server::status::STATUS_BUFFER_OVERFLOW;
use std::task::Waker;
use windows::Win32::Foundation::WIN32_ERROR;

#[test]
fn status_constants_are_those_of_the_platform() {
    assert_eq!(NO_ERROR, windows::Win32::Foundation::NO_ERROR.0);
    assert_eq!(ERROR_INVALID_HANDLE, windows::Win32::Foundation::ERROR_INVALID_HANDLE.0);
    assert_eq!(ERROR_INSUFFICIENT_BUFFER, windows::Win32::Foundation::ERROR_INSUFFICIENT_BUFFER.0);
    assert_eq!(ERROR_IO_INCOMPLETE, windows::Win32::Foundation::ERROR_IO_INCOMPLETE.0);
    assert_eq!(ERROR_IO_PENDING, windows::Win32::Foundation::ERROR_IO_PENDING.0);
    assert_eq!(STATUS_BUFFER_OVERFLOW, 0x8000_0005);
}

#[test]
fn hresult_of_access_denied() {
    let error = IoError { code: 5 };
    assert_eq!(error.native_code(), 5);
    assert_eq!(error.hresult(), -2147024891);
    assert_eq!(error.hresult() as u32, 0x8007_0005);
}

#[test]
fn hresult_of_no_error_is_zero() {
    assert_eq!(IoError { code: 0 }.hresult(), 0);
}

#[test]
fn hresult_keeps_only_the_low_sixteen_bits() {
    assert_eq!(IoError { code: 0x0001_0005 }.hresult() as u32, 0x8007_0005);
    assert_eq!(IoError { code: STATUS_BUFFER_OVERFLOW }.hresult() as u32, 0x8007_0005);
    assert_eq!(IoError { code: 0xFFFF_FFFF }.hresult() as u32, 0x8007_FFFF);
}

#[test]
fn hresult_agrees_with_the_platform_crate() {
    for code in [0u32, 1, 5, 6, 122, 996, 997, 1229, 0xFFFF, 0x1_0000, 0x8000_0005, u32::MAX] {
        assert_eq!(IoError { code }.hresult(), WIN32_ERROR(code).to_hresult().0);
        assert_eq!(IoError { code }.hresult() < 0, code != 0);
    }
}

#[test]
fn insufficient_buffer_is_request_too_large() {
    assert!(IoError { code: 122 }.is_request_too_large());
    assert!(!IoError { code: 5 }.is_request_too_large());
}

#[test]
fn submission_pending_waits() {
    let submission = Submission::from_status(997);
    assert_eq!(submission, Submission::Pending);
    assert!(submission.handed_over());
}

#[test]
fn submission_no_error_counts_as_completed() {
    let submission = Submission::from_status(0);
    assert_eq!(submission, Submission::Completed);
    assert!(submission.handed_over());
}

#[test]
fn submission_failure_carries_native_code() {
    let submission = Submission::from_status(1229);
    assert_eq!(submission, Submission::Failed(IoError { code: 1229 }));
    assert!(!submission.handed_over());
}

#[test]
fn submission_with_small_buffer_is_a_defined_error() {
    match Submission::from_status(ERROR_INSUFFICIENT_BUFFER) {
        Submission::Failed(error) => assert!(error.is_request_too_large()),
        other => panic!("unexpected {:?}", other),
    }
}

#[test]
fn new_operation_has_empty_record() {
    let object = OverlappedObject::new();
    assert_eq!(object.get_ec(), 0);
    assert_eq!(object.get_len(), 0);
    assert_eq!(object.result(), Ok(0));
}

#[test]
fn completion_records_byte_count() {
    let mut object = OverlappedObject::new();
    object.complete(NO_ERROR, 321);
    assert_eq!(object.get_ec(), 0);
    assert_eq!(object.get_len(), 321);
    assert_eq!(object.result(), Ok(321));
}

#[test]
fn completion_with_error_records_status_and_keeps_length() {
    let mut object = OverlappedObject::new();
    object.complete(1229, 77);
    assert_eq!(object.get_ec(), 1229);
    assert_eq!(object.get_len(), 0);
    assert_eq!(object.result(), Err(IoError { code: 1229 }));
}

#[test]
fn buffer_overflow_status_counts_as_success() {
    let mut object = OverlappedObject::new();
    object.complete(STATUS_BUFFER_OVERFLOW, 4096);
    assert_eq!(object.get_ec(), 0);
    assert_eq!(object.result(), Ok(4096));
}

#[test]
fn completion_wakes_the_waiting_token() {
    let mut object = OverlappedObject::new();
    let token = object.wait();
    let waker = Waker::noop();
    assert!(!token.poll(waker));
    object.complete(NO_ERROR, 10);
    assert!(token.poll(waker));
}

#[test]
fn completion_callback_takes_any_status() {
    let mut wrap = OverlappedWrap::new();
    completion_callback(&mut wrap, 5, 9);
    let mut other = OverlappedWrap::new();
    completion_callback(&mut other, 0, 9);
}

#[test]
fn stale_request_id_surfaces_an_error() {
    let stale = 1229;
    assert_eq!(Submission::from_status(stale), Submission::Failed(IoError { code: stale }));
    let mut object = OverlappedObject::new();
    object.complete(stale, 0);
    assert_eq!(object.result(), Err(IoError { code: stale }));
}

#[test]
fn overlapped_poll_ready() {
    let future = OverlappedFuture::new(42);
    assert_eq!(future.handle(), 42);
    assert_eq!(future.poll(true, 0), OverlappedPoll::Ready);
    assert_eq!(future.poll(true, ERROR_IO_INCOMPLETE), OverlappedPoll::Ready);
}

#[test]
fn overlapped_poll_incomplete_rearms() {
    let future = OverlappedFuture::new(42);
    assert_eq!(future.poll(false, ERROR_IO_INCOMPLETE), OverlappedPoll::Rearm);
}

#[test]
fn overlapped_poll_other_error_fails() {
    let future = OverlappedFuture::new(42);
    assert_eq!(future.poll(false, 6), OverlappedPoll::Failed(IoError { code: 6 }));
    assert_eq!(future.poll(false, 0), OverlappedPoll::Failed(IoError { code: 0 }));
}

