use screencapturekit::completion::{completion_result, void_completion_result, PendingCompletion};
use screencapturekit::errors::{create_cf_error, create_sc_error, SC_ERROR_CODE};

#[test]
fn a_reported_error_comes_back_unchanged() {
    let err = create_cf_error("TestDomain", -42);
    let r: Result<u32, _> = completion_result(Some(7), Some(err));
    let e = r.unwrap_err();
    assert_eq!(e.domain, "TestDomain");
    assert_eq!(e.code, -42);
}

#[test]
fn a_payload_without_an_error_is_success() {
    let r: Result<u32, _> = completion_result(Some(7), None);
    assert_eq!(r.unwrap(), 7);
}

#[test]
fn neither_payload_nor_error_is_the_bindings_own_error() {
    let r: Result<u32, _> = completion_result(None, None);
    let e = r.unwrap_err();
    assert_eq!(e.code, SC_ERROR_CODE);
    assert_eq!(e.domain, "completion returned neither a value nor an error");
}

#[test]
fn void_completion_maps_both_ways() {
    assert!(void_completion_result(None).is_ok());
    let e = void_completion_result(Some(create_sc_error("stopped"))).unwrap_err();
    assert_eq!(e.domain, "stopped");
    assert_eq!(e.code, SC_ERROR_CODE);
}

#[test]
fn a_pending_completion_resolves_once_and_is_read_after() {
    let mut pending: PendingCompletion<u64> = PendingCompletion::new();
    assert!(pending.pending());
    pending.fire(Some(1000), None);
    assert!(!pending.pending());
    assert_eq!(pending.take().unwrap(), 1000);
}

#[test]
fn a_fired_error_reaches_the_blocked_caller() {
    let mut pending: PendingCompletion<u64> = PendingCompletion::new();
    pending.fire(None, Some(create_cf_error("CaptureDomain", 3)));
    let e = pending.take().unwrap_err();
    assert_eq!(e.domain, "CaptureDomain");
    assert_eq!(e.code, 3);
}
