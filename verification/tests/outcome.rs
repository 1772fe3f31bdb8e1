use pidfd_getfd::{descriptor_from_raw, PendingOsError, RAW_FAILURE};

#[test]
fn failure_value_is_minus_one() {
    assert_eq!(RAW_FAILURE, -1i32);
}

#[test]
fn failed_call_yields_the_pending_os_error() {
    assert_eq!(descriptor_from_raw(-1), Err(PendingOsError));
    assert_eq!(descriptor_from_raw(RAW_FAILURE), Err(PendingOsError));
}

#[test]
fn failed_call_yields_no_descriptor() {
    assert_eq!(descriptor_from_raw(-1).ok(), None);
}

#[test]
fn served_call_yields_the_descriptor_unchanged() {
    assert_eq!(descriptor_from_raw(3), Ok(3));
    assert_eq!(descriptor_from_raw(1023), Ok(1023));
}

#[test]
fn descriptor_zero_is_a_served_call() {
    assert_eq!(descriptor_from_raw(0), Ok(0));
}

#[test]
fn largest_descriptor_is_a_served_call() {
    assert_eq!(descriptor_from_raw(i32::MAX), Ok(i32::MAX));
}

#[test]
fn only_the_failure_value_is_an_error() {
    assert_eq!(descriptor_from_raw(-2), Ok(-2));
    assert_eq!(descriptor_from_raw(i32::MIN), Ok(i32::MIN));
}

#[test]
fn every_kernel_result_is_an_error_or_a_descriptor_from_zero_up() {
    for raw in -1..4096 {
        match descriptor_from_raw(raw) {
            Ok(fd) => {
                assert_ne!(raw, -1);
                assert_eq!(fd, raw);
                assert!(fd >= 0);
            }
            Err(PendingOsError) => assert_eq!(raw, -1),
        }
    }
}

#[test]
fn same_raw_result_has_the_same_meaning_each_time() {
    assert_eq!(descriptor_from_raw(17), descriptor_from_raw(17));
    assert_eq!(descriptor_from_raw(-1), descriptor_from_raw(-1));
    assert_ne!(descriptor_from_raw(17), descriptor_from_raw(18));
}
