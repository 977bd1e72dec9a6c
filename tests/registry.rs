use job_supervisor::cancel::{CancelRegistry, DownloadState};

#[test]
fn handles_are_fresh_and_start_clear() {
    let mut r = CancelRegistry::new();
    let a = r.register().unwrap();
    let b = r.register().unwrap();
    assert_ne!(a, b);
    assert!(!r.is_cancelled(a));
    assert!(!r.is_cancelled(b));
}

#[test]
fn signal_sets_only_its_operation() {
    let mut r = CancelRegistry::new();
    let a = r.register().unwrap();
    let b = r.register().unwrap();
    assert!(r.signal(a));
    assert!(r.is_cancelled(a));
    assert!(!r.is_cancelled(b));
}

#[test]
fn signal_twice_is_signal_once() {
    let mut r = CancelRegistry::new();
    let a = r.register().unwrap();
    assert!(r.signal(a));
    assert!(r.signal(a));
    assert!(r.is_cancelled(a));
}

#[test]
fn stale_handle_cancels_nothing() {
    let mut r = CancelRegistry::new();
    let a = r.register().unwrap();
    r.release(a);
    assert!(!r.signal(a));
    let b = r.register().unwrap();
    assert_ne!(a, b);
    assert!(!r.is_cancelled(b));
    assert!(!r.is_cancelled(a));
}

#[test]
fn unknown_handle_is_not_cancelled() {
    let r = CancelRegistry::new();
    assert!(!r.is_cancelled(42));
}

#[test]
fn flag_record() {
    let s = DownloadState { abort: true };
    assert!(s.abort);
}
