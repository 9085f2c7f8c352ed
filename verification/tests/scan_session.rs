use std::time::Duration;

use gdble::event::OperationId;
use gdble::scan::{next_counter, ScanGeneration, ScanSession};

#[test]
fn scan_session_rejects_a_second_start_while_active() {
    let mut session = ScanSession::default();
    session
        .start(OperationId::new(1), None)
        .expect("first scan starts");
    let error = session
        .start(OperationId::new(2), None)
        .expect_err("second scan must fail");
    assert_eq!(error.code(), "BUSY");
}

#[test]
fn stale_scan_generation_cannot_finish_the_current_scan() {
    let mut session = ScanSession::default();
    let first = session
        .start(OperationId::new(1), None)
        .expect("first scan starts");
    session.finish(first).expect("first scan finishes");
    let second = session
        .start(OperationId::new(2), None)
        .expect("second scan starts");
    assert!(!session.finish(first).expect("stale finish is ignored"));
    assert_eq!(session.active_generation(), Some(second));
}

#[test]
fn refused_start_keeps_the_running_scan() {
    let mut session = ScanSession::default();
    let first = session
        .start(OperationId::new(1), Some(Duration::from_secs(5)))
        .unwrap();
    let error = session.start(OperationId::new(2), None).unwrap_err();
    assert_eq!(error.to_string(), "操作正在进行中: scan already active");
    let active = session.active().expect("scan still running");
    assert_eq!(active.generation, first);
    assert_eq!(active.operation_id, OperationId::new(1));
    assert_eq!(active.timeout, Some(Duration::from_secs(5)));
}

#[test]
fn generations_count_up_from_one() {
    let mut session = ScanSession::default();
    assert_eq!(session.active_generation(), None);
    let first = session.start(OperationId::new(1), None).unwrap();
    assert_eq!(first, ScanGeneration(1));
    assert!(session.finish(first).unwrap());
    assert!(!session.finish(first).unwrap());
    let second = session.start(OperationId::new(2), None).unwrap();
    assert_eq!(second, ScanGeneration(2));
}

#[test]
fn counters_wrap_to_zero() {
    assert_eq!(next_counter(0), 1);
    assert_eq!(next_counter(41), 42);
    assert_eq!(next_counter(u64::MAX), 0);
}
