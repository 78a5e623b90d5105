use celery::{RetryPolicy, TaskError, TaskResultExt, Timestamp};

fn failure(text: &str) -> std::io::Error {
    std::io::Error::new(std::io::ErrorKind::ConnectionRefused, text.to_string())
}

fn limited(max: u32) -> RetryPolicy {
    RetryPolicy { max_retries: Some(max), retry_for_unexpected: false }
}

#[test]
fn expected_err_takes_context() {
    let r: Result<u32, std::io::Error> = Err(failure("connection refused"));
    match r.with_expected_err("fetch pricing data") {
        Err(TaskError::ExpectedError(m)) => assert_eq!(m, "fetch pricing data"),
        other => panic!("unexpected outcome: {:?}", other),
    }
}

#[test]
fn unexpected_err_takes_context() {
    let r: Result<u32, std::io::Error> = Err(failure("disk full"));
    match r.with_unexpected_err("write report") {
        Err(TaskError::UnexpectedError(m)) => assert_eq!(m, "write report"),
        other => panic!("unexpected outcome: {:?}", other),
    }
}

#[test]
fn adapter_keeps_success() {
    let r: Result<u32, std::io::Error> = Ok(5);
    assert!(matches!(r.with_expected_err("ctx"), Ok(5)));
    let r: Result<u32, std::io::Error> = Ok(6);
    assert!(matches!(r.with_unexpected_err("ctx"), Ok(6)));
}

#[test]
fn adapter_ignores_failure_text() {
    let a: Result<u32, std::io::Error> = Err(failure("timeout"));
    let b: Result<u32, std::io::Error> = Err(failure("connection reset by peer"));
    match (a.with_expected_err("sync"), b.with_expected_err("sync")) {
        (Err(TaskError::ExpectedError(x)), Err(TaskError::ExpectedError(y))) => {
            assert_eq!(x, y);
            assert_eq!(x, "sync");
        }
        other => panic!("unexpected outcome: {:?}", other),
    }
}

#[test]
fn expected_fault_with_no_retries_allowed() {
    let e = TaskError::ExpectedError("e".to_string());
    assert!(!limited(0).should_retry(&e, 0));
}

#[test]
fn expected_fault_retried_below_limit() {
    let e = TaskError::ExpectedError("e".to_string());
    assert!(limited(3).should_retry(&e, 0));
    assert!(limited(3).should_retry(&e, 2));
    assert!(!limited(3).should_retry(&e, 3));
    assert!(!limited(3).should_retry(&e, 4));
}

#[test]
fn timeout_and_retry_follow_limit() {
    assert!(limited(1).should_retry(&TaskError::TimeoutError, 0));
    assert!(!limited(1).should_retry(&TaskError::TimeoutError, 1));
    assert!(limited(1).should_retry(&TaskError::Retry(None), 0));
    assert!(!limited(1).should_retry(&TaskError::Retry(None), 1));
}

#[test]
fn unexpected_fault_follows_flag() {
    let e = TaskError::UnexpectedError("u".to_string());
    assert!(!limited(5).should_retry(&e, 0));
    let eager = RetryPolicy { max_retries: Some(5), retry_for_unexpected: true };
    assert!(eager.should_retry(&e, 0));
    assert!(!eager.should_retry(&e, 5));
}

#[test]
fn no_limit_always_retries() {
    let p = RetryPolicy { max_retries: None, retry_for_unexpected: false };
    assert!(p.should_retry(&TaskError::ExpectedError("e".to_string()), u32::MAX));
    assert!(!p.should_retry(&TaskError::UnexpectedError("u".to_string()), 0));
}

#[test]
fn timestamp_order() {
    let a = Timestamp { secs: 10, nanos: 5 };
    assert!(a.is_after(&Timestamp { secs: 9, nanos: 999_999_999 }));
    assert!(a.is_after(&Timestamp { secs: 10, nanos: 4 }));
    assert!(!a.is_after(&a));
    assert!(!a.is_after(&Timestamp { secs: 10, nanos: 6 }));
    assert!(!a.is_after(&Timestamp { secs: 11, nanos: 0 }));
    assert!(Timestamp { secs: 0, nanos: 0 }.is_after(&Timestamp { secs: -1, nanos: 0 }));
}
