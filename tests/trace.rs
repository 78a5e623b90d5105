use celery::{is_expired, trace_outcome, trace_task, RetryPolicy, TaskError, TraceError, Timestamp};

fn policy(max: u32) -> RetryPolicy {
    RetryPolicy { max_retries: Some(max), retry_for_unexpected: false }
}

fn at(secs: i64) -> Timestamp {
    Timestamp { secs, nanos: 0 }
}

#[test]
fn expired_task_body_not_called() {
    let r = trace_task(
        Some(at(100)),
        at(101),
        || -> Option<Result<u32, TaskError>> { panic!("the body of an expired task ran") },
        &policy(3),
        0,
    );
    assert!(matches!(r, Err(TraceError::ExpirationError)));
}

#[test]
fn task_at_expiry_still_runs() {
    let r = trace_task(Some(at(100)), at(100), || Some(Ok::<u32, TaskError>(7)), &policy(3), 0);
    assert!(matches!(r, Ok(7)));
    let r = trace_task(None, at(i64::MAX), || Some(Ok::<u32, TaskError>(8)), &policy(3), 0);
    assert!(matches!(r, Ok(8)));
}

#[test]
fn expiry_check() {
    assert!(!is_expired(None, at(5)));
    assert!(!is_expired(Some(at(5)), at(5)));
    assert!(is_expired(Some(at(5)), Timestamp { secs: 5, nanos: 1 }));
    assert!(!is_expired(Some(at(5)), at(4)));
}

#[test]
fn explicit_resume_time_is_kept() {
    let t = Timestamp { secs: 1_700_000_000, nanos: 250 };
    let r = trace_task(None, at(0), || Some(Err::<u32, TaskError>(TaskError::Retry(Some(t)))), &policy(3), 1);
    match r {
        Err(TraceError::Retry(Some(eta))) => assert_eq!(eta, t),
        other => panic!("unexpected outcome: {:?}", other),
    }
}

#[test]
fn retry_without_time_leaves_backoff() {
    let r = trace_outcome(Some(Err::<u32, TaskError>(TaskError::Retry(None))), &policy(3), 0);
    assert!(matches!(r, Err(TraceError::Retry(None))));
}

#[test]
fn exhausted_retry_reports_fault() {
    let t = at(50);
    let r = trace_outcome(Some(Err::<u32, TaskError>(TaskError::Retry(Some(t)))), &policy(2), 2);
    assert!(matches!(r, Err(TraceError::TaskError(TaskError::Retry(Some(eta)))) if eta == t));
}

#[test]
fn expected_fault_reduction() {
    let r = trace_outcome(Some(Err::<u32, TaskError>(TaskError::ExpectedError("x".to_string()))), &policy(1), 0);
    assert!(matches!(r, Err(TraceError::Retry(None))));
    let r = trace_outcome(Some(Err::<u32, TaskError>(TaskError::ExpectedError("x".to_string()))), &policy(0), 0);
    match r {
        Err(TraceError::TaskError(TaskError::ExpectedError(m))) => assert_eq!(m, "x"),
        other => panic!("unexpected outcome: {:?}", other),
    }
}

#[test]
fn stopped_body_is_timeout() {
    let r = trace_outcome::<u32>(None, &policy(1), 0);
    assert!(matches!(r, Err(TraceError::Retry(None))));
    let r = trace_outcome::<u32>(None, &policy(1), 1);
    assert!(matches!(r, Err(TraceError::TaskError(TaskError::TimeoutError))));
}

#[test]
fn unexpected_fault_reported() {
    let r = trace_outcome(Some(Err::<u32, TaskError>(TaskError::UnexpectedError("boom".to_string()))), &policy(5), 0);
    assert!(matches!(r, Err(TraceError::TaskError(TaskError::UnexpectedError(_)))));
}

#[test]
fn task_error_reduction_direct() {
    let r = TraceError::from_task_error(TaskError::TimeoutError, &policy(2), 1);
    assert!(matches!(r, TraceError::Retry(None)));
}
