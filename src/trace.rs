//! The reduction that the execution wrapper applies to the outcome of a task
//! body: the expiry check before the body runs, and the retry decision after.
use vstd::prelude::*;
use crate::task::{RetryPolicy, TaskError, TaskErrorView, Timestamp};

verus! {

/// A fault observed while executing a task.
#[derive(Debug)]
pub enum TraceError {
    /// The task body failed and is not retried; holds its fault.
    TaskError(TaskError),
    /// The task had expired when it was received; its body did not run.
    ExpirationError,
    /// The task is retried, at the given time if there is one.
    Retry(Option<Timestamp>),
}

/// What a `TraceError` holds, with the task fault seen through its view.
pub enum TraceErrorView {
    Task(TaskErrorView),
    Expiration,
    Retry(Option<Timestamp>),
}

impl View for TraceError {
    type V = TraceErrorView;

    open spec fn view(&self) -> TraceErrorView {
        match self {
            TraceError::TaskError(e) => TraceErrorView::Task(e@),
            TraceError::ExpirationError => TraceErrorView::Expiration,
            TraceError::Retry(eta) => TraceErrorView::Retry(*eta),
        }
    }
}

/// The time at which a retry of a task that failed with `e` may run: the one
/// the task asked for, if it asked for one.
pub open spec fn resume_time(e: TaskErrorView) -> Option<Timestamp> {
    match e {
        TaskErrorView::Retry(eta) => eta,
        _ => None,
    }
}

/// The fault that a task failing with `e` after `retries` retries reduces to.
pub open spec fn reduced(e: TaskErrorView, policy: RetryPolicy, retries: u32) -> TraceErrorView {
    if policy.spec_should_retry(e, retries) {
        TraceErrorView::Retry(resume_time(e))
    } else {
        TraceErrorView::Task(e)
    }
}

/// What a task body's outcome reduces to. `None` stands for a body that was
/// stopped at its time limit, which counts as a timeout.
pub open spec fn traced<R>(outcome: Option<Result<R, TaskErrorView>>, policy: RetryPolicy, retries: u32) -> Result<
    R,
    TraceErrorView,
> {
    match outcome {
        Some(Ok(v)) => Ok(v),
        Some(Err(e)) => Err(reduced(e, policy, retries)),
        None => Err(reduced(TaskErrorView::Timeout, policy, retries)),
    }
}

/// An outcome of a task body with its fault seen through its view.
pub open spec fn outcome_view<R>(outcome: Option<Result<R, TaskError>>) -> Option<Result<R, TaskErrorView>> {
    match outcome {
        Some(Ok(v)) => Some(Ok(v)),
        Some(Err(e)) => Some(Err(e@)),
        None => None,
    }
}

/// A traced result with its fault seen through its view.
pub open spec fn trace_view<R>(r: Result<R, TraceError>) -> Result<R, TraceErrorView> {
    match r {
        Ok(v) => Ok(v),
        Err(e) => Err(e@),
    }
}

/// Whether a task that expires at `expires` has expired at `now`.
pub open spec fn spec_is_expired(expires: Option<Timestamp>, now: Timestamp) -> bool {
    match expires {
        Some(t) => now.spec_is_after(t),
        None => false,
    }
}

/// Whether a task that expires at `expires` has expired at `now`; a task with
/// no expiry never expires.
pub fn is_expired(expires: Option<Timestamp>, now: Timestamp) -> (r: bool)
    ensures
        r == spec_is_expired(expires, now),
{
    match expires {
        Some(t) => now.is_after(&t),
        None => false,
    }
}

impl TraceError {
    /// Reduces the fault of a task body that has already been retried
    /// `retries` times: a retry, at the time the task asked for if it asked
    /// for one, where the policy retries it; the fault itself where not.
    pub fn from_task_error(e: TaskError, policy: &RetryPolicy, retries: u32) -> (r: TraceError)
        ensures
            r@ == reduced(e@, *policy, retries),
    {
        if policy.should_retry(&e, retries) {
            let eta = match e {
                TaskError::Retry(eta) => eta,
                _ => None,
            };
            TraceError::Retry(eta)
        } else {
            TraceError::TaskError(e)
        }
    }
}

/// Reduces the outcome of a task body: a success passes through, a fault is
/// reduced by the retry policy, and a body stopped at its time limit (`None`)
/// is reduced as a `TaskError::TimeoutError`.
pub fn trace_outcome<R>(outcome: Option<Result<R, TaskError>>, policy: &RetryPolicy, retries: u32) -> (r: Result<R, TraceError>)
    ensures
        trace_view(r) == traced(outcome_view(outcome), *policy, retries),
{
    match outcome {
        Some(Ok(v)) => Ok(v),
        Some(Err(e)) => Err(TraceError::from_task_error(e, policy, retries)),
        None => Err(TraceError::from_task_error(TaskError::TimeoutError, policy, retries)),
    }
}

/// Executes a task: a task that has expired at `now` yields
/// `TraceError::ExpirationError` without its body being called; otherwise the
/// body runs and its outcome is reduced as `trace_outcome` does. The body
/// returns `None` where it was stopped at its time limit.
pub fn trace_task<R, F: FnOnce() -> Option<Result<R, TaskError>>>(
    expires: Option<Timestamp>,
    now: Timestamp,
    body: F,
    policy: &RetryPolicy,
    retries: u32,
) -> (r: Result<R, TraceError>)
    requires
        !spec_is_expired(expires, now) ==> body.requires(()),
    ensures
        spec_is_expired(expires, now) ==> trace_view(r) == Err::<R, TraceErrorView>(
            TraceErrorView::Expiration,
        ),
        !spec_is_expired(expires, now) ==> exists|out: Option<Result<R, TaskError>>|
            #[trigger] body.ensures((), out) && trace_view(r) == traced(
                outcome_view(out),
                *policy,
                retries,
            ),
{
    if is_expired(expires, now) {
        return Err(TraceError::ExpirationError);
    }
    let out = body();
    trace_outcome(out, policy, retries)
}

} // verus!
