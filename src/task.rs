//! Faults surfaced by task bodies, the retry decision taken on them, and the
//! adapter that lifts any failure into one.
use vstd::prelude::*;

verus! {

/// An absolute point in time in UTC: whole seconds since the Unix epoch and
/// the nanoseconds within that second.
#[derive(Clone, Copy, Debug, PartialEq, Eq, Structural)]
pub struct Timestamp {
    pub secs: i64,
    pub nanos: u32,
}

impl Timestamp {
    /// Whether `self` comes strictly after `other`: the seconds are compared
    /// first, the nanoseconds within them after.
    pub open spec fn spec_is_after(self, other: Timestamp) -> bool {
        ||| self.secs > other.secs
        ||| (self.secs == other.secs && self.nanos > other.nanos)
    }

    /// Whether `self` comes strictly after `other`.
    pub fn is_after(&self, other: &Timestamp) -> (r: bool)
        ensures
            r == self.spec_is_after(*other),
    {
        self.secs > other.secs || (self.secs == other.secs && self.nanos > other.nanos)
    }
}

/// A fault surfaced by a task body.
#[derive(Debug)]
pub enum TaskError {
    /// A fault expected to happen every once in a while, such as a dependent
    /// service being briefly unavailable. Logged at a low severity; retried
    /// unless the retries are exhausted.
    ExpectedError(String),
    /// A fault that was not expected. Logged at a high severity; retried only
    /// where the task is configured to retry on unexpected faults.
    UnexpectedError(String),
    /// The task ran over its time limit. Logged at a high severity; retried as
    /// an expected fault is.
    TimeoutError,
    /// The task asks to be retried, at the given time if there is one, and
    /// after a backoff that the retry policy computes if there is none.
    Retry(Option<Timestamp>),
}

/// What a `TaskError` holds, with its messages as sequences of characters.
pub enum TaskErrorView {
    Expected(Seq<char>),
    Unexpected(Seq<char>),
    Timeout,
    Retry(Option<Timestamp>),
}

impl View for TaskError {
    type V = TaskErrorView;

    open spec fn view(&self) -> TaskErrorView {
        match self {
            TaskError::ExpectedError(m) => TaskErrorView::Expected(m@),
            TaskError::UnexpectedError(m) => TaskErrorView::Unexpected(m@),
            TaskError::TimeoutError => TaskErrorView::Timeout,
            TaskError::Retry(eta) => TaskErrorView::Retry(*eta),
        }
    }
}

/// The retry configuration of a task.
#[derive(Clone, Copy, Debug, PartialEq, Eq, Structural)]
pub struct RetryPolicy {
    /// How many times the task may be retried; `None` sets no limit.
    pub max_retries: Option<u32>,
    /// Whether an unexpected fault is retried.
    pub retry_for_unexpected: bool,
}

impl RetryPolicy {
    /// Whether a task that has already been retried `retries` times may be
    /// retried once more.
    pub open spec fn spec_allows_retry(self, retries: u32) -> bool {
        match self.max_retries {
            Some(max) => retries < max,
            None => true,
        }
    }

    /// Whether the fault `e` asks for a retry at all, before the limit is
    /// consulted.
    pub open spec fn spec_retries_on(self, e: TaskErrorView) -> bool {
        match e {
            TaskErrorView::Expected(_) => true,
            TaskErrorView::Unexpected(_) => self.retry_for_unexpected,
            TaskErrorView::Timeout => true,
            TaskErrorView::Retry(_) => true,
        }
    }

    /// Whether a task that failed with `e` after `retries` retries is retried.
    pub open spec fn spec_should_retry(self, e: TaskErrorView, retries: u32) -> bool {
        self.spec_retries_on(e) && self.spec_allows_retry(retries)
    }

    /// Decides whether a task that failed with `e` after `retries` retries is
    /// retried: an expected fault, a timeout and an explicit retry are, an
    /// unexpected fault only where the policy says so, and none once the
    /// retries are exhausted.
    pub fn should_retry(&self, e: &TaskError, retries: u32) -> (r: bool)
        ensures
            r == self.spec_should_retry(e@, retries),
    {
        let eligible = match e {
            TaskError::ExpectedError(_) => true,
            TaskError::UnexpectedError(_) => self.retry_for_unexpected,
            TaskError::TimeoutError => true,
            TaskError::Retry(_) => true,
        };
        if !eligible {
            return false;
        }
        match self.max_retries {
            Some(max) => retries < max,
            None => true,
        }
    }
}

/// What a result holds after its failure is adapted into a task fault: the
/// success value unchanged, or a fault of the chosen severity whose message
/// is `context`.
pub open spec fn adapted<T>(ok: Option<T>, context: Seq<char>, expected: bool) -> Result<
    T,
    TaskErrorView,
> {
    match ok {
        Some(v) => Ok(v),
        None => Err(
            if expected {
                TaskErrorView::Expected(context)
            } else {
                TaskErrorView::Unexpected(context)
            },
        ),
    }
}

/// A result whose fault is seen through its view.
pub open spec fn result_view<T>(r: Result<T, TaskError>) -> Result<T, TaskErrorView> {
    match r {
        Ok(v) => Ok(v),
        Err(e) => Err(e@),
    }
}

/// Conversion of a result of a task body into one whose failure is a task
/// fault. The message of the fault is the context given; the failure's own
/// description is left for the caller to log before adapting.
pub trait TaskResultExt<T, E>: Sized {
    /// The success value, or `None` where the result is a failure.
    spec fn ok_value(&self) -> Option<T>;

    /// Converts the failure to a `TaskError::ExpectedError`.
    fn with_expected_err(self, context: &str) -> (r: Result<T, TaskError>)
        ensures
            result_view(r) == adapted(self.ok_value(), context@, true),
    ;

    /// Converts the failure to a `TaskError::UnexpectedError`.
    fn with_unexpected_err(self, context: &str) -> (r: Result<T, TaskError>)
        ensures
            result_view(r) == adapted(self.ok_value(), context@, false),
    ;
}

impl<T, E> TaskResultExt<T, E> for Result<T, E> {
    open spec fn ok_value(&self) -> Option<T> {
        match self {
            Ok(v) => Some(*v),
            Err(_) => None,
        }
    }

    fn with_expected_err(self, context: &str) -> (r: Result<T, TaskError>) {
        match self {
            Ok(v) => Ok(v),
            Err(_) => Err(TaskError::ExpectedError(context.to_string())),
        }
    }

    fn with_unexpected_err(self, context: &str) -> (r: Result<T, TaskError>) {
        match self {
            Ok(v) => Ok(v),
            Err(_) => Err(TaskError::UnexpectedError(context.to_string())),
        }
    }
}

} // verus!
