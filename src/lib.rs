//! Failure classification and retry decisions for a distributed task-queue
//! client.
//!
//! Raw faults from the transport, the wire codecs and task bodies are reduced
//! to a small closed taxonomy whose classification the reconnect and retry
//! policies act on.
mod outside;

pub mod app_error;
pub mod broker;
pub mod laws;
pub mod protocol;
pub mod task;
pub mod trace;

pub use app_error::{BeatError, CeleryError};
pub use broker::{AmqpFault, AmqpFaultKind, BrokerError};
pub use protocol::{ContentTypeError, ProtocolError};
pub use task::{RetryPolicy, TaskError, TaskErrorView, TaskResultExt, Timestamp};
pub use trace::{is_expired, trace_outcome, trace_task, TraceError, TraceErrorView};
