//! Laws that relate the classifiers, conversions and reductions of the
//! taxonomy.
use vstd::prelude::*;
use vstd::std_specs::convert::FromSpec;
use crate::broker::{AmqpFaultKind, BrokerError};
use crate::protocol::{ContentTypeError, ProtocolError};
use crate::task::{adapted, RetryPolicy, TaskErrorView, TaskResultExt, Timestamp};
use crate::trace::{reduced, TraceErrorView};

verus! {

/// A broker fault is connection-recoverable exactly when it is an I/O fault,
/// the disconnected state, or an AMQP fault of one of the kinds protocol
/// violation, invalid connection state and invalid channel state; every other
/// fault is permanent.
pub proof fn lemma_connection_error_partition(b: BrokerError)
    ensures
        b.spec_is_connection_error() <==> {
            ||| b is IoError
            ||| b is NotConnected
            ||| b matches BrokerError::AMQPError(f) && f.spec_kind() == AmqpFaultKind::Protocol
            ||| b matches BrokerError::AMQPError(f) && f.spec_kind()
                == AmqpFaultKind::InvalidConnectionState
            ||| b matches BrokerError::AMQPError(f) && f.spec_kind()
                == AmqpFaultKind::InvalidChannelState
        },
        b is InvalidBrokerUrl ==> !b.spec_is_connection_error(),
        b is UnknownQueue ==> !b.spec_is_connection_error(),
{
}

/// A codec fault wrapped into a `ContentTypeError` and then into a
/// `ProtocolError` unwraps to the fault under the tag of its codec, and
/// converting the codec fault into a `ProtocolError` directly gives the same.
pub proof fn lemma_body_fault_keeps_codec(
    json: serde_json::Error,
    yaml: serde_yaml::Error,
    pickle: serde_pickle::Error,
    decode: rmp_serde::decode::Error,
    encode: rmp_serde::encode::Error,
    value: rmpv::ext::Error,
)
    ensures
        <ProtocolError as FromSpec<ContentTypeError>>::from_spec(
            <ContentTypeError as FromSpec<serde_json::Error>>::from_spec(json),
        ).spec_body_fault() == Some(ContentTypeError::Json(json)),
        <ProtocolError as FromSpec<ContentTypeError>>::from_spec(
            <ContentTypeError as FromSpec<serde_yaml::Error>>::from_spec(yaml),
        ).spec_body_fault() == Some(ContentTypeError::Yaml(yaml)),
        <ProtocolError as FromSpec<ContentTypeError>>::from_spec(
            <ContentTypeError as FromSpec<serde_pickle::Error>>::from_spec(pickle),
        ).spec_body_fault() == Some(ContentTypeError::Pickle(pickle)),
        <ProtocolError as FromSpec<ContentTypeError>>::from_spec(
            <ContentTypeError as FromSpec<rmp_serde::decode::Error>>::from_spec(decode),
        ).spec_body_fault() == Some(ContentTypeError::MsgPackDecode(decode)),
        <ProtocolError as FromSpec<ContentTypeError>>::from_spec(
            <ContentTypeError as FromSpec<rmp_serde::encode::Error>>::from_spec(encode),
        ).spec_body_fault() == Some(ContentTypeError::MsgPackEncode(encode)),
        <ProtocolError as FromSpec<ContentTypeError>>::from_spec(
            <ContentTypeError as FromSpec<rmpv::ext::Error>>::from_spec(value),
        ).spec_body_fault() == Some(ContentTypeError::MsgPackValue(value)),
        <ProtocolError as FromSpec<serde_json::Error>>::from_spec(json)
            == <ProtocolError as FromSpec<ContentTypeError>>::from_spec(
            <ContentTypeError as FromSpec<serde_json::Error>>::from_spec(json),
        ),
        <ProtocolError as FromSpec<serde_yaml::Error>>::from_spec(yaml)
            == <ProtocolError as FromSpec<ContentTypeError>>::from_spec(
            <ContentTypeError as FromSpec<serde_yaml::Error>>::from_spec(yaml),
        ),
        <ProtocolError as FromSpec<serde_pickle::Error>>::from_spec(pickle)
            == <ProtocolError as FromSpec<ContentTypeError>>::from_spec(
            <ContentTypeError as FromSpec<serde_pickle::Error>>::from_spec(pickle),
        ),
        <ProtocolError as FromSpec<rmp_serde::decode::Error>>::from_spec(decode)
            == <ProtocolError as FromSpec<ContentTypeError>>::from_spec(
            <ContentTypeError as FromSpec<rmp_serde::decode::Error>>::from_spec(decode),
        ),
        <ProtocolError as FromSpec<rmp_serde::encode::Error>>::from_spec(encode)
            == <ProtocolError as FromSpec<ContentTypeError>>::from_spec(
            <ContentTypeError as FromSpec<rmp_serde::encode::Error>>::from_spec(encode),
        ),
        <ProtocolError as FromSpec<rmpv::ext::Error>>::from_spec(value)
            == <ProtocolError as FromSpec<ContentTypeError>>::from_spec(
            <ContentTypeError as FromSpec<rmpv::ext::Error>>::from_spec(value),
        ),
{
}

/// Under a limit of `max` retries, an expected fault is retried exactly while
/// fewer than `max` retries have been made: never where `max` is zero, and no
/// more once `max` retries have been made.
pub proof fn lemma_expected_fault_retry_limit(
    message: Seq<char>,
    retry_for_unexpected: bool,
    max: u32,
    retries: u32,
)
    ensures
        ({
            let policy = RetryPolicy { max_retries: Some(max), retry_for_unexpected };
            &&& policy.spec_should_retry(TaskErrorView::Expected(message), retries) <==> retries
                < max
            &&& max == 0 ==> !policy.spec_should_retry(TaskErrorView::Expected(message), retries)
            &&& retries == max ==> !policy.spec_should_retry(
                TaskErrorView::Expected(message),
                retries,
            )
        }),
{
}

/// An explicit retry at time `t` that the policy allows reduces to a retry at
/// `t` itself, not at a computed backoff.
pub proof fn lemma_explicit_resume_time(t: Timestamp, policy: RetryPolicy, retries: u32)
    requires
        policy.spec_allows_retry(retries),
    ensures
        reduced(TaskErrorView::Retry(Some(t)), policy, retries) == TraceErrorView::Retry(Some(t)),
{
}

/// Adapting two failures with the same context gives the same task fault, of
/// the chosen severity and with the context as its message, whatever the
/// failures themselves held.
pub proof fn lemma_adapter_ignores_failure<T, E>(
    a: Result<T, E>,
    b: Result<T, E>,
    context: Seq<char>,
)
    requires
        a is Err,
        b is Err,
    ensures
        adapted(a.ok_value(), context, true) == adapted(b.ok_value(), context, true),
        adapted(a.ok_value(), context, true) == Err::<T, TaskErrorView>(
            TaskErrorView::Expected(context),
        ),
        adapted(a.ok_value(), context, false) == adapted(b.ok_value(), context, false),
        adapted(a.ok_value(), context, false) == Err::<T, TaskErrorView>(
            TaskErrorView::Unexpected(context),
        ),
{
}

} // verus!
