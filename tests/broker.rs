use std::sync::Arc;

use celery::{AmqpFaultKind, BrokerError};
use lapin::protocol::{AMQPError, AMQPErrorKind, AMQPHardError};

fn amqp(err: lapin::Error) -> BrokerError {
    BrokerError::from_amqp(err)
}

fn kind_of(b: &BrokerError) -> AmqpFaultKind {
    match b {
        BrokerError::AMQPError(fault) => fault.kind(),
        _ => panic!("not an AMQP fault"),
    }
}

#[test]
fn plain_variants_partition() {
    assert!(BrokerError::NotConnected.is_connection_error());
    let io = std::io::Error::new(std::io::ErrorKind::ConnectionRefused, "refused");
    assert!(BrokerError::from(io).is_connection_error());
    assert!(!BrokerError::InvalidBrokerUrl("amqp://[".to_string()).is_connection_error());
    assert!(!BrokerError::UnknownQueue("missing".to_string()).is_connection_error());
}

#[test]
fn recoverable_amqp_kinds() {
    let protocol = amqp(lapin::Error::ProtocolError(AMQPError::new(
        AMQPErrorKind::Hard(AMQPHardError::CONNECTIONFORCED),
        "forced".into(),
    )));
    assert_eq!(kind_of(&protocol), AmqpFaultKind::Protocol);
    assert!(protocol.is_connection_error());

    let conn = amqp(lapin::Error::InvalidConnectionState(lapin::ConnectionState::Closed));
    assert_eq!(kind_of(&conn), AmqpFaultKind::InvalidConnectionState);
    assert!(conn.is_connection_error());

    let chan = amqp(lapin::Error::InvalidChannelState(lapin::ChannelState::Closed));
    assert_eq!(kind_of(&chan), AmqpFaultKind::InvalidChannelState);
    assert!(chan.is_connection_error());
}

#[test]
fn permanent_amqp_kinds() {
    let cases = vec![
        (lapin::Error::ChannelsLimitReached, AmqpFaultKind::ChannelsLimitReached),
        (
            lapin::Error::InvalidProtocolVersion(
                amq_protocol::frame::ProtocolVersion::amqp_0_9_1(),
            ),
            AmqpFaultKind::InvalidProtocolVersion,
        ),
        (lapin::Error::InvalidChannel(7), AmqpFaultKind::InvalidChannel),
        (
            lapin::Error::IOError(Arc::new(std::io::Error::new(
                std::io::ErrorKind::BrokenPipe,
                "pipe",
            ))),
            AmqpFaultKind::Io,
        ),
        (
            lapin::Error::ParsingError(nom::Err::Incomplete(nom::Needed::Unknown)),
            AmqpFaultKind::Parsing,
        ),
        (
            lapin::Error::SerialisationError(Arc::new(
                lapin::types::generation::GenError::InvalidOffset,
            )),
            AmqpFaultKind::Serialisation,
        ),
        (lapin::Error::MissingHeartbeatError, AmqpFaultKind::MissingHeartbeat),
    ];
    for (err, kind) in cases {
        let b = amqp(err);
        assert_eq!(kind_of(&b), kind);
        assert!(!b.is_connection_error());
    }
}

#[test]
fn amqp_fault_keeps_library_error() {
    let b = amqp(lapin::Error::InvalidChannel(42));
    match b {
        BrokerError::AMQPError(fault) => {
            assert!(matches!(fault.error(), lapin::Error::InvalidChannel(42)));
            assert!(matches!(fault.into_error(), lapin::Error::InvalidChannel(42)));
        }
        _ => panic!("not an AMQP fault"),
    }
}
