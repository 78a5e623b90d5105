//! Transport-level faults and the classifier that separates the faults a
//! reconnect may cure from the permanent ones.
use vstd::prelude::*;
use vstd::std_specs::convert::FromSpecImpl;

verus! {

/// The kind of a fault of the AMQP client library, one kind for each of the
/// library's variants, so that the classifier can match on it exhaustively.
#[derive(Clone, Copy, Debug, PartialEq, Eq, Structural)]
pub enum AmqpFaultKind {
    /// The connection already has as many channels as it may have.
    ChannelsLimitReached,
    /// The server speaks another version of the protocol.
    InvalidProtocolVersion,
    /// The channel does not exist.
    InvalidChannel,
    /// The channel is in a state that does not allow the operation.
    InvalidChannelState,
    /// The connection is in a state that does not allow the operation.
    InvalidConnectionState,
    /// An I/O fault below the protocol.
    Io,
    /// A frame could not be parsed.
    Parsing,
    /// The peer violated the protocol or reported a protocol-level fault.
    Protocol,
    /// A frame could not be serialized.
    Serialisation,
    /// No heartbeat came from the server for too long.
    MissingHeartbeat,
    /// A variant that the client library added after this classification.
    Unclassified,
}

impl AmqpFaultKind {
    /// The kinds from which reconnecting may recover.
    pub open spec fn is_recoverable(self) -> bool {
        ||| self == AmqpFaultKind::Protocol
        ||| self == AmqpFaultKind::InvalidConnectionState
        ||| self == AmqpFaultKind::InvalidChannelState
    }
}

/// Relies on the variants of `lapin::Error`: tells them apart, one kind for
/// each variant.
#[verifier::external_body]
fn amqp_fault_kind(err: &lapin::Error) -> (r: AmqpFaultKind) {
    match err {
        lapin::Error::ChannelsLimitReached => AmqpFaultKind::ChannelsLimitReached,
        lapin::Error::InvalidProtocolVersion(_) => AmqpFaultKind::InvalidProtocolVersion,
        lapin::Error::InvalidChannel(_) => AmqpFaultKind::InvalidChannel,
        lapin::Error::InvalidChannelState(_) => AmqpFaultKind::InvalidChannelState,
        lapin::Error::InvalidConnectionState(_) => AmqpFaultKind::InvalidConnectionState,
        lapin::Error::IOError(_) => AmqpFaultKind::Io,
        lapin::Error::ParsingError(_) => AmqpFaultKind::Parsing,
        lapin::Error::ProtocolError(_) => AmqpFaultKind::Protocol,
        lapin::Error::SerialisationError(_) => AmqpFaultKind::Serialisation,
        lapin::Error::MissingHeartbeatError => AmqpFaultKind::MissingHeartbeat,
        _ => AmqpFaultKind::Unclassified,
    }
}

/// A fault of the AMQP client library together with its kind.
#[derive(Debug)]
pub struct AmqpFault {
    kind: AmqpFaultKind,
    error: lapin::Error,
}

impl AmqpFault {
    /// The kind of the fault.
    pub closed spec fn spec_kind(&self) -> AmqpFaultKind {
        self.kind
    }

    /// The fault as the client library raised it.
    pub closed spec fn spec_error(&self) -> lapin::Error {
        self.error
    }

    /// Classifies a fault of the client library and keeps it.
    pub fn new(error: lapin::Error) -> (r: AmqpFault)
        ensures
            r.spec_error() == error,
    {
        let kind = amqp_fault_kind(&error);
        AmqpFault { kind, error }
    }

    /// The kind of the fault.
    pub fn kind(&self) -> (r: AmqpFaultKind)
        ensures
            r == self.spec_kind(),
    {
        self.kind
    }

    /// The fault as the client library raised it.
    pub fn error(&self) -> (r: &lapin::Error)
        ensures
            *r == self.spec_error(),
    {
        &self.error
    }

    /// The fault as the client library raised it, giving up the kind.
    pub fn into_error(self) -> (r: lapin::Error)
        ensures
            r == self.spec_error(),
    {
        self.error
    }
}

/// A transport-level fault.
#[derive(Debug)]
pub enum BrokerError {
    /// The broker URL cannot be parsed; holds the URL.
    InvalidBrokerUrl(String),
    /// The queue has not been declared; holds its name.
    UnknownQueue(String),
    /// The broker is not connected.
    NotConnected,
    /// An I/O fault.
    IoError(std::io::Error),
    /// A fault of the AMQP client library.
    AMQPError(AmqpFault),
}

impl BrokerError {
    /// Whether reconnecting to the broker may recover from the fault: true
    /// of an I/O fault, of the disconnected state and of the recoverable kinds
    /// of AMQP faults; false of every other fault.
    pub open spec fn spec_is_connection_error(&self) -> bool {
        match self {
            BrokerError::InvalidBrokerUrl(_) => false,
            BrokerError::UnknownQueue(_) => false,
            BrokerError::NotConnected => true,
            BrokerError::IoError(_) => true,
            BrokerError::AMQPError(fault) => fault.spec_kind().is_recoverable(),
        }
    }

    /// Tells a fault that reconnecting may cure from a permanent one.
    pub fn is_connection_error(&self) -> (r: bool)
        ensures
            r == self.spec_is_connection_error(),
    {
        match self {
            BrokerError::IoError(_) | BrokerError::NotConnected => true,
            BrokerError::AMQPError(fault) => match fault.kind() {
                AmqpFaultKind::Protocol => true,
                AmqpFaultKind::InvalidConnectionState => true,
                AmqpFaultKind::InvalidChannelState => true,
                AmqpFaultKind::ChannelsLimitReached
                | AmqpFaultKind::InvalidProtocolVersion
                | AmqpFaultKind::InvalidChannel
                | AmqpFaultKind::Io
                | AmqpFaultKind::Parsing
                | AmqpFaultKind::Serialisation
                | AmqpFaultKind::MissingHeartbeat
                | AmqpFaultKind::Unclassified => false,
            },
            BrokerError::InvalidBrokerUrl(_) | BrokerError::UnknownQueue(_) => false,
        }
    }
}

impl From<std::io::Error> for BrokerError {
    fn from(err: std::io::Error) -> Self {
        BrokerError::IoError(err)
    }
}

impl FromSpecImpl<std::io::Error> for BrokerError {
    open spec fn obeys_from_spec() -> bool {
        true
    }

    open spec fn from_spec(err: std::io::Error) -> Self {
        BrokerError::IoError(err)
    }
}

impl From<AmqpFault> for BrokerError {
    fn from(fault: AmqpFault) -> Self {
        BrokerError::AMQPError(fault)
    }
}

impl FromSpecImpl<AmqpFault> for BrokerError {
    open spec fn obeys_from_spec() -> bool {
        true
    }

    open spec fn from_spec(fault: AmqpFault) -> Self {
        BrokerError::AMQPError(fault)
    }
}

impl BrokerError {
    /// Wraps a fault of the AMQP client library, classified by its kind.
    pub fn from_amqp(err: lapin::Error) -> (r: BrokerError)
        ensures
            r matches BrokerError::AMQPError(fault) && fault.spec_error() == err,
    {
        BrokerError::AMQPError(AmqpFault::new(err))
    }
}

} // verus!
