//! The umbrella faults of the application layer. Each wraps the faults of
//! the layers below without classifying them anew.
use vstd::prelude::*;
use vstd::std_specs::convert::FromSpecImpl;
use crate::broker::BrokerError;
use crate::protocol::ProtocolError;

verus! {

/// A fault while setting up or running an application that consumes tasks.
#[derive(Debug)]
pub enum CeleryError {
    /// No queue was given to consume from.
    NoQueueToConsume,
    /// Forced shutdown.
    ForcedShutdown,
    /// A broker-level fault, while connecting or on an open connection.
    BrokerError(BrokerError),
    /// Any other I/O fault.
    IoError(std::io::Error),
    /// A message that does not conform to the protocol.
    ProtocolError(ProtocolError),
    /// An invalid glob pattern of a routing rule.
    BadRoutingPattern(globset::Error),
    /// A task is already registered under this name.
    TaskRegistrationError(String),
    /// A task was received under a name that no task is registered under.
    UnregisteredTaskError(String),
}

/// A fault while setting up or running the periodic task scheduler.
#[derive(Debug)]
pub enum BeatError {
    /// A broker-level fault.
    BrokerError(BrokerError),
    /// A message that does not conform to the protocol.
    ProtocolError(ProtocolError),
}

impl From<BrokerError> for CeleryError {
    fn from(err: BrokerError) -> Self {
        CeleryError::BrokerError(err)
    }
}

impl FromSpecImpl<BrokerError> for CeleryError {
    open spec fn obeys_from_spec() -> bool {
        true
    }

    open spec fn from_spec(err: BrokerError) -> Self {
        CeleryError::BrokerError(err)
    }
}

impl From<std::io::Error> for CeleryError {
    fn from(err: std::io::Error) -> Self {
        CeleryError::IoError(err)
    }
}

impl FromSpecImpl<std::io::Error> for CeleryError {
    open spec fn obeys_from_spec() -> bool {
        true
    }

    open spec fn from_spec(err: std::io::Error) -> Self {
        CeleryError::IoError(err)
    }
}

impl From<ProtocolError> for CeleryError {
    fn from(err: ProtocolError) -> Self {
        CeleryError::ProtocolError(err)
    }
}

impl FromSpecImpl<ProtocolError> for CeleryError {
    open spec fn obeys_from_spec() -> bool {
        true
    }

    open spec fn from_spec(err: ProtocolError) -> Self {
        CeleryError::ProtocolError(err)
    }
}

impl From<globset::Error> for CeleryError {
    fn from(err: globset::Error) -> Self {
        CeleryError::BadRoutingPattern(err)
    }
}

impl FromSpecImpl<globset::Error> for CeleryError {
    open spec fn obeys_from_spec() -> bool {
        true
    }

    open spec fn from_spec(err: globset::Error) -> Self {
        CeleryError::BadRoutingPattern(err)
    }
}

impl From<BrokerError> for BeatError {
    fn from(err: BrokerError) -> Self {
        BeatError::BrokerError(err)
    }
}

impl FromSpecImpl<BrokerError> for BeatError {
    open spec fn obeys_from_spec() -> bool {
        true
    }

    open spec fn from_spec(err: BrokerError) -> Self {
        BeatError::BrokerError(err)
    }
}

impl From<ProtocolError> for BeatError {
    fn from(err: ProtocolError) -> Self {
        BeatError::ProtocolError(err)
    }
}

impl FromSpecImpl<ProtocolError> for BeatError {
    open spec fn obeys_from_spec() -> bool {
        true
    }

    open spec fn from_spec(err: ProtocolError) -> Self {
        BeatError::ProtocolError(err)
    }
}

} // verus!
