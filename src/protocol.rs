//! Faults of messages that do not conform to the protocol, and the codec
//! faults that a message body can raise.
use vstd::prelude::*;
use vstd::std_specs::convert::FromSpecImpl;

verus! {

/// A fault raised while encoding or decoding a message body, tagged by the
/// codec that raised it.
#[derive(Debug)]
pub enum ContentTypeError {
    /// JSON serialization error.
    Json(serde_json::Error),
    /// YAML serialization error.
    Yaml(serde_yaml::Error),
    /// Pickle serialization error.
    Pickle(serde_pickle::Error),
    /// MessagePack decoding error.
    MsgPackDecode(rmp_serde::decode::Error),
    /// MessagePack encoding error.
    MsgPackEncode(rmp_serde::encode::Error),
    /// MessagePack value error.
    MsgPackValue(rmpv::ext::Error),
    /// A fault that no supported codec claims.
    Unknown,
}

/// A message that does not conform to the protocol.
#[derive(Debug)]
pub enum ProtocolError {
    /// A required message property is missing; holds the property's key.
    MissingRequiredProperty(String),
    /// The headers are missing altogether.
    MissingHeaders,
    /// A required message header is missing; holds the header's key.
    MissingRequiredHeader(String),
    /// Serializing or deserializing the message body failed.
    BodySerializationError(ContentTypeError),
}

impl ProtocolError {
    /// The codec fault that a body serialization fault wraps.
    pub open spec fn spec_body_fault(self) -> Option<ContentTypeError> {
        match self {
            ProtocolError::BodySerializationError(c) => Some(c),
            _ => None,
        }
    }
}

impl From<ContentTypeError> for ProtocolError {
    fn from(err: ContentTypeError) -> Self {
        ProtocolError::BodySerializationError(err)
    }
}

impl FromSpecImpl<ContentTypeError> for ProtocolError {
    open spec fn obeys_from_spec() -> bool {
        true
    }

    open spec fn from_spec(err: ContentTypeError) -> Self {
        ProtocolError::BodySerializationError(err)
    }
}

impl From<serde_json::Error> for ContentTypeError {
    fn from(err: serde_json::Error) -> Self {
        ContentTypeError::Json(err)
    }
}

impl FromSpecImpl<serde_json::Error> for ContentTypeError {
    open spec fn obeys_from_spec() -> bool {
        true
    }

    open spec fn from_spec(err: serde_json::Error) -> Self {
        ContentTypeError::Json(err)
    }
}

impl From<serde_json::Error> for ProtocolError {
    fn from(err: serde_json::Error) -> Self {
        Self::from(ContentTypeError::from(err))
    }
}

impl FromSpecImpl<serde_json::Error> for ProtocolError {
    open spec fn obeys_from_spec() -> bool {
        true
    }

    open spec fn from_spec(err: serde_json::Error) -> Self {
        ProtocolError::BodySerializationError(ContentTypeError::Json(err))
    }
}

impl From<serde_yaml::Error> for ContentTypeError {
    fn from(err: serde_yaml::Error) -> Self {
        ContentTypeError::Yaml(err)
    }
}

impl FromSpecImpl<serde_yaml::Error> for ContentTypeError {
    open spec fn obeys_from_spec() -> bool {
        true
    }

    open spec fn from_spec(err: serde_yaml::Error) -> Self {
        ContentTypeError::Yaml(err)
    }
}

impl From<serde_yaml::Error> for ProtocolError {
    fn from(err: serde_yaml::Error) -> Self {
        Self::from(ContentTypeError::from(err))
    }
}

impl FromSpecImpl<serde_yaml::Error> for ProtocolError {
    open spec fn obeys_from_spec() -> bool {
        true
    }

    open spec fn from_spec(err: serde_yaml::Error) -> Self {
        ProtocolError::BodySerializationError(ContentTypeError::Yaml(err))
    }
}

impl From<serde_pickle::Error> for ContentTypeError {
    fn from(err: serde_pickle::Error) -> Self {
        ContentTypeError::Pickle(err)
    }
}

impl FromSpecImpl<serde_pickle::Error> for ContentTypeError {
    open spec fn obeys_from_spec() -> bool {
        true
    }

    open spec fn from_spec(err: serde_pickle::Error) -> Self {
        ContentTypeError::Pickle(err)
    }
}

impl From<serde_pickle::Error> for ProtocolError {
    fn from(err: serde_pickle::Error) -> Self {
        Self::from(ContentTypeError::from(err))
    }
}

impl FromSpecImpl<serde_pickle::Error> for ProtocolError {
    open spec fn obeys_from_spec() -> bool {
        true
    }

    open spec fn from_spec(err: serde_pickle::Error) -> Self {
        ProtocolError::BodySerializationError(ContentTypeError::Pickle(err))
    }
}

impl From<rmp_serde::decode::Error> for ContentTypeError {
    fn from(err: rmp_serde::decode::Error) -> Self {
        ContentTypeError::MsgPackDecode(err)
    }
}

impl FromSpecImpl<rmp_serde::decode::Error> for ContentTypeError {
    open spec fn obeys_from_spec() -> bool {
        true
    }

    open spec fn from_spec(err: rmp_serde::decode::Error) -> Self {
        ContentTypeError::MsgPackDecode(err)
    }
}

impl From<rmp_serde::decode::Error> for ProtocolError {
    fn from(err: rmp_serde::decode::Error) -> Self {
        Self::from(ContentTypeError::from(err))
    }
}

impl FromSpecImpl<rmp_serde::decode::Error> for ProtocolError {
    open spec fn obeys_from_spec() -> bool {
        true
    }

    open spec fn from_spec(err: rmp_serde::decode::Error) -> Self {
        ProtocolError::BodySerializationError(ContentTypeError::MsgPackDecode(err))
    }
}

impl From<rmp_serde::encode::Error> for ContentTypeError {
    fn from(err: rmp_serde::encode::Error) -> Self {
        ContentTypeError::MsgPackEncode(err)
    }
}

impl FromSpecImpl<rmp_serde::encode::Error> for ContentTypeError {
    open spec fn obeys_from_spec() -> bool {
        true
    }

    open spec fn from_spec(err: rmp_serde::encode::Error) -> Self {
        ContentTypeError::MsgPackEncode(err)
    }
}

impl From<rmp_serde::encode::Error> for ProtocolError {
    fn from(err: rmp_serde::encode::Error) -> Self {
        Self::from(ContentTypeError::from(err))
    }
}

impl FromSpecImpl<rmp_serde::encode::Error> for ProtocolError {
    open spec fn obeys_from_spec() -> bool {
        true
    }

    open spec fn from_spec(err: rmp_serde::encode::Error) -> Self {
        ProtocolError::BodySerializationError(ContentTypeError::MsgPackEncode(err))
    }
}

impl From<rmpv::ext::Error> for ContentTypeError {
    fn from(err: rmpv::ext::Error) -> Self {
        ContentTypeError::MsgPackValue(err)
    }
}

impl FromSpecImpl<rmpv::ext::Error> for ContentTypeError {
    open spec fn obeys_from_spec() -> bool {
        true
    }

    open spec fn from_spec(err: rmpv::ext::Error) -> Self {
        ContentTypeError::MsgPackValue(err)
    }
}

impl From<rmpv::ext::Error> for ProtocolError {
    fn from(err: rmpv::ext::Error) -> Self {
        Self::from(ContentTypeError::from(err))
    }
}

impl FromSpecImpl<rmpv::ext::Error> for ProtocolError {
    open spec fn obeys_from_spec() -> bool {
        true
    }

    open spec fn from_spec(err: rmpv::ext::Error) -> Self {
        ProtocolError::BodySerializationError(ContentTypeError::MsgPackValue(err))
    }
}

} // verus!
