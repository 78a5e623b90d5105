//! Declarations of the outside types that the error taxonomy carries.
//!
//! Every type here is opaque: the library never looks inside such a value, it
//! only carries it so that a top-level report can be unwrapped to its cause.
use vstd::prelude::*;

verus! {

/// `serde_json::Error`, a JSON encoding or decoding fault.
#[verifier::external_type_specification]
#[verifier::external_body]
pub struct ExJsonError(serde_json::Error);

/// `serde_yaml::Error`, a YAML encoding or decoding fault.
#[verifier::external_type_specification]
#[verifier::external_body]
pub struct ExYamlError(serde_yaml::Error);

/// `serde_pickle::Error`, a Python pickle encoding or decoding fault.
#[verifier::external_type_specification]
#[verifier::external_body]
pub struct ExPickleError(serde_pickle::Error);

/// `rmp_serde::decode::Error`, a MessagePack decoding fault.
#[verifier::external_type_specification]
#[verifier::external_body]
pub struct ExMsgPackDecodeError(rmp_serde::decode::Error);

/// `rmp_serde::encode::Error`, a MessagePack encoding fault.
#[verifier::external_type_specification]
#[verifier::external_body]
pub struct ExMsgPackEncodeError(rmp_serde::encode::Error);

/// `rmpv::ext::Error`, a fault converting a MessagePack value.
#[verifier::external_type_specification]
#[verifier::external_body]
pub struct ExMsgPackValueError(rmpv::ext::Error);

/// `std::io::Error`, an I/O fault.
#[verifier::external_type_specification]
#[verifier::external_body]
pub struct ExIoError(std::io::Error);

/// `lapin::Error`, a fault of the AMQP client library.
#[verifier::external_type_specification]
#[verifier::external_body]
pub struct ExAmqpError(lapin::Error);

/// `globset::Error`, an invalid glob pattern.
#[verifier::external_type_specification]
#[verifier::external_body]
pub struct ExGlobError(globset::Error);

} // verus!
