//! Error taxonomy of the client layer.
//!
//! `AWSIoTError` is the coarse error of the connection plumbing. The finer
//! kinds that the core logic distinguishes — a failed request, a consumer
//! handle whose buffer is gone, a shadow payload that does not decode — are
//! carried by `CoreError`.

use vstd::prelude::*;

verus! {

/// Error of the connection plumbing: either the broker could not be reached
/// or local certificate material could not be read.
#[derive(Clone, Copy, PartialEq, Eq, Structural, Debug)]
pub enum AWSIoTError {
    AWSConnectionError,
    IoError,
}

pub open spec fn spec_aws_iot_error_message(e: AWSIoTError) -> Seq<char> {
    match e {
        AWSIoTError::AWSConnectionError => "Problem connecting to AWS"@,
        AWSIoTError::IoError => "Problem reading file"@,
    }
}

impl AWSIoTError {
    /// Human-readable description of the error.
    pub fn message(&self) -> (r: &'static str)
        ensures
            r@ == spec_aws_iot_error_message(*self),
    {
        match self {
            AWSIoTError::AWSConnectionError => "Problem connecting to AWS",
            AWSIoTError::IoError => "Problem reading file",
        }
    }
}

/// Declares std::io::Error so conversions can take it; the value itself is
/// opaque here.
#[verifier::external_type_specification]
#[verifier::external_body]
pub struct ExIoError(std::io::Error);

/// Declares rumqttc::ConnectionError, the MQTT engine's fatal connection
/// error, so conversions can take it; the value itself is opaque here.
#[verifier::external_type_specification]
#[verifier::external_body]
pub struct ExConnectionError(rumqttc::ConnectionError);

impl From<std::io::Error> for AWSIoTError {
    /// Reading certificate material failed.
    fn from(_err: std::io::Error) -> AWSIoTError {
        AWSIoTError::IoError
    }
}

impl vstd::std_specs::convert::FromSpecImpl<std::io::Error> for AWSIoTError {
    open spec fn obeys_from_spec() -> bool {
        true
    }

    open spec fn from_spec(_err: std::io::Error) -> AWSIoTError {
        AWSIoTError::IoError
    }
}

impl From<rumqttc::ConnectionError> for AWSIoTError {
    /// The MQTT engine gave up on the connection.
    fn from(_err: rumqttc::ConnectionError) -> AWSIoTError {
        AWSIoTError::AWSConnectionError
    }
}

impl vstd::std_specs::convert::FromSpecImpl<rumqttc::ConnectionError> for AWSIoTError {
    open spec fn obeys_from_spec() -> bool {
        true
    }

    open spec fn from_spec(_err: rumqttc::ConnectionError) -> AWSIoTError {
        AWSIoTError::AWSConnectionError
    }
}

/// The error kinds of the core layer, by where they arise and how far they
/// propagate: a connection error is fatal to the poll loop; a request error
/// is local to one subscribe/publish/unsubscribe call; a channel error is
/// isolated to one consumer handle; a decode error is isolated to one
/// inbound shadow event.
#[derive(Clone, Copy, PartialEq, Eq, Structural, Debug)]
pub enum CoreError {
    ConnectionError,
    RequestError,
    ChannelError,
    DecodeError,
}

} // verus!
