//! The error surface of the FINS message layer.

use crate::protocol_violation::ProtocolViolation;
use vstd::prelude::*;

verus! {

/// `std::io::Error` declared so that values of it can be carried
/// through the error surface; the library never inspects one.
#[verifier::external_type_specification]
#[verifier::external_body]
pub struct ExIoError(std::io::Error);

/// Relies on std::io::Error::to_string, through core::fmt's Display,
/// for the human-readable account of a transport failure.
#[verifier::external_body]
pub(crate) fn io_error_message(e: &std::io::Error) -> String {
    format!("{}", e)
}

/// What can go wrong while handling FINS messages: a protocol
/// violation detected by a codec, or a transport failure passed
/// through from the I/O layer driving the connection.
#[derive(Debug)]
pub enum Error {
    ProtocolViolation(ProtocolViolation),
    Io(std::io::Error),
}

impl Error {
    /// The human-readable account of the error.
    pub fn message(&self) -> (s: String)
        ensures
            self matches Error::ProtocolViolation(e) ==> call_ensures(
                ProtocolViolation::message,
                (e,),
                s,
            ),
    {
        match self {
            Self::ProtocolViolation(e) => e.message(),
            Self::Io(e) => io_error_message(e),
        }
    }
}

impl From<ProtocolViolation> for Error {
    fn from(e: ProtocolViolation) -> (r: Self) {
        Self::ProtocolViolation(e)
    }
}

impl vstd::std_specs::convert::FromSpecImpl<ProtocolViolation> for Error {
    open spec fn obeys_from_spec() -> bool {
        true
    }

    open spec fn from_spec(e: ProtocolViolation) -> Self {
        Self::ProtocolViolation(e)
    }
}

impl From<std::io::Error> for Error {
    fn from(e: std::io::Error) -> (r: Self) {
        Self::Io(e)
    }
}

impl vstd::std_specs::convert::FromSpecImpl<std::io::Error> for Error {
    open spec fn obeys_from_spec() -> bool {
        true
    }

    open spec fn from_spec(e: std::io::Error) -> Self {
        Self::Io(e)
    }
}

} // verus!
