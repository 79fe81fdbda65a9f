//! The error surface of the FINS/TCP transport layer.

use crate::tcp::protocol_violation::ProtocolViolation;
use vstd::prelude::*;

verus! {

/// What can go wrong on a FINS/TCP connection: a protocol violation
/// detected while framing or parsing, or a transport failure passed
/// through from the I/O layer driving the connection.
#[derive(Debug)]
#[non_exhaustive]
pub enum Error {
    ProtocolViolation(ProtocolViolation),
    Io(std::io::Error),
}

impl Error {
    /// The human-readable account of the error.
    pub fn message(&self) -> (s: String)
        ensures
            self matches Error::ProtocolViolation(e) ==> call_ensures(
                ProtocolViolation::message,
                (e,),
                s,
            ),
    {
        match self {
            Self::ProtocolViolation(e) => e.message(),
            Self::Io(e) => crate::error::io_error_message(e),
        }
    }
}

impl From<ProtocolViolation> for Error {
    fn from(error: ProtocolViolation) -> (r: Self) {
        Self::ProtocolViolation(error)
    }
}

impl vstd::std_specs::convert::FromSpecImpl<ProtocolViolation> for Error {
    open spec fn obeys_from_spec() -> bool {
        true
    }

    open spec fn from_spec(error: ProtocolViolation) -> Self {
        Self::ProtocolViolation(error)
    }
}

impl From<crate::protocol_violation::ProtocolViolation> for Error {
    fn from(error: crate::protocol_violation::ProtocolViolation) -> (r: Self) {
        Self::ProtocolViolation(ProtocolViolation::Fins(error))
    }
}

impl vstd::std_specs::convert::FromSpecImpl<crate::protocol_violation::ProtocolViolation> for Error {
    open spec fn obeys_from_spec() -> bool {
        true
    }

    open spec fn from_spec(error: crate::protocol_violation::ProtocolViolation) -> Self {
        Self::ProtocolViolation(ProtocolViolation::Fins(error))
    }
}

impl From<std::io::Error> for Error {
    fn from(error: std::io::Error) -> (r: Self) {
        Self::Io(error)
    }
}

impl vstd::std_specs::convert::FromSpecImpl<std::io::Error> for Error {
    open spec fn obeys_from_spec() -> bool {
        true
    }

    open spec fn from_spec(error: std::io::Error) -> Self {
        Self::Io(error)
    }
}

impl From<crate::error::Error> for Error {
    fn from(error: crate::error::Error) -> (r: Self) {
        match error {
            crate::error::Error::ProtocolViolation(e) => Self::ProtocolViolation(
                ProtocolViolation::Fins(e),
            ),
            crate::error::Error::Io(e) => Self::Io(e),
        }
    }
}

impl vstd::std_specs::convert::FromSpecImpl<crate::error::Error> for Error {
    open spec fn obeys_from_spec() -> bool {
        true
    }

    open spec fn from_spec(error: crate::error::Error) -> Self {
        match error {
            crate::error::Error::ProtocolViolation(e) => Self::ProtocolViolation(
                ProtocolViolation::Fins(e),
            ),
            crate::error::Error::Io(e) => Self::Io(e),
        }
    }
}

} // verus!
