//! Protocol violations detected at the FINS/TCP transport layer.
//!
//! Every variant carries the offending raw value, so a device or
//! wiring problem can be diagnosed from the error alone.

use crate::information_control_field::InformationControlField;
use crate::tcp::command_code::{CommandCode, RawCommandCode};
use crate::text::{decimal_u64, push_hex_byte, spec_hex_byte};
use vstd::prelude::*;
use vstd::string::*;

verus! {

/// A structurally invalid FINS/TCP frame or an unacceptable frame in
/// the current state of the exchange.
#[derive(Debug, Copy, Clone, PartialEq, Eq)]
#[non_exhaustive]
pub enum ProtocolViolation {
    /// The envelope did not begin with the four magic bytes "FINS".
    IncorrectMagicString([u8; 4]),
    /// The envelope's command word names no known command.
    UnknownCommand(RawCommandCode),
    /// The envelope's length field differs from the one fixed length
    /// this frame kind allows.
    UnexpectedHeaderLength { actual: u32, expected: u32 },
    /// The envelope carried a nonzero error code where none was
    /// acceptable.
    UnexpectedError(u32),
    /// The frame carries another command than the one awaited.
    UnexpectedCommand { actual: CommandCode, expected: CommandCode },
    /// The envelope's length field is smaller than the frame kind's
    /// fixed overhead allows; treating it as a size would underflow.
    FrameTooShort { actual: u32, minimum: u32 },
    /// A handshake node address does not fit in one byte.
    InvalidNodeAddress(u32),
    /// A FINS message with a valid information control field of the
    /// wrong kind, such as a request where a response was awaited.
    UnexpectedInformationControlField(InformationControlField),
    /// A response echoing other request codes than memory area read.
    UnexpectedRequestCode { mrc: u8, src: u8 },
    /// A device-reported error: nonzero response codes.
    UnexpectedResponseCode { mres: u8, sres: u8 },
    /// A violation detected by the FINS message codecs underneath.
    Fins(crate::protocol_violation::ProtocolViolation),
}

impl ProtocolViolation {
    /// The human-readable account of the violation, offending values
    /// included.
    pub fn message(&self) -> (s: String)
        ensures
            self matches ProtocolViolation::IncorrectMagicString(m) ==> s@
                == "Received incorrect magic string 0x"@ + spec_hex_byte(m@[0]) + spec_hex_byte(
                m@[1],
            ) + spec_hex_byte(m@[2]) + spec_hex_byte(m@[3])
                + " but expected 0x46494E53 (\"FINS\")!"@,
    {
        match self {
            Self::IncorrectMagicString(m) => {
                let mut s = String::from_str("Received incorrect magic string 0x");
                push_hex_byte(&mut s, m[0]);
                push_hex_byte(&mut s, m[1]);
                push_hex_byte(&mut s, m[2]);
                push_hex_byte(&mut s, m[3]);
                s.append(" but expected 0x46494E53 (\"FINS\")!");
                s
            },
            Self::UnknownCommand(command) => {
                let mut s = String::from_str("Received FINS/TCP frame with unknown command ");
                s.append(decimal_u64(command.to_u32() as u64).as_str());
                s.append("!");
                s
            },
            Self::UnexpectedHeaderLength { actual, expected } => {
                let mut s = String::from_str("Received FINS/TCP frame with length ");
                s.append(decimal_u64(*actual as u64).as_str());
                s.append(" but expected ");
                s.append(decimal_u64(*expected as u64).as_str());
                s.append("!");
                s
            },
            Self::UnexpectedError(code) => {
                let mut s = String::from_str("Received FINS/TCP frame with error code ");
                s.append(decimal_u64(*code as u64).as_str());
                s.append("!");
                s
            },
            Self::UnexpectedCommand { actual, expected } => {
                let mut s = String::from_str("Received FINS/TCP frame with command ");
                s.append(actual.name());
                s.append(" but expected ");
                s.append(expected.name());
                s.append("!");
                s
            },
            Self::FrameTooShort { actual, minimum } => {
                let mut s = String::from_str("Received FINS/TCP frame with length ");
                s.append(decimal_u64(*actual as u64).as_str());
                s.append(" but needed at least ");
                s.append(decimal_u64(*minimum as u64).as_str());
                s.append("!");
                s
            },
            Self::InvalidNodeAddress(node) => {
                let mut s = String::from_str("Received node address ");
                s.append(decimal_u64(*node as u64).as_str());
                s.append(" which does not fit in one byte!");
                s
            },
            Self::UnexpectedInformationControlField(icf) => {
                let mut s = String::from_str(
                    "Received FINS message with information control field 0x",
                );
                push_hex_byte(&mut s, icf.serialize().0);
                s.append(" where a response was expected!");
                s
            },
            Self::UnexpectedRequestCode { mrc, src } => {
                let mut s = String::from_str("Received FINS response echoing request code 0x");
                push_hex_byte(&mut s, *mrc);
                push_hex_byte(&mut s, *src);
                s.append(" instead of memory area read!");
                s
            },
            Self::UnexpectedResponseCode { mres, sres } => {
                let mut s = String::from_str("Device reported response code 0x");
                push_hex_byte(&mut s, *mres);
                push_hex_byte(&mut s, *sres);
                s.append("!");
                s
            },
            Self::Fins(e) => e.message(),
        }
    }
}

impl From<crate::protocol_violation::ProtocolViolation> for ProtocolViolation {
    fn from(error: crate::protocol_violation::ProtocolViolation) -> (r: Self) {
        Self::Fins(error)
    }
}

impl vstd::std_specs::convert::FromSpecImpl<crate::protocol_violation::ProtocolViolation> for ProtocolViolation {
    open spec fn obeys_from_spec() -> bool {
        true
    }

    open spec fn from_spec(error: crate::protocol_violation::ProtocolViolation) -> Self {
        Self::Fins(error)
    }
}

/// Accepts exactly the expected envelope length.
pub(crate) fn assert_header_length(actual: u32, expected: u32) -> (r: Result<
    (),
    ProtocolViolation,
>)
    ensures
        actual == expected ==> r == Ok::<(), ProtocolViolation>(()),
        actual != expected ==> r == Err::<(), _>(
            ProtocolViolation::UnexpectedHeaderLength { actual, expected },
        ),
{
    if actual == expected {
        Ok(())
    } else {
        Err(ProtocolViolation::UnexpectedHeaderLength { actual, expected })
    }
}

/// Accepts exactly the expected command.
pub(crate) fn assert_command(actual: CommandCode, expected: CommandCode) -> (r: Result<
    (),
    ProtocolViolation,
>)
    ensures
        actual == expected ==> r == Ok::<(), ProtocolViolation>(()),
        actual != expected ==> r == Err::<(), _>(
            ProtocolViolation::UnexpectedCommand { actual, expected },
        ),
{
    if actual == expected {
        Ok(())
    } else {
        Err(ProtocolViolation::UnexpectedCommand { actual, expected })
    }
}

/// Accepts only an error code of zero.
pub(crate) fn assert_no_error(actual: u32) -> (r: Result<(), ProtocolViolation>)
    ensures
        actual == 0 ==> r == Ok::<(), ProtocolViolation>(()),
        actual != 0 ==> r == Err::<(), _>(ProtocolViolation::UnexpectedError(actual)),
{
    if actual == 0 {
        Ok(())
    } else {
        Err(ProtocolViolation::UnexpectedError(actual))
    }
}

} // verus!
