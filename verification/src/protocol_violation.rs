//! Protocol violations detected by the FINS message codecs.

use crate::information_control_field::RawInformationControlField;
use crate::memory_area_code::RawMemoryAreaCode;
use crate::text::{push_hex_byte, spec_hex_byte};
use vstd::prelude::*;
use vstd::string::*;

verus! {

/// A structurally invalid FINS message field, carrying the offending
/// raw value for diagnostics.
#[derive(Debug, Copy, Clone, Eq, PartialEq, Structural)]
pub enum ProtocolViolation {
    InvalidMemoryAreaCode(RawMemoryAreaCode),
    InvalidInformationControlField(RawInformationControlField),
}

impl ProtocolViolation {
    /// The human-readable account of the violation, offending byte
    /// included.
    pub fn message(&self) -> (s: String)
        ensures
            self matches ProtocolViolation::InvalidMemoryAreaCode(raw) ==> s@
                == "Invalid FINS memory area code 0x"@ + spec_hex_byte(raw.0) + "!"@,
            self matches ProtocolViolation::InvalidInformationControlField(raw) ==> s@
                == "Invalid FINS information control field 0x"@ + spec_hex_byte(raw.0) + "!"@,
    {
        match self {
            Self::InvalidMemoryAreaCode(raw) => {
                let mut s = String::from_str("Invalid FINS memory area code 0x");
                push_hex_byte(&mut s, raw.0);
                s.append("!");
                s
            },
            Self::InvalidInformationControlField(raw) => {
                let mut s = String::from_str("Invalid FINS information control field 0x");
                push_hex_byte(&mut s, raw.0);
                s.append("!");
                s
            },
        }
    }
}

} // verus!
