//! Memory area codes: which PLC memory region an address refers to.
//!
//! A closed set of values at the value level, an open set at the wire
//! level: unrecognized bytes are a protocol violation carrying the
//! offending byte, never a panic, so new codes can be added without
//! breaking callers.

use crate::protocol_violation::ProtocolViolation;
use vstd::prelude::*;

verus! {

/// A memory area code as read from the wire, not yet validated.
#[derive(Debug, Default, Copy, Clone, PartialEq, Eq, Structural)]
pub struct RawMemoryAreaCode(pub u8);

/// The wire byte of a memory area code.
pub open spec fn spec_memory_area_code_byte(code: MemoryAreaCode) -> u8 {
    match code {
        MemoryAreaCode::D => 0x82,
    }
}

/// The memory area code a wire byte encodes, if any.
pub open spec fn spec_memory_area_code_decode(byte: u8) -> Option<MemoryAreaCode> {
    if byte == 0x82 {
        Some(MemoryAreaCode::D)
    } else {
        None
    }
}

/// Serializing any memory area code and deserializing the byte again
/// yields the code unchanged.
pub proof fn lemma_memory_area_code_round_trip(code: MemoryAreaCode)
    ensures
        spec_memory_area_code_decode(spec_memory_area_code_byte(code)) == Some(code),
{
}

/// In the other direction: re-serializing whatever a recognized byte
/// decodes to yields that same byte.
pub proof fn lemma_memory_area_code_byte_round_trip(byte: u8)
    ensures
        spec_memory_area_code_decode(byte) matches Some(code) ==> spec_memory_area_code_byte(code)
            == byte,
{
}

impl RawMemoryAreaCode {
    /// Validates the wire byte and names the memory area it encodes.
    ///
    /// Fails, carrying the offending raw byte, on every byte outside
    /// the defined set.
    pub fn deserialize(self) -> (r: Result<MemoryAreaCode, ProtocolViolation>)
        ensures
            match spec_memory_area_code_decode(self.0) {
                Some(code) => r == Ok::<_, ProtocolViolation>(code),
                None => r == Err::<MemoryAreaCode, _>(
                    ProtocolViolation::InvalidMemoryAreaCode(self),
                ),
            },
    {
        if self.0 == 0x82 {
            Ok(MemoryAreaCode::D)
        } else {
            Err(ProtocolViolation::InvalidMemoryAreaCode(self))
        }
    }
}

/// A recognized PLC memory region: `D` is data memory.
#[derive(Debug, Copy, Clone, Eq, PartialEq, Structural)]
pub enum MemoryAreaCode {
    D,
}

impl MemoryAreaCode {
    /// Packs the code into its wire byte.
    pub fn serialize(&self) -> (r: RawMemoryAreaCode)
        ensures
            r == RawMemoryAreaCode(spec_memory_area_code_byte(*self)),
    {
        match self {
            MemoryAreaCode::D => RawMemoryAreaCode(0x82),
        }
    }
}

} // verus!
