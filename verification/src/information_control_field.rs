//! Information Control Field: one byte on the wire packing the message
//! direction and whether a response is required.

use crate::protocol_violation::ProtocolViolation;
use vstd::prelude::*;

verus! {

/// Message direction and response requirement of a FINS message.
#[derive(Debug, Copy, Clone, Eq, PartialEq, Structural)]
pub enum InformationControlField {
    RequestWithResponse,
    RequestWithoutResponse,
    ResponseWithResponse,
    ResponseWithoutResponse,
}

/// The wire byte of an information control field: bit 7 always set,
/// bit 6 set for responses, bit 0 set when no response is required.
pub open spec fn spec_icf_byte(icf: InformationControlField) -> u8 {
    match icf {
        InformationControlField::RequestWithResponse => 0x80,
        InformationControlField::RequestWithoutResponse => 0x81,
        InformationControlField::ResponseWithResponse => 0xC0,
        InformationControlField::ResponseWithoutResponse => 0xC1,
    }
}

/// The information control field a wire byte encodes, if any.  Exactly
/// the four bytes with bit 7 set and bits 1 to 5 and 7 clear are valid.
pub open spec fn spec_icf_decode(byte: u8) -> Option<InformationControlField> {
    if byte == 0x80 {
        Some(InformationControlField::RequestWithResponse)
    } else if byte == 0x81 {
        Some(InformationControlField::RequestWithoutResponse)
    } else if byte == 0xC0 {
        Some(InformationControlField::ResponseWithResponse)
    } else if byte == 0xC1 {
        Some(InformationControlField::ResponseWithoutResponse)
    } else {
        None
    }
}

/// Serializing any information control field and deserializing the
/// byte again yields the field unchanged.
pub proof fn lemma_information_control_field_round_trip(icf: InformationControlField)
    ensures
        spec_icf_decode(spec_icf_byte(icf)) == Some(icf),
{
}

/// In the other direction: re-serializing whatever a valid byte
/// decodes to yields that same byte, so the mapping is a bijection
/// between the four fields and the four valid bytes.
pub proof fn lemma_icf_byte_round_trip(byte: u8)
    ensures
        spec_icf_decode(byte) matches Some(icf) ==> spec_icf_byte(icf) == byte,
{
}

/// True when every bit of `b` is also set in `v`.
fn test_bits_u8(v: u8, b: u8) -> (r: bool)
    ensures
        r == (v & b == b),
{
    v & b == b
}

impl InformationControlField {
    /// Whether this field marks a request (as opposed to a response).
    pub fn is_request(&self) -> (r: bool)
        ensures
            r == (self is RequestWithResponse || self is RequestWithoutResponse),
    {
        match self {
            Self::RequestWithResponse | Self::RequestWithoutResponse => true,
            _ => false,
        }
    }

    /// Whether the peer is asked to answer this message.
    pub fn requires_response(&self) -> (r: bool)
        ensures
            r == (self is RequestWithResponse || self is ResponseWithResponse),
    {
        match self {
            Self::RequestWithResponse | Self::ResponseWithResponse => true,
            _ => false,
        }
    }

    /// Packs the field into its wire byte.
    pub fn serialize(&self) -> (r: RawInformationControlField)
        ensures
            r.0 == spec_icf_byte(*self),
    {
        let mut bits: u8 = 0x80;
        if !self.is_request() {
            bits = bits + 0x40;
        }
        if !self.requires_response() {
            bits = bits + 0x01;
        }
        RawInformationControlField(bits)
    }
}

/// An information control field as read from the wire, not yet
/// validated.
#[derive(Default, Debug, Copy, Clone, Eq, PartialEq, Structural)]
pub struct RawInformationControlField(pub u8);

impl RawInformationControlField {
    /// Validates the wire byte and names the field it encodes.
    ///
    /// Fails, carrying the offending raw byte, on every byte whose
    /// fixed bits are wrong; succeeds on exactly the four valid bytes.
    pub fn deserialize(self) -> (r: Result<InformationControlField, ProtocolViolation>)
        ensures
            match spec_icf_decode(self.0) {
                Some(icf) => r == Ok::<_, ProtocolViolation>(icf),
                None => r == Err::<InformationControlField, _>(
                    ProtocolViolation::InvalidInformationControlField(self),
                ),
            },
    {
        let bits = self.0;
        proof {
            assert((bits & 0b1011_1110 == 0b1000_0000) <==> (bits == 0x80 || bits == 0x81 || bits
                == 0xC0 || bits == 0xC1)) by (bit_vector);
            assert((bits == 0x80 || bits == 0x81 || bits == 0xC0 || bits == 0xC1) ==> ((bits & 0x40
                == 0x40) <==> (bits == 0xC0 || bits == 0xC1))) by (bit_vector);
            assert((bits == 0x80 || bits == 0x81 || bits == 0xC0 || bits == 0xC1) ==> ((bits & 0x01
                == 0x01) <==> (bits == 0x81 || bits == 0xC1))) by (bit_vector);
        }
        if bits & 0b1011_1110 != 0b1000_0000 {
            return Err(ProtocolViolation::InvalidInformationControlField(self));
        }
        let is_request = !test_bits_u8(bits, 0x40);
        let requires_response = !test_bits_u8(bits, 0x01);
        Ok(
            match (is_request, requires_response) {
                (true, true) => InformationControlField::RequestWithResponse,
                (true, false) => InformationControlField::RequestWithoutResponse,
                (false, true) => InformationControlField::ResponseWithResponse,
                (false, false) => InformationControlField::ResponseWithoutResponse,
            },
        )
    }
}

} // verus!
