//! The 10-byte FINS message header: information control field,
//! reserved byte, gateway count, destination and source machine
//! addresses, service id.

use crate::error::Error;
use crate::information_control_field::{
    spec_icf_byte, spec_icf_decode, InformationControlField, RawInformationControlField,
};
use crate::machine_address::{spec_machine_address_bytes, MachineAddress, RawMachineAddress};
use crate::protocol_violation::ProtocolViolation;
use vstd::prelude::*;

verus! {

/// A FINS header as laid out on the wire.
#[derive(Debug, Default, Copy, Clone, Eq, PartialEq)]
pub struct RawHeader {
    /// Information Control Field
    pub icf: RawInformationControlField,
    /// Reserved: always 0 on write, ignored on read
    pub rsv: u8,
    /// Permissible number of gateways
    pub gct: u8,
    /// Destination address
    pub destination: RawMachineAddress,
    /// Source address
    pub source: RawMachineAddress,
    /// Service ID: set by the sender to correlate the reply
    pub sid: u8,
}

/// The ten wire bytes of a raw FINS header, in order.
pub open spec fn spec_raw_header_bytes(raw: RawHeader) -> Seq<u8> {
    seq![
        raw.icf.0,
        raw.rsv,
        raw.gct,
        raw.destination.network,
        raw.destination.node,
        raw.destination.unit,
        raw.source.network,
        raw.source.node,
        raw.source.unit,
        raw.sid,
    ]
}

/// The ten wire bytes of a FINS header, with the reserved byte zero.
pub open spec fn spec_header_bytes(h: Header) -> Seq<u8> {
    seq![spec_icf_byte(h.icf), 0u8, h.gct] + spec_machine_address_bytes(h.destination)
        + spec_machine_address_bytes(h.source) + seq![h.sid]
}

/// The FINS header a ten-byte sequence encodes, if its information
/// control field byte is valid.  The reserved byte is ignored.
pub open spec fn spec_header_decode(b: Seq<u8>) -> Option<Header>
    recommends
        b.len() == 10,
{
    match spec_icf_decode(b[0]) {
        Some(icf) => Some(
            Header {
                icf,
                gct: b[2],
                destination: MachineAddress { network: b[3], node: b[4], unit: b[5] },
                source: MachineAddress { network: b[6], node: b[7], unit: b[8] },
                sid: b[9],
            },
        ),
        None => None,
    }
}

/// Serializing any FINS header and decoding the ten bytes again yields
/// the same header.
pub proof fn lemma_header_round_trip(h: Header)
    ensures
        spec_header_decode(spec_header_bytes(h)) == Some(h),
{
    assert(spec_header_bytes(h) =~= seq![
        spec_icf_byte(h.icf),
        0u8,
        h.gct,
        h.destination.network,
        h.destination.node,
        h.destination.unit,
        h.source.network,
        h.source.node,
        h.source.unit,
        h.sid,
    ]);
}

/// In the other direction: re-serializing whatever ten decodable
/// bytes name yields those same bytes, provided the reserved byte was
/// zero (it is ignored on read and written as zero).
pub proof fn lemma_header_bytes_round_trip(b: Seq<u8>)
    requires
        b.len() == 10,
        b[1] == 0,
        spec_header_decode(b) is Some,
    ensures
        spec_header_bytes(spec_header_decode(b)->Some_0) == b,
{
    crate::information_control_field::lemma_icf_byte_round_trip(b[0]);
    let h = spec_header_decode(b)->Some_0;
    assert(spec_header_bytes(h) =~= b);
}

impl RawHeader {
    /// The header's exact wire image.
    pub fn bytes(&self) -> (r: Vec<u8>)
        ensures
            r@ == spec_raw_header_bytes(*self),
    {
        let mut r: Vec<u8> = Vec::new();
        r.push(self.icf.0);
        r.push(self.rsv);
        r.push(self.gct);
        r.push(self.destination.network);
        r.push(self.destination.node);
        r.push(self.destination.unit);
        r.push(self.source.network);
        r.push(self.source.node);
        r.push(self.source.unit);
        r.push(self.sid);
        proof {
            assert(r@ =~= spec_raw_header_bytes(*self));
        }
        r
    }

    /// Reads the wire image back into the raw field layout.
    pub fn from_bytes(b: &[u8]) -> (r: RawHeader)
        requires
            b@.len() == 10,
        ensures
            spec_raw_header_bytes(r) == b@,
    {
        let r = RawHeader {
            icf: RawInformationControlField(b[0]),
            rsv: b[1],
            gct: b[2],
            destination: RawMachineAddress { network: b[3], node: b[4], unit: b[5] },
            source: RawMachineAddress { network: b[6], node: b[7], unit: b[8] },
            sid: b[9],
        };
        proof {
            assert(spec_raw_header_bytes(r) =~= b@);
        }
        r
    }

    /// Validates the information control field and drops the reserved
    /// byte; an invalid field is the only failure of this layer.
    pub fn deserialize(self) -> (r: Result<Header, Error>)
        ensures
            match spec_header_decode(spec_raw_header_bytes(self)) {
                Some(h) => r == Ok::<_, Error>(h),
                None => r == Err::<Header, _>(
                    Error::ProtocolViolation(ProtocolViolation::InvalidInformationControlField(
                        self.icf,
                    )),
                ),
            },
    {
        match self.icf.deserialize() {
            Ok(icf) => Ok(
                Header {
                    icf,
                    gct: self.gct,
                    destination: self.destination.deserialize(),
                    source: self.source.deserialize(),
                    sid: self.sid,
                },
            ),
            Err(e) => Err(Error::ProtocolViolation(e)),
        }
    }
}

/// A FINS message header.  The service id is caller-supplied and
/// otherwise opaque here; the correlation layer uses it to match
/// responses to requests.
#[derive(Debug, Copy, Clone, Eq, PartialEq, Structural)]
pub struct Header {
    pub icf: InformationControlField,
    pub gct: u8,
    pub destination: MachineAddress,
    pub source: MachineAddress,
    pub sid: u8,
}

impl Header {
    /// Packs the header into its wire layout, writing 0 for the
    /// reserved byte.
    pub fn serialize(&self) -> (r: RawHeader)
        ensures
            r == (RawHeader {
                icf: RawInformationControlField(spec_icf_byte(self.icf)),
                rsv: 0,
                gct: self.gct,
                destination: RawMachineAddress {
                    network: self.destination.network,
                    node: self.destination.node,
                    unit: self.destination.unit,
                },
                source: RawMachineAddress {
                    network: self.source.network,
                    node: self.source.node,
                    unit: self.source.unit,
                },
                sid: self.sid,
            }),
            spec_raw_header_bytes(r) == spec_header_bytes(*self),
    {
        let r = RawHeader {
            icf: self.icf.serialize(),
            rsv: 0x00,
            gct: self.gct,
            destination: self.destination.serialize(),
            source: self.source.serialize(),
            sid: self.sid,
        };
        proof {
            assert(spec_raw_header_bytes(r) =~= spec_header_bytes(*self));
        }
        r
    }
}

} // verus!
