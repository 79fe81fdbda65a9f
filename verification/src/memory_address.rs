//! Memory addresses: area code, 16-bit word offset and bit index,
//! packed into a four-byte big-endian word on the wire.

use crate::error::Error;
use crate::memory_area_code::{
    spec_memory_area_code_byte, spec_memory_area_code_decode, MemoryAreaCode, RawMemoryAreaCode,
};
use crate::num::{
    be_bytes, be_val, lemma_be_bytes_len, lemma_be_val_bound, lemma_be_val_of_be_bytes,
    lemma_pow256_vals, u16be,
};
use crate::protocol_violation::ProtocolViolation;
use vstd::prelude::*;
use vstd::string::*;

verus! {

broadcast use crate::num::lemma_u16be_len;

/// A memory address as laid out on the wire: area code byte, two
/// offset bytes, bit index byte.
#[derive(Debug, Default, Copy, Clone, Eq, PartialEq)]
pub struct RawMemoryAddress {
    pub area_code: RawMemoryAreaCode,
    pub offset: u16be,
    pub bits: u8,
}

/// The four wire bytes of a raw memory address, in order.
pub open spec fn spec_raw_memory_address_bytes(raw: RawMemoryAddress) -> Seq<u8> {
    seq![raw.area_code.0] + raw.offset@ + seq![raw.bits]
}

/// The display letter of a memory area.
pub open spec fn spec_area_letter(code: MemoryAreaCode) -> Seq<char> {
    match code {
        MemoryAreaCode::D => "D"@,
    }
}

/// The four wire bytes of a memory address, in order.
pub open spec fn spec_memory_address_bytes(addr: MemoryAddress) -> Seq<u8> {
    seq![spec_memory_area_code_byte(addr.area_code)] + be_bytes(addr.offset as int, 2) + seq![
        addr.bits,
    ]
}

/// The memory address a four-byte sequence encodes, if its area code
/// byte is recognized.
pub open spec fn spec_memory_address_decode(b: Seq<u8>) -> Option<MemoryAddress>
    recommends
        b.len() == 4,
{
    match spec_memory_area_code_decode(b[0]) {
        Some(code) => Some(
            MemoryAddress {
                area_code: code,
                offset: be_val(b.subrange(1, 3)) as u16,
                bits: b[3],
            },
        ),
        None => None,
    }
}

/// Serializing any memory address, offset and bit index included, and
/// decoding the four bytes again yields the same address.
pub proof fn lemma_memory_address_round_trip(addr: MemoryAddress)
    ensures
        spec_memory_address_decode(spec_memory_address_bytes(addr)) == Some(addr),
{
    lemma_pow256_vals();
    lemma_be_val_of_be_bytes(addr.offset as int, 2);
    lemma_be_bytes_len(addr.offset as int, 2);
    let b = spec_memory_address_bytes(addr);
    assert(b.subrange(1, 3) =~= be_bytes(addr.offset as int, 2));
}

/// In the other direction: re-encoding whatever four decodable bytes
/// name yields those same bytes.
pub proof fn lemma_memory_address_bytes_round_trip(b: Seq<u8>)
    requires
        b.len() == 4,
        spec_memory_address_decode(b) is Some,
    ensures
        spec_memory_address_bytes(spec_memory_address_decode(b)->Some_0) == b,
{
    lemma_pow256_vals();
    lemma_be_val_bound(b.subrange(1, 3));
    crate::num::lemma_be_bytes_of_be_val(b.subrange(1, 3));
    let addr = spec_memory_address_decode(b)->Some_0;
    assert(spec_memory_address_bytes(addr) =~= b);
}

impl RawMemoryAddress {
    /// The address's exact wire image.
    pub fn bytes(&self) -> (r: Vec<u8>)
        ensures
            r@ == spec_raw_memory_address_bytes(*self),
    {
        let mut r: Vec<u8> = Vec::new();
        r.push(self.area_code.0);
        let offset = self.offset.to_bytes();
        r.push(offset[0]);
        r.push(offset[1]);
        r.push(self.bits);
        proof {
            assert(r@ =~= spec_raw_memory_address_bytes(*self));
        }
        r
    }

    /// Validates the area code and unpacks the offset and bit index;
    /// the area code is the only thing that can be wrong.
    pub fn deserialize(self) -> (r: Result<MemoryAddress, Error>)
        ensures
            match spec_memory_area_code_decode(self.area_code.0) {
                Some(code) => r == Ok::<_, Error>(
                    MemoryAddress {
                        area_code: code,
                        offset: be_val(self.offset@) as u16,
                        bits: self.bits,
                    },
                ),
                None => r == Err::<MemoryAddress, _>(
                    Error::ProtocolViolation(ProtocolViolation::InvalidMemoryAreaCode(
                        self.area_code,
                    )),
                ),
            },
    {
        proof {
            lemma_be_val_bound(self.offset@);
            lemma_pow256_vals();
        }
        match self.area_code.deserialize() {
            Ok(area_code) => Ok(
                MemoryAddress { area_code, offset: self.offset.to_u16(), bits: self.bits },
            ),
            Err(e) => Err(Error::ProtocolViolation(e)),
        }
    }
}

/// A location in PLC memory: which area, which 16-bit word, and which
/// bit of that word.  Bit indices 0 to 15 are meaningful; the codec
/// itself does not reject larger values, that is application policy.
#[derive(Copy, Clone, Eq, PartialEq, Debug)]
pub struct MemoryAddress {
    pub area_code: MemoryAreaCode,
    pub offset: u16,
    pub bits: u8,
}

impl MemoryAddress {
    /// The display form of the address: the area letter and offset,
    /// with the bit index after a dot when it is nonzero.
    pub fn display_string(&self) -> (s: String)
        ensures
            s@ == spec_area_letter(self.area_code) + crate::text::spec_decimal(self.offset as nat)
                + if self.bits == 0 {
                Seq::<char>::empty()
            } else {
                "."@ + crate::text::spec_decimal(self.bits as nat)
            },
    {
        let letter = match self.area_code {
            MemoryAreaCode::D => "D",
        };
        let mut s = String::from_str(letter);
        s.append(crate::text::decimal_u64(self.offset as u64).as_str());
        if self.bits != 0 {
            s.append(".");
            s.append(crate::text::decimal_u64(self.bits as u64).as_str());
        }
        proof {
            if self.bits == 0 {
                assert(s@ =~= spec_area_letter(self.area_code) + crate::text::spec_decimal(
                    self.offset as nat,
                ) + Seq::<char>::empty());
            }
        }
        s
    }

    /// Packs the address into its wire layout: area code byte, offset
    /// as two big-endian bytes, bit index byte.
    pub fn serialize(&self) -> (r: RawMemoryAddress)
        ensures
            r.area_code == RawMemoryAreaCode(spec_memory_area_code_byte(self.area_code)),
            r.offset@ == be_bytes(self.offset as int, 2),
            r.bits == self.bits,
            spec_raw_memory_address_bytes(r) == spec_memory_address_bytes(*self),
    {
        let r = RawMemoryAddress {
            area_code: self.area_code.serialize(),
            offset: u16be::from_u16(self.offset),
            bits: self.bits,
        };
        proof {
            assert(spec_raw_memory_address_bytes(r) =~= spec_memory_address_bytes(*self));
        }
        r
    }
}

} // verus!
