//! The Memory Area Read response body as a PLC would frame it: FINS
//! header, echoed request codes, success response codes, memory
//! address and word count, 20 bytes in all.

use crate::header::{spec_header_bytes, Header};
use crate::information_control_field::InformationControlField;
use crate::machine_address::MachineAddress;
use crate::memory_address::{spec_memory_address_bytes, MemoryAddress};
use crate::num::{be_bytes, lemma_be_bytes_len, u16be};
use vstd::prelude::*;

verus! {

/// A successful response to a memory area read, echoing the address
/// and word count that were requested.
#[derive(Debug, Copy, Clone, Eq, PartialEq)]
pub struct MemoryAreaReadResponse {
    pub server_node: u8,
    pub client_node: u8,
    pub address: MemoryAddress,
    pub count: u16,
}

/// The FINS header this library writes for a memory area read
/// response: a response expecting acknowledgement, gateway count 2,
/// node addresses on network 0 and unit 0.
pub open spec fn spec_response_fins_header(resp: MemoryAreaReadResponse) -> Header {
    Header {
        icf: InformationControlField::ResponseWithResponse,
        gct: 0x02,
        destination: MachineAddress { network: 0, node: resp.server_node, unit: 0 },
        source: MachineAddress { network: 0, node: resp.client_node, unit: 0 },
        sid: 0,
    }
}

/// The 20 wire bytes of a memory area read response: FINS header,
/// echoed request codes 0x01/0x01, success response codes 0x00/0x00,
/// packed memory address, big-endian word count.
pub open spec fn spec_memory_area_read_response_bytes(resp: MemoryAreaReadResponse) -> Seq<u8> {
    spec_header_bytes(spec_response_fins_header(resp)) + seq![0x01u8, 0x01u8, 0x00u8, 0x00u8]
        + spec_memory_address_bytes(resp.address) + be_bytes(resp.count as int, 2)
}

impl MemoryAreaReadResponse {
    /// Appends the response's exact wire image to `out`.
    pub fn write_to(&self, out: &mut Vec<u8>)
        ensures
            final(out)@ == old(out)@ + spec_memory_area_read_response_bytes(*self),
    {
        let header = Header {
            icf: InformationControlField::ResponseWithResponse,
            gct: 0x02,
            destination: MachineAddress { network: 0, node: self.server_node, unit: 0 },
            source: MachineAddress { network: 0, node: self.client_node, unit: 0 },
            sid: 0,
        };
        let mut header_bytes = header.serialize().bytes();
        out.append(&mut header_bytes);
        out.push(0x01);
        out.push(0x01);
        out.push(0x00);
        out.push(0x00);
        let mut address_bytes = self.address.serialize().bytes();
        out.append(&mut address_bytes);
        let count = u16be::from_u16(self.count).to_bytes();
        out.push(count[0]);
        out.push(count[1]);
        proof {
            lemma_be_bytes_len(self.count as int, 2);
            assert(out@ =~= old(out)@ + spec_memory_area_read_response_bytes(*self));
        }
    }

    /// The fixed size of a serialized response body.
    pub fn byte_size() -> (r: usize)
        ensures
            r == 20,
            forall|resp: MemoryAreaReadResponse|
                #[trigger] spec_memory_area_read_response_bytes(resp).len() == 20,
    {
        proof {
            assert forall|resp: MemoryAreaReadResponse|
                #[trigger] spec_memory_area_read_response_bytes(resp).len() == 20 by {
                lemma_be_bytes_len(resp.count as int, 2);
                lemma_be_bytes_len(resp.address.offset as int, 2);
            }
        }
        20
    }
}

} // verus!
