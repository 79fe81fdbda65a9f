//! The Memory Area Read request: FINS header, request codes, memory
//! address and word count, 18 bytes in all.

use crate::header::{spec_header_bytes, Header};
use crate::information_control_field::InformationControlField;
use crate::machine_address::MachineAddress;
use crate::memory_address::{spec_memory_address_bytes, MemoryAddress};
use crate::num::{be_bytes, lemma_be_bytes_len, u16be};
use vstd::prelude::*;

verus! {

/// A request to read `count` 16-bit words starting at `address` from
/// the server node, on behalf of the client node.  The service id is
/// echoed by the server and correlates the response.
#[derive(Debug, Copy, Clone, Eq, PartialEq)]
pub struct MemoryAreaReadRequest {
    pub server_node: u8,
    pub client_node: u8,
    pub address: MemoryAddress,
    pub count: u16,
    pub service_id: u8,
}

/// The FINS header this library writes for a memory area read request:
/// a request expecting a response, gateway count 2, node addresses on
/// network 0 and unit 0.
pub open spec fn spec_request_fins_header(req: MemoryAreaReadRequest) -> Header {
    Header {
        icf: InformationControlField::RequestWithResponse,
        gct: 0x02,
        destination: MachineAddress { network: 0, node: req.server_node, unit: 0 },
        source: MachineAddress { network: 0, node: req.client_node, unit: 0 },
        sid: req.service_id,
    }
}

/// The 18 wire bytes of a memory area read request: FINS header,
/// request codes 0x01/0x01, packed memory address, big-endian word
/// count.
pub open spec fn spec_memory_area_read_request_bytes(req: MemoryAreaReadRequest) -> Seq<u8> {
    spec_header_bytes(spec_request_fins_header(req)) + seq![0x01u8, 0x01u8]
        + spec_memory_address_bytes(req.address) + be_bytes(req.count as int, 2)
}

impl MemoryAreaReadRequest {
    /// Appends the request's exact wire image to `out`.
    pub fn write_to(&self, out: &mut Vec<u8>)
        ensures
            final(out)@ == old(out)@ + spec_memory_area_read_request_bytes(*self),
    {
        let header = Header {
            icf: InformationControlField::RequestWithResponse,
            gct: 0x02,
            destination: MachineAddress { network: 0, node: self.server_node, unit: 0 },
            source: MachineAddress { network: 0, node: self.client_node, unit: 0 },
            sid: self.service_id,
        };
        let mut header_bytes = header.serialize().bytes();
        out.append(&mut header_bytes);
        out.push(0x01);
        out.push(0x01);
        let mut address_bytes = self.address.serialize().bytes();
        out.append(&mut address_bytes);
        let count = u16be::from_u16(self.count).to_bytes();
        out.push(count[0]);
        out.push(count[1]);
        proof {
            lemma_be_bytes_len(self.count as int, 2);
            assert(out@ =~= old(out)@ + spec_memory_area_read_request_bytes(*self));
        }
    }

    /// The fixed size of a serialized request.
    pub fn byte_size() -> (r: usize)
        ensures
            r == 18,
            forall|req: MemoryAreaReadRequest|
                #[trigger] spec_memory_area_read_request_bytes(req).len() == 18,
    {
        proof {
            assert forall|req: MemoryAreaReadRequest|
                #[trigger] spec_memory_area_read_request_bytes(req).len() == 18 by {
                lemma_be_bytes_len(req.count as int, 2);
                lemma_be_bytes_len(req.address.offset as int, 2);
            }
        }
        18
    }
}

} // verus!
