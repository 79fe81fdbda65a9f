//! The client address frame: the first frame of the FINS/TCP
//! handshake, sent by the client to propose its node number (0 asks
//! the server to assign one).  Envelope length 12, body one big-endian
//! 32-bit word.

use crate::num::{be_bytes, be_val, lemma_be_bytes_len, lemma_be_val_of_be_bytes,
    lemma_pow256_vals, read_be_u32, u32be};
use crate::tcp::command_code::CommandCode;
use crate::tcp::header::{spec_header_step, spec_tcp_header_bytes, Header, HeaderStep};
use crate::tcp::protocol_violation::{
    assert_command, assert_header_length, assert_no_error, ProtocolViolation,
};
use crate::tcp::ReadOutcome;
use vstd::prelude::*;

verus! {

/// The client's half of the node-address handshake.
#[derive(Debug, Copy, Clone, Eq, PartialEq, Structural)]
pub struct ClientAddressFrame {
    pub client_node: u8,
}

/// The 20 wire bytes of a client address frame: envelope with length
/// 12, the ClientAddress command and error code 0, then the proposed
/// node number as a big-endian 32-bit word.
pub open spec fn spec_client_address_frame_bytes(f: ClientAddressFrame) -> Seq<u8> {
    spec_tcp_header_bytes(
        Header { length: 12, command: CommandCode::ClientAddress, error_code: 0 },
    ) + be_bytes(f.client_node as int, 4)
}

/// What the front of a buffer says when a client address frame is
/// awaited.  The envelope is judged on sixteen bytes; the node word
/// once all twenty are available.
pub enum ClientFrameStep {
    Incomplete,
    BadMagic,
    BadCommandWord { word: u32 },
    BadLength { actual: u32 },
    WrongCommand { actual: CommandCode },
    ErrorCode { code: u32 },
    BadNode { node: u32 },
    Done { client_node: u8 },
}

/// Parses and validates a client address frame off the front of a byte
/// sequence: the envelope must carry length 12, the ClientAddress
/// command and error code 0, and the node word must fit in one byte.
pub open spec fn spec_read_client_address_frame(b: Seq<u8>) -> ClientFrameStep {
    match spec_header_step(b) {
        HeaderStep::Incomplete => ClientFrameStep::Incomplete,
        HeaderStep::BadMagic => ClientFrameStep::BadMagic,
        HeaderStep::BadCommand { word } => ClientFrameStep::BadCommandWord { word },
        HeaderStep::Done { length, command, error_code } => {
            if length != 12 {
                ClientFrameStep::BadLength { actual: length }
            } else if command != CommandCode::ClientAddress {
                ClientFrameStep::WrongCommand { actual: command }
            } else if error_code != 0 {
                ClientFrameStep::ErrorCode { code: error_code }
            } else if b.len() < 20 {
                ClientFrameStep::Incomplete
            } else {
                let node = be_val(b.subrange(16, 20));
                if node > 255 {
                    ClientFrameStep::BadNode { node: node as u32 }
                } else {
                    ClientFrameStep::Done { client_node: node as u8 }
                }
            }
        },
    }
}

/// Writing any client address frame and parsing its twenty bytes again
/// yields the same node number.
pub proof fn lemma_client_address_frame_round_trip(f: ClientAddressFrame)
    ensures
        spec_read_client_address_frame(spec_client_address_frame_bytes(f))
            == (ClientFrameStep::Done { client_node: f.client_node }),
{
    lemma_pow256_vals();
    let header = Header { length: 12, command: CommandCode::ClientAddress, error_code: 0 };
    let b = spec_client_address_frame_bytes(f);
    lemma_be_bytes_len(f.client_node as int, 4);
    crate::tcp::header::lemma_tcp_header_round_trip(header);
    assert(b.subrange(0, 16) =~= spec_tcp_header_bytes(header));
    assert(b.subrange(0, 4) =~= spec_tcp_header_bytes(header).subrange(0, 4));
    assert(b.subrange(4, 8) =~= spec_tcp_header_bytes(header).subrange(4, 8));
    assert(b.subrange(8, 12) =~= spec_tcp_header_bytes(header).subrange(8, 12));
    assert(b.subrange(12, 16) =~= spec_tcp_header_bytes(header).subrange(12, 16));
    assert(b.subrange(16, 20) =~= be_bytes(f.client_node as int, 4));
    lemma_be_val_of_be_bytes(f.client_node as int, 4);
}

impl ClientAddressFrame {
    /// Appends the frame's exact wire image, envelope included, to
    /// `out`.
    pub fn write_to(&self, out: &mut Vec<u8>)
        ensures
            final(out)@ == old(out)@ + spec_client_address_frame_bytes(*self),
    {
        let header = Header { length: 12, command: CommandCode::ClientAddress, error_code: 0 };
        header.write_to(out);
        let node = u32be::from_u32(self.client_node as u32).to_bytes();
        out.push(node[0]);
        out.push(node[1]);
        out.push(node[2]);
        out.push(node[3]);
        proof {
            crate::num::lemma_be_bytes_len(self.client_node as int, 4);
            assert(out@ =~= old(out)@ + spec_client_address_frame_bytes(*self));
        }
    }

    /// Parses a client address frame off the front of `bytes`,
    /// consuming twenty bytes when complete.
    pub fn read_from(bytes: &[u8]) -> (r: ReadOutcome<ClientAddressFrame>)
        ensures
            match spec_read_client_address_frame(bytes@) {
                ClientFrameStep::Incomplete => r is Incomplete,
                ClientFrameStep::BadMagic => r matches ReadOutcome::Violation(
                    ProtocolViolation::IncorrectMagicString(m),
                ) && m@ == bytes@.subrange(0, 4),
                ClientFrameStep::BadCommandWord { word } => r matches ReadOutcome::Violation(
                    ProtocolViolation::UnknownCommand(rc),
                ) && rc.spec_bytes() == bytes@.subrange(8, 12),
                ClientFrameStep::BadLength { actual } => r == ReadOutcome::<
                    ClientAddressFrame,
                >::Violation(ProtocolViolation::UnexpectedHeaderLength { actual, expected: 12 }),
                ClientFrameStep::WrongCommand { actual } => r == ReadOutcome::<
                    ClientAddressFrame,
                >::Violation(
                    ProtocolViolation::UnexpectedCommand {
                        actual,
                        expected: CommandCode::ClientAddress,
                    },
                ),
                ClientFrameStep::ErrorCode { code } => r == ReadOutcome::<
                    ClientAddressFrame,
                >::Violation(ProtocolViolation::UnexpectedError(code)),
                ClientFrameStep::BadNode { node } => r == ReadOutcome::<
                    ClientAddressFrame,
                >::Violation(ProtocolViolation::InvalidNodeAddress(node)),
                ClientFrameStep::Done { client_node } => r == (ReadOutcome::Complete {
                    value: ClientAddressFrame { client_node },
                    consumed: 20usize,
                }),
            },
    {
        let header = match Header::read_from(bytes) {
            ReadOutcome::Incomplete => {
                return ReadOutcome::Incomplete;
            },
            ReadOutcome::Violation(v) => {
                return ReadOutcome::Violation(v);
            },
            ReadOutcome::Complete { value, consumed: _ } => value,
        };
        match assert_header_length(header.length, 12) {
            Ok(_) => (),
            Err(v) => {
                return ReadOutcome::Violation(v);
            },
        }
        match assert_command(header.command, CommandCode::ClientAddress) {
            Ok(_) => (),
            Err(v) => {
                return ReadOutcome::Violation(v);
            },
        }
        match assert_no_error(header.error_code) {
            Ok(_) => (),
            Err(v) => {
                return ReadOutcome::Violation(v);
            },
        }
        if bytes.len() < 20 {
            return ReadOutcome::Incomplete;
        }
        let node = read_be_u32(bytes, 16);
        if node > 255 {
            return ReadOutcome::Violation(ProtocolViolation::InvalidNodeAddress(node));
        }
        ReadOutcome::Complete { value: ClientAddressFrame { client_node: node as u8 }, consumed: 20 }
    }
}

} // verus!
