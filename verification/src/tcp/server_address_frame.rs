//! The server address frame: the server's answer in the FINS/TCP
//! handshake, assigning both node numbers.  Envelope length 16, body
//! two big-endian 32-bit words.

use crate::num::{be_bytes, be_val, lemma_be_bytes_len, lemma_be_val_of_be_bytes,
    lemma_pow256_vals, u32be};
use crate::tcp::command_code::CommandCode;
use crate::tcp::header::{spec_header_step, spec_tcp_header_bytes, Header, HeaderStep};
use crate::tcp::protocol_violation::{
    assert_command, assert_header_length, assert_no_error, ProtocolViolation,
};
use crate::tcp::ReadOutcome;
use vstd::prelude::*;

verus! {

/// The server's half of the node-address handshake: the client's
/// assigned node number and the server's own.
#[derive(Debug, Copy, Clone, Eq, PartialEq, Structural)]
pub struct ServerAddressFrame {
    pub client_node: u8,
    pub server_node: u8,
}

/// The body of a server address frame as laid out on the wire.
#[derive(Debug, Default, Copy, Clone, Eq, PartialEq)]
struct RawServerAddressBody {
    client_node: u32be,
    server_node: u32be,
}

/// The 24 wire bytes of a server address frame: envelope with length
/// 16, the ServerAddress command and error code 0, then the two node
/// numbers as big-endian 32-bit words.
pub open spec fn spec_server_address_frame_bytes(f: ServerAddressFrame) -> Seq<u8> {
    spec_tcp_header_bytes(
        Header { length: 16, command: CommandCode::ServerAddress, error_code: 0 },
    ) + be_bytes(f.client_node as int, 4) + be_bytes(f.server_node as int, 4)
}

/// What the front of a buffer says when a server address frame is
/// awaited.  The envelope is judged on sixteen bytes; the node words
/// once all twenty-four are available, client node first.
pub enum ServerFrameStep {
    Incomplete,
    BadMagic,
    BadCommandWord { word: u32 },
    BadLength { actual: u32 },
    WrongCommand { actual: CommandCode },
    ErrorCode { code: u32 },
    BadNode { node: u32 },
    Done { client_node: u8, server_node: u8 },
}

/// Parses and validates a server address frame off the front of a byte
/// sequence: the envelope must carry length 16, the ServerAddress
/// command and error code 0, and both node words must fit in one byte.
pub open spec fn spec_read_server_address_frame(b: Seq<u8>) -> ServerFrameStep {
    match spec_header_step(b) {
        HeaderStep::Incomplete => ServerFrameStep::Incomplete,
        HeaderStep::BadMagic => ServerFrameStep::BadMagic,
        HeaderStep::BadCommand { word } => ServerFrameStep::BadCommandWord { word },
        HeaderStep::Done { length, command, error_code } => {
            if length != 16 {
                ServerFrameStep::BadLength { actual: length }
            } else if command != CommandCode::ServerAddress {
                ServerFrameStep::WrongCommand { actual: command }
            } else if error_code != 0 {
                ServerFrameStep::ErrorCode { code: error_code }
            } else if b.len() < 24 {
                ServerFrameStep::Incomplete
            } else {
                let client = be_val(b.subrange(16, 20));
                let server = be_val(b.subrange(20, 24));
                if client > 255 {
                    ServerFrameStep::BadNode { node: client as u32 }
                } else if server > 255 {
                    ServerFrameStep::BadNode { node: server as u32 }
                } else {
                    ServerFrameStep::Done {
                        client_node: client as u8,
                        server_node: server as u8,
                    }
                }
            }
        },
    }
}

/// Writing any server address frame and parsing its twenty-four bytes
/// again yields the same node numbers.
pub proof fn lemma_server_address_frame_round_trip(f: ServerAddressFrame)
    ensures
        spec_read_server_address_frame(spec_server_address_frame_bytes(f))
            == (ServerFrameStep::Done {
            client_node: f.client_node,
            server_node: f.server_node,
        }),
{
    lemma_pow256_vals();
    let header = Header { length: 16, command: CommandCode::ServerAddress, error_code: 0 };
    let b = spec_server_address_frame_bytes(f);
    lemma_be_bytes_len(f.client_node as int, 4);
    lemma_be_bytes_len(f.server_node as int, 4);
    crate::tcp::header::lemma_tcp_header_round_trip(header);
    assert(b.subrange(0, 4) =~= spec_tcp_header_bytes(header).subrange(0, 4));
    assert(b.subrange(4, 8) =~= spec_tcp_header_bytes(header).subrange(4, 8));
    assert(b.subrange(8, 12) =~= spec_tcp_header_bytes(header).subrange(8, 12));
    assert(b.subrange(12, 16) =~= spec_tcp_header_bytes(header).subrange(12, 16));
    assert(b.subrange(16, 20) =~= be_bytes(f.client_node as int, 4));
    assert(b.subrange(20, 24) =~= be_bytes(f.server_node as int, 4));
    lemma_be_val_of_be_bytes(f.client_node as int, 4);
    lemma_be_val_of_be_bytes(f.server_node as int, 4);
}

impl ServerAddressFrame {
    /// Parses a server address frame off the front of `bytes`,
    /// consuming twenty-four bytes when complete.
    pub fn read_from(bytes: &[u8]) -> (r: ReadOutcome<ServerAddressFrame>)
        ensures
            match spec_read_server_address_frame(bytes@) {
                ServerFrameStep::Incomplete => r is Incomplete,
                ServerFrameStep::BadMagic => r matches ReadOutcome::Violation(
                    ProtocolViolation::IncorrectMagicString(m),
                ) && m@ == bytes@.subrange(0, 4),
                ServerFrameStep::BadCommandWord { word } => r matches ReadOutcome::Violation(
                    ProtocolViolation::UnknownCommand(rc),
                ) && rc.spec_bytes() == bytes@.subrange(8, 12),
                ServerFrameStep::BadLength { actual } => r == ReadOutcome::<
                    ServerAddressFrame,
                >::Violation(ProtocolViolation::UnexpectedHeaderLength { actual, expected: 16 }),
                ServerFrameStep::WrongCommand { actual } => r == ReadOutcome::<
                    ServerAddressFrame,
                >::Violation(
                    ProtocolViolation::UnexpectedCommand {
                        actual,
                        expected: CommandCode::ServerAddress,
                    },
                ),
                ServerFrameStep::ErrorCode { code } => r == ReadOutcome::<
                    ServerAddressFrame,
                >::Violation(ProtocolViolation::UnexpectedError(code)),
                ServerFrameStep::BadNode { node } => r == ReadOutcome::<
                    ServerAddressFrame,
                >::Violation(ProtocolViolation::InvalidNodeAddress(node)),
                ServerFrameStep::Done { client_node, server_node } => r == (ReadOutcome::Complete {
                    value: ServerAddressFrame { client_node, server_node },
                    consumed: 24usize,
                }),
            },
    {
        let header = match Header::read_from(bytes) {
            ReadOutcome::Incomplete => {
                return ReadOutcome::Incomplete;
            },
            ReadOutcome::Violation(v) => {
                return ReadOutcome::Violation(v);
            },
            ReadOutcome::Complete { value, consumed: _ } => value,
        };
        match assert_header_length(header.length, 16) {
            Ok(_) => (),
            Err(v) => {
                return ReadOutcome::Violation(v);
            },
        }
        match assert_command(header.command, CommandCode::ServerAddress) {
            Ok(_) => (),
            Err(v) => {
                return ReadOutcome::Violation(v);
            },
        }
        match assert_no_error(header.error_code) {
            Ok(_) => (),
            Err(v) => {
                return ReadOutcome::Violation(v);
            },
        }
        if bytes.len() < 24 {
            return ReadOutcome::Incomplete;
        }
        let body = RawServerAddressBody {
            client_node: u32be::from_bytes([bytes[16], bytes[17], bytes[18], bytes[19]]),
            server_node: u32be::from_bytes([bytes[20], bytes[21], bytes[22], bytes[23]]),
        };
        proof {
            assert(body.client_node@ =~= bytes@.subrange(16, 20));
            assert(body.server_node@ =~= bytes@.subrange(20, 24));
        }
        match Self::from_raw_body(body) {
            Ok(frame) => ReadOutcome::Complete { value: frame, consumed: 24 },
            Err(v) => ReadOutcome::Violation(v),
        }
    }

    /// Appends the frame's exact wire image, envelope included, to
    /// `out`.
    pub fn write_to(&self, out: &mut Vec<u8>)
        ensures
            final(out)@ == old(out)@ + spec_server_address_frame_bytes(*self),
    {
        let header = Header { length: 16, command: CommandCode::ServerAddress, error_code: 0 };
        header.write_to(out);
        let client = u32be::from_u32(self.client_node as u32).to_bytes();
        out.push(client[0]);
        out.push(client[1]);
        out.push(client[2]);
        out.push(client[3]);
        let server = u32be::from_u32(self.server_node as u32).to_bytes();
        out.push(server[0]);
        out.push(server[1]);
        out.push(server[2]);
        out.push(server[3]);
        proof {
            lemma_be_bytes_len(self.client_node as int, 4);
            lemma_be_bytes_len(self.server_node as int, 4);
            assert(out@ =~= old(out)@ + spec_server_address_frame_bytes(*self));
        }
    }

    /// Checks that both node words of a raw body fit in one byte,
    /// client node first, and extracts them.
    fn from_raw_body(body: RawServerAddressBody) -> (r: Result<Self, ProtocolViolation>)
        ensures
            ({
                let client = be_val(body.client_node@);
                let server = be_val(body.server_node@);
                if client > 255 {
                    r == Err::<ServerAddressFrame, _>(
                        ProtocolViolation::InvalidNodeAddress(client as u32),
                    )
                } else if server > 255 {
                    r == Err::<ServerAddressFrame, _>(
                        ProtocolViolation::InvalidNodeAddress(server as u32),
                    )
                } else {
                    r == Ok::<_, ProtocolViolation>(
                        ServerAddressFrame {
                            client_node: client as u8,
                            server_node: server as u8,
                        },
                    )
                }
            }),
    {
        let client = body.client_node.to_u32();
        let server = body.server_node.to_u32();
        if client > 255 {
            return Err(ProtocolViolation::InvalidNodeAddress(client));
        }
        if server > 255 {
            return Err(ProtocolViolation::InvalidNodeAddress(server));
        }
        Ok(ServerAddressFrame { client_node: client as u8, server_node: server as u8 })
    }
}

} // verus!
