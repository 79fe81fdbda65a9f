//! The 16-byte FINS/TCP envelope: magic "FINS", length, command word,
//! error code, each of the last three a big-endian 32-bit word.  The
//! length field counts the bytes that follow it, so a whole frame is
//! 8 bytes (magic and length field) plus the length field's value.

use crate::num::{be_bytes, be_val, u32be};
use crate::tcp::command_code::{
    spec_command_decode, spec_command_word, CommandCode, RawCommandCode,
};
use crate::tcp::protocol_violation::ProtocolViolation;
use crate::tcp::ReadOutcome;
use vstd::prelude::*;

verus! {

broadcast use crate::num::lemma_u32be_len, crate::tcp::command_code::lemma_raw_command_code_len;

/// The four magic bytes that open every FINS/TCP frame.
pub open spec fn spec_magic() -> Seq<u8> {
    seq![0x46u8, 0x49u8, 0x4Eu8, 0x53u8]
}

/// A FINS/TCP envelope as laid out on the wire.
#[derive(Debug, Default, Copy, Clone, Eq, PartialEq)]
pub struct RawHeader {
    pub fins: [u8; 4],
    pub length: u32be,
    pub command: RawCommandCode,
    pub error_code: u32be,
}

/// The sixteen wire bytes of a raw envelope, in order.
pub open spec fn spec_raw_tcp_header_bytes(raw: RawHeader) -> Seq<u8> {
    raw.fins@ + raw.length@ + raw.command.spec_bytes() + raw.error_code@
}

/// The sixteen wire bytes of an envelope, in order.
pub open spec fn spec_tcp_header_bytes(h: Header) -> Seq<u8> {
    spec_magic() + be_bytes(h.length as int, 4) + be_bytes(spec_command_word(h.command), 4)
        + be_bytes(h.error_code as int, 4)
}

/// What the first sixteen bytes of a buffer say: not enough bytes yet,
/// a bad magic string, an unknown command word, or a parsed envelope.
pub enum HeaderStep {
    Incomplete,
    BadMagic,
    BadCommand { word: u32 },
    Done { length: u32, command: CommandCode, error_code: u32 },
}

/// Parses an envelope off the front of a byte sequence.  Judgement is
/// made only once sixteen bytes are available; fewer are incomplete.
pub open spec fn spec_header_step(b: Seq<u8>) -> HeaderStep {
    if b.len() < 16 {
        HeaderStep::Incomplete
    } else if b.subrange(0, 4) != spec_magic() {
        HeaderStep::BadMagic
    } else {
        let word = be_val(b.subrange(8, 12));
        match spec_command_decode(word) {
            Some(command) => HeaderStep::Done {
                length: be_val(b.subrange(4, 8)) as u32,
                command,
                error_code: be_val(b.subrange(12, 16)) as u32,
            },
            None => HeaderStep::BadCommand { word: word as u32 },
        }
    }
}

/// A FINS/TCP envelope: how many bytes follow the length field, what
/// the frame carries, and the peer-reported error code.
#[derive(Debug, Copy, Clone, Eq, PartialEq, Structural)]
pub struct Header {
    pub length: u32,
    pub command: CommandCode,
    pub error_code: u32,
}

/// Serializing any envelope and parsing the sixteen bytes again yields
/// the same envelope.
pub proof fn lemma_tcp_header_round_trip(h: Header)
    ensures
        spec_header_step(spec_tcp_header_bytes(h)) == (HeaderStep::Done {
            length: h.length,
            command: h.command,
            error_code: h.error_code,
        }),
{
    crate::num::lemma_pow256_vals();
    let b = spec_tcp_header_bytes(h);
    crate::num::lemma_be_bytes_len(h.length as int, 4);
    crate::num::lemma_be_bytes_len(spec_command_word(h.command), 4);
    crate::num::lemma_be_bytes_len(h.error_code as int, 4);
    assert(b.subrange(0, 4) =~= spec_magic());
    assert(b.subrange(4, 8) =~= be_bytes(h.length as int, 4));
    assert(b.subrange(8, 12) =~= be_bytes(spec_command_word(h.command), 4));
    assert(b.subrange(12, 16) =~= be_bytes(h.error_code as int, 4));
    crate::num::lemma_be_val_of_be_bytes(h.length as int, 4);
    crate::num::lemma_be_val_of_be_bytes(spec_command_word(h.command), 4);
    crate::num::lemma_be_val_of_be_bytes(h.error_code as int, 4);
}

impl Header {
    /// Packs the envelope into its wire layout.
    fn to_raw(&self) -> (r: RawHeader)
        ensures
            spec_raw_tcp_header_bytes(r) == spec_tcp_header_bytes(*self),
    {
        let fins: [u8; 4] = [0x46, 0x49, 0x4E, 0x53];
        let r = RawHeader {
            fins,
            length: u32be::from_u32(self.length),
            command: self.command.to_raw(),
            error_code: u32be::from_u32(self.error_code),
        };
        proof {
            assert(fins@ =~= spec_magic());
            assert(spec_raw_tcp_header_bytes(r) =~= spec_tcp_header_bytes(*self));
        }
        r
    }

    /// Validates the magic string and command word of a raw envelope.
    fn from_raw(val: RawHeader) -> (r: Result<Self, ProtocolViolation>)
        ensures
            match spec_header_step(spec_raw_tcp_header_bytes(val)) {
                HeaderStep::Incomplete => false,
                HeaderStep::BadMagic => r == Err::<Header, _>(
                    ProtocolViolation::IncorrectMagicString(val.fins),
                ),
                HeaderStep::BadCommand { word } => r == Err::<Header, _>(
                    ProtocolViolation::UnknownCommand(val.command),
                ),
                HeaderStep::Done { length, command, error_code } => r == Ok::<_,
                    ProtocolViolation,
                >(Header { length, command, error_code }),
            },
    {
        proof {
            let b = spec_raw_tcp_header_bytes(val);
            assert(b.len() == 16);
            assert(b.subrange(0, 4) =~= val.fins@);
            assert(b.subrange(4, 8) =~= val.length@);
            assert(b.subrange(8, 12) =~= val.command.spec_bytes());
            assert(b.subrange(12, 16) =~= val.error_code@);
        }
        if !(val.fins[0] == 0x46 && val.fins[1] == 0x49 && val.fins[2] == 0x4E && val.fins[3]
            == 0x53) {
            proof {
                assert(val.fins@ != spec_magic());
            }
            return Err(ProtocolViolation::IncorrectMagicString(val.fins));
        }
        proof {
            assert(val.fins@ =~= spec_magic());
        }
        match CommandCode::from_raw(val.command) {
            Ok(command) => Ok(
                Header { length: val.length.to_u32(), command, error_code: val.error_code.to_u32() },
            ),
            Err(e) => Err(e),
        }
    }

    /// Parses an envelope off the front of `bytes`, consuming sixteen
    /// bytes when complete.
    pub fn read_from(bytes: &[u8]) -> (r: ReadOutcome<Header>)
        ensures
            match spec_header_step(bytes@) {
                HeaderStep::Incomplete => r is Incomplete,
                HeaderStep::BadMagic => r matches ReadOutcome::Violation(
                    ProtocolViolation::IncorrectMagicString(m),
                ) && m@ == bytes@.subrange(0, 4),
                HeaderStep::BadCommand { word } => r matches ReadOutcome::Violation(
                    ProtocolViolation::UnknownCommand(rc),
                ) && rc.spec_bytes() == bytes@.subrange(8, 12),
                HeaderStep::Done { length, command, error_code } => r == (ReadOutcome::Complete {
                    value: Header { length, command, error_code },
                    consumed: 16usize,
                }),
            },
    {
        if bytes.len() < 16 {
            return ReadOutcome::Incomplete;
        }
        let raw = RawHeader {
            fins: [bytes[0], bytes[1], bytes[2], bytes[3]],
            length: u32be::from_bytes([bytes[4], bytes[5], bytes[6], bytes[7]]),
            command: RawCommandCode::from_bytes([bytes[8], bytes[9], bytes[10], bytes[11]]),
            error_code: u32be::from_bytes([bytes[12], bytes[13], bytes[14], bytes[15]]),
        };
        proof {
            assert(spec_raw_tcp_header_bytes(raw) =~= bytes@.subrange(0, 16));
            assert(bytes@.subrange(0, 16).subrange(0, 4) =~= bytes@.subrange(0, 4));
            assert(bytes@.subrange(0, 16).subrange(4, 8) =~= bytes@.subrange(4, 8));
            assert(bytes@.subrange(0, 16).subrange(8, 12) =~= bytes@.subrange(8, 12));
            assert(bytes@.subrange(0, 16).subrange(12, 16) =~= bytes@.subrange(12, 16));
        }
        match Self::from_raw(raw) {
            Ok(header) => ReadOutcome::Complete { value: header, consumed: 16 },
            Err(e) => ReadOutcome::Violation(e),
        }
    }

    /// Appends the envelope's exact wire image to `out`.
    pub fn write_to(&self, out: &mut Vec<u8>)
        ensures
            final(out)@ == old(out)@ + spec_tcp_header_bytes(*self),
    {
        let raw = self.to_raw();
        out.push(raw.fins[0]);
        out.push(raw.fins[1]);
        out.push(raw.fins[2]);
        out.push(raw.fins[3]);
        let length = raw.length.to_bytes();
        out.push(length[0]);
        out.push(length[1]);
        out.push(length[2]);
        out.push(length[3]);
        let command = raw.command.to_bytes();
        out.push(command[0]);
        out.push(command[1]);
        out.push(command[2]);
        out.push(command[3]);
        let error_code = raw.error_code.to_bytes();
        out.push(error_code[0]);
        out.push(error_code[1]);
        out.push(error_code[2]);
        out.push(error_code[3]);
        proof {
            assert(out@ =~= old(out)@ + spec_raw_tcp_header_bytes(raw));
        }
    }
}

} // verus!
