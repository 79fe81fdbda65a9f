//! The FINS/TCP transport encapsulation: the length/command/error
//! envelope around every frame, the handshake frames, and the framing
//! of memory area read requests and responses.

pub mod client_address_frame;
pub mod command_code;
pub mod error;
pub mod header;
pub mod protocol_violation;
pub mod server_address_frame;

use crate::information_control_field::{spec_icf_decode, InformationControlField};
use crate::machine_address::MachineAddress;
use crate::memory_area_read_request::{
    spec_memory_area_read_request_bytes, MemoryAreaReadRequest,
};
use crate::tcp::command_code::CommandCode;
use crate::tcp::header::{spec_header_step, spec_tcp_header_bytes, Header, HeaderStep};
use crate::tcp::protocol_violation::{assert_command, assert_no_error, ProtocolViolation};
use vstd::prelude::*;

verus! {

/// The three outcomes of parsing a frame off the front of a buffer:
/// a complete value and how many bytes it took, too few bytes to
/// judge, or a malformed or unacceptable frame.
#[derive(Debug)]
pub enum ReadOutcome<T> {
    Complete { value: T, consumed: usize },
    Incomplete,
    Violation(ProtocolViolation),
}

/// The full wire image of a memory area read request: envelope with
/// length 26 and the Fins command, then the 18-byte request.
pub open spec fn spec_memory_area_read_request_frame_bytes(req: MemoryAreaReadRequest) -> Seq<
    u8,
> {
    spec_tcp_header_bytes(Header { length: 26, command: CommandCode::Fins, error_code: 0 })
        + spec_memory_area_read_request_bytes(req)
}

/// Appends a complete memory area read request frame, envelope
/// included, to `out`.
pub fn write_memory_area_read_request(out: &mut Vec<u8>, request: &MemoryAreaReadRequest)
    ensures
        final(out)@ == old(out)@ + spec_memory_area_read_request_frame_bytes(*request),
{
    let length: u32 = 8 + MemoryAreaReadRequest::byte_size() as u32;
    let header = Header { command: CommandCode::Fins, length, error_code: 0 };
    header.write_to(out);
    request.write_to(out);
    proof {
        assert(out@ =~= old(out)@ + spec_memory_area_read_request_frame_bytes(*request));
    }
}

/// A successfully parsed and validated memory area read response:
/// where it came from, where it was going, the data bytes read from
/// the memory area, and the echoed service id.
#[derive(Debug, Clone, PartialEq, Eq)]
pub struct MemoryAreaReadResponse {
    pub src_addr: MachineAddress,
    pub dst_addr: MachineAddress,
    pub bytes: Vec<u8>,
    pub service_id: u8,
}

/// What the front of a buffer says when a memory area read response is
/// awaited.  The envelope is judged first, on sixteen bytes; the FINS
/// message only once the whole frame, 8 bytes plus the length field's
/// value, is available.
pub enum ResponseStep {
    Incomplete,
    BadMagic,
    BadCommandWord { word: u32 },
    WrongCommand { actual: CommandCode },
    ErrorCode { code: u32 },
    TooShort { length: u32 },
    BadIcf { byte: u8 },
    WrongIcf { icf: InformationControlField },
    BadRequestCode { mrc: u8, src: u8 },
    BadResponseCode { mres: u8, sres: u8 },
    Done {
        destination: MachineAddress,
        source: MachineAddress,
        service_id: u8,
        data: Seq<u8>,
        size: int,
    },
}

/// Parses and validates a memory area read response off the front of a
/// byte sequence.  The frame must carry the Fins command with error
/// code zero and be long enough for the FINS header and response
/// header (length at least 22, so the data byte count, length minus
/// 22, can never underflow); the FINS message must be a response
/// expecting acknowledgement whose codes echo a successful memory area
/// read.
pub open spec fn spec_read_response(b: Seq<u8>) -> ResponseStep {
    match spec_header_step(b) {
        HeaderStep::Incomplete => ResponseStep::Incomplete,
        HeaderStep::BadMagic => ResponseStep::BadMagic,
        HeaderStep::BadCommand { word } => ResponseStep::BadCommandWord { word },
        HeaderStep::Done { length, command, error_code } => {
            if command != CommandCode::Fins {
                ResponseStep::WrongCommand { actual: command }
            } else if error_code != 0 {
                ResponseStep::ErrorCode { code: error_code }
            } else if length < 22 {
                ResponseStep::TooShort { length }
            } else if b.len() < 8 + length {
                ResponseStep::Incomplete
            } else {
                match spec_icf_decode(b[16]) {
                    None => ResponseStep::BadIcf { byte: b[16] },
                    Some(icf) => {
                        if icf != InformationControlField::ResponseWithResponse {
                            ResponseStep::WrongIcf { icf }
                        } else if !(b[26] == 0x01 && b[27] == 0x01) {
                            ResponseStep::BadRequestCode { mrc: b[26], src: b[27] }
                        } else if !(b[28] == 0x00 && b[29] == 0x00) {
                            ResponseStep::BadResponseCode { mres: b[28], sres: b[29] }
                        } else {
                            ResponseStep::Done {
                                destination: MachineAddress {
                                    network: b[19],
                                    node: b[20],
                                    unit: b[21],
                                },
                                source: MachineAddress { network: b[22], node: b[23], unit: b[24] },
                                service_id: b[25],
                                data: b.subrange(30, 8 + length),
                                size: 8 + length,
                            }
                        }
                    },
                }
            }
        },
    }
}

/// Parses a memory area read response off the front of `bytes`,
/// consuming the whole frame when complete.  Every malformed or
/// unacceptable frame is a typed violation carrying the offending
/// values; too few bytes are reported as incomplete, never as an
/// error.
pub fn read_memory_area_read_response(bytes: &[u8]) -> (r: ReadOutcome<MemoryAreaReadResponse>)
    ensures
        match spec_read_response(bytes@) {
            ResponseStep::Incomplete => r is Incomplete,
            ResponseStep::BadMagic => r matches ReadOutcome::Violation(
                ProtocolViolation::IncorrectMagicString(m),
            ) && m@ == bytes@.subrange(0, 4),
            ResponseStep::BadCommandWord { word } => r matches ReadOutcome::Violation(
                ProtocolViolation::UnknownCommand(rc),
            ) && rc.spec_bytes() == bytes@.subrange(8, 12),
            ResponseStep::WrongCommand { actual } => r == ReadOutcome::<
                MemoryAreaReadResponse,
            >::Violation(
                ProtocolViolation::UnexpectedCommand { actual, expected: CommandCode::Fins },
            ),
            ResponseStep::ErrorCode { code } => r == ReadOutcome::<
                MemoryAreaReadResponse,
            >::Violation(ProtocolViolation::UnexpectedError(code)),
            ResponseStep::TooShort { length } => r == ReadOutcome::<
                MemoryAreaReadResponse,
            >::Violation(ProtocolViolation::FrameTooShort { actual: length, minimum: 22 }),
            ResponseStep::BadIcf { byte } => r == ReadOutcome::<
                MemoryAreaReadResponse,
            >::Violation(
                ProtocolViolation::Fins(
                    crate::protocol_violation::ProtocolViolation::InvalidInformationControlField(
                        crate::information_control_field::RawInformationControlField(byte),
                    ),
                ),
            ),
            ResponseStep::WrongIcf { icf } => r == ReadOutcome::<
                MemoryAreaReadResponse,
            >::Violation(ProtocolViolation::UnexpectedInformationControlField(icf)),
            ResponseStep::BadRequestCode { mrc, src } => r == ReadOutcome::<
                MemoryAreaReadResponse,
            >::Violation(ProtocolViolation::UnexpectedRequestCode { mrc, src }),
            ResponseStep::BadResponseCode { mres, sres } => r == ReadOutcome::<
                MemoryAreaReadResponse,
            >::Violation(ProtocolViolation::UnexpectedResponseCode { mres, sres }),
            ResponseStep::Done { destination, source, service_id, data, size } => r matches
                ReadOutcome::Complete { value, consumed } && value.src_addr == source
                && value.dst_addr == destination && value.service_id == service_id && value.bytes@
                == data && consumed == size,
        },
{
    let header = match Header::read_from(bytes) {
        ReadOutcome::Incomplete => {
            return ReadOutcome::Incomplete;
        },
        ReadOutcome::Violation(v) => {
            return ReadOutcome::Violation(v);
        },
        ReadOutcome::Complete { value, consumed: _ } => value,
    };
    match assert_command(header.command, CommandCode::Fins) {
        Ok(_) => (),
        Err(v) => {
            return ReadOutcome::Violation(v);
        },
    }
    match assert_no_error(header.error_code) {
        Ok(_) => (),
        Err(v) => {
            return ReadOutcome::Violation(v);
        },
    }
    if header.length < 22 {
        return ReadOutcome::Violation(
            ProtocolViolation::FrameTooShort { actual: header.length, minimum: 22 },
        );
    }
    let total: u64 = 8u64 + header.length as u64;
    if (bytes.len() as u64) < total {
        return ReadOutcome::Incomplete;
    }
    let size: usize = total as usize;
    let raw_fins_header = crate::header::RawHeader::from_bytes(&bytes[16..26]);
    let fins_header = match raw_fins_header.deserialize() {
        Ok(h) => h,
        Err(crate::error::Error::ProtocolViolation(v)) => {
            proof {
                assert(crate::header::spec_raw_header_bytes(raw_fins_header)[0] == bytes@[16]);
            }
            return ReadOutcome::Violation(ProtocolViolation::Fins(v));
        },
        // The header codec reports protocol violations only; this arm
        // is unreachable, as the assertion shows.
        Err(crate::error::Error::Io(_)) => {
            proof {
                assert(false);
            }
            return ReadOutcome::Incomplete;
        },
    };
    match fins_header.icf {
        InformationControlField::ResponseWithResponse => (),
        _ => {
            return ReadOutcome::Violation(
                ProtocolViolation::UnexpectedInformationControlField(fins_header.icf),
            );
        },
    }
    let mrc = bytes[26];
    let src = bytes[27];
    if !(mrc == 0x01 && src == 0x01) {
        return ReadOutcome::Violation(ProtocolViolation::UnexpectedRequestCode { mrc, src });
    }
    let mres = bytes[28];
    let sres = bytes[29];
    if !(mres == 0x00 && sres == 0x00) {
        return ReadOutcome::Violation(ProtocolViolation::UnexpectedResponseCode { mres, sres });
    }
    let mut data: Vec<u8> = Vec::new();
    data.extend_from_slice(&bytes[30..size]);
    proof {
        assert(bytes@.subrange(30, 8 + header.length) =~= bytes@.subrange(30int, size as int));
    }
    ReadOutcome::Complete {
        value: MemoryAreaReadResponse {
            src_addr: fins_header.source,
            dst_addr: fins_header.destination,
            bytes: data,
            service_id: fins_header.sid,
        },
        consumed: size,
    }
}

} // verus!
