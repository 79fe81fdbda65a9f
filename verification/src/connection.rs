//! The receive side of one FINS/TCP connection: a bounded
//! accumulation buffer that reconstructs frames from a byte stream
//! delivered in arbitrary chunks, and the correlation of pipelined
//! requests to their responses by service id.
//!
//! The connection never blocks and never reads: the I/O layer feeds it
//! whatever bytes arrived and asks for the next frame.  "Not enough
//! bytes yet" is the one condition that calls for another transport
//! read; everything else is a typed failure, terminal for the
//! connection.

use crate::memory_area_read_request::MemoryAreaReadRequest;
use crate::num::be_val;
use crate::tcp::command_code::CommandCode;
use crate::tcp::header::{spec_header_step, Header, HeaderStep};
use crate::tcp::protocol_violation::ProtocolViolation;
use crate::tcp::server_address_frame::{
    spec_read_server_address_frame, ServerAddressFrame, ServerFrameStep,
};
use crate::tcp::{
    read_memory_area_read_response, spec_memory_area_read_request_frame_bytes, spec_read_response,
    MemoryAreaReadResponse, ReadOutcome, ResponseStep,
};
use vstd::prelude::*;

verus! {

/// What can end a connection: a malformed or unacceptable frame, a
/// frame that cannot fit the accumulation buffer, or a response that
/// does not match the requests in flight.
#[derive(Debug, Copy, Clone, PartialEq, Eq)]
pub enum Error {
    /// The peer broke the wire protocol.
    Violation(ProtocolViolation),
    /// Accumulating `incoming` more bytes onto `buffered` would exceed
    /// `capacity` before a complete frame was recognized: the buffer
    /// is undersized for the traffic, or the peer sent an oversized or
    /// corrupt frame.
    CapacityExceeded { capacity: usize, buffered: usize, incoming: usize },
    /// A response arrived with no request outstanding.
    UnexpectedResponse { service_id: u8 },
    /// The oldest outstanding request carries `expected`, but the
    /// response echoed `actual`: the peer answered out of order.
    ServiceIdMismatch { expected: u8, actual: u8 },
}

/// A complete FINS/TCP frame, envelope already validated and removed:
/// what it carries, the peer-reported error code, and the body bytes.
#[derive(Debug, Clone, PartialEq, Eq)]
pub struct Frame {
    pub command: CommandCode,
    pub error_code: u32,
    pub body: Vec<u8>,
}

/// What the front of a buffer says when any frame is acceptable: the
/// envelope is judged on sixteen bytes, and the frame is complete once
/// 8 bytes plus the length field's value are available.  A length
/// below 8 cannot even cover the command and error words and is
/// malformed.
pub enum FrameStep {
    Incomplete,
    BadMagic,
    BadCommand { word: u32 },
    BadLength { length: u32 },
    Complete { command: CommandCode, error_code: u32, body: Seq<u8>, size: int },
}

/// The whole size of the frame opening a byte sequence: the magic and
/// length fields plus what the length field counts.
pub open spec fn spec_frame_size(b: Seq<u8>) -> int
    recommends
        b.len() >= 8,
{
    8 + be_val(b.subrange(4, 8))
}

/// Parses one frame off the front of a byte sequence.
pub open spec fn spec_frame_step(b: Seq<u8>) -> FrameStep {
    match spec_header_step(b) {
        HeaderStep::Incomplete => FrameStep::Incomplete,
        HeaderStep::BadMagic => FrameStep::BadMagic,
        HeaderStep::BadCommand { word } => FrameStep::BadCommand { word },
        HeaderStep::Done { length, command, error_code } => {
            if length < 8 {
                FrameStep::BadLength { length }
            } else if b.len() < 8 + length {
                FrameStep::Incomplete
            } else {
                FrameStep::Complete {
                    command,
                    error_code,
                    body: b.subrange(16, 8 + length),
                    size: 8 + length,
                }
            }
        },
    }
}

/// Every strict prefix of a complete frame is incomplete: a truncated
/// frame is never misparsed, and never mistaken for a malformed one.
pub proof fn lemma_frame_prefix_incomplete(b: Seq<u8>, k: int)
    requires
        spec_frame_step(b) is Complete,
        0 <= k < spec_frame_size(b),
    ensures
        spec_frame_step(b.take(k)) is Incomplete,
{
    crate::num::lemma_pow256_vals();
    crate::num::lemma_be_val_bound(b.subrange(4, 8));
    if k >= 16 {
        assert(b.take(k).subrange(0, 4) =~= b.subrange(0, 4));
        assert(b.take(k).subrange(4, 8) =~= b.subrange(4, 8));
        assert(b.take(k).subrange(8, 12) =~= b.subrange(8, 12));
        assert(b.take(k).subrange(12, 16) =~= b.subrange(12, 16));
    }
}

/// A complete frame is recognized at exactly its own size: the bytes
/// beyond it change nothing about it.
pub proof fn lemma_frame_complete_at_size(b: Seq<u8>)
    requires
        spec_frame_step(b) is Complete,
    ensures
        spec_frame_step(b.take(spec_frame_size(b))) == spec_frame_step(b),
{
    crate::num::lemma_pow256_vals();
    crate::num::lemma_be_val_bound(b.subrange(4, 8));
    let n = spec_frame_size(b);
    assert(b.take(n).subrange(0, 4) =~= b.subrange(0, 4));
    assert(b.take(n).subrange(4, 8) =~= b.subrange(4, 8));
    assert(b.take(n).subrange(8, 12) =~= b.subrange(8, 12));
    assert(b.take(n).subrange(12, 16) =~= b.subrange(12, 16));
    assert(b.take(n).subrange(16, n) =~= b.subrange(16, n));
}

/// Bytes arriving after a complete frame change nothing about it:
/// chunk boundaries cannot corrupt framing.
pub proof fn lemma_frame_step_extend(b: Seq<u8>, extra: Seq<u8>)
    requires
        spec_frame_step(b) is Complete,
    ensures
        spec_frame_step(b + extra) == spec_frame_step(b),
{
    crate::num::lemma_pow256_vals();
    crate::num::lemma_be_val_bound(b.subrange(4, 8));
    let c = b + extra;
    assert(c.subrange(0, 4) =~= b.subrange(0, 4));
    assert(c.subrange(4, 8) =~= b.subrange(4, 8));
    assert(c.subrange(8, 12) =~= b.subrange(8, 12));
    assert(c.subrange(12, 16) =~= b.subrange(12, 16));
    let n = spec_frame_size(b);
    assert(c.subrange(16, n) =~= b.subrange(16, n));
}

/// The codec-side state of one FINS/TCP connection: the accumulation
/// buffer for inbound bytes, its fixed capacity, and the service ids
/// of the requests in flight, oldest first.
///
/// The buffer and the in-flight queue are scoped to one connection's
/// lifetime; tearing the connection down discards them, so no
/// partially consumed state can leak into another connection.
pub struct Connection {
    buffer: Vec<u8>,
    capacity: usize,
    pending: Vec<u8>,
}

impl Connection {
    /// The unconsumed bytes accumulated so far, in arrival order.
    pub closed spec fn buf(&self) -> Seq<u8> {
        self.buffer@
    }

    /// The most unconsumed bytes the connection will hold.
    pub closed spec fn capacity_spec(&self) -> int {
        self.capacity as int
    }

    /// The service ids of the requests in flight, send order, oldest
    /// first.
    pub closed spec fn pending_ids(&self) -> Seq<u8> {
        self.pending@
    }

    /// The buffer never holds more than its capacity.
    pub open spec fn wf(&self) -> bool {
        self.buf().len() <= self.capacity_spec()
    }

    /// A fresh connection: empty buffer of the given capacity, nothing
    /// in flight.
    pub fn new(capacity: usize) -> (r: Self)
        ensures
            r.wf(),
            r.buf() == Seq::<u8>::empty(),
            r.pending_ids() == Seq::<u8>::empty(),
            r.capacity_spec() == capacity,
    {
        Connection { buffer: Vec::new(), capacity, pending: Vec::new() }
    }

    /// Accumulates bytes delivered by the transport, in arrival order.
    /// Refuses, leaving the connection unchanged, when the chunk would
    /// not fit: that is terminal, never a silent truncation.
    pub fn feed(&mut self, chunk: &[u8]) -> (r: Result<(), Error>)
        requires
            old(self).wf(),
        ensures
            final(self).wf(),
            final(self).capacity_spec() == old(self).capacity_spec(),
            final(self).pending_ids() == old(self).pending_ids(),
            if old(self).buf().len() + chunk@.len() <= old(self).capacity_spec() {
                r == Ok::<(), Error>(()) && final(self).buf() == old(self).buf() + chunk@
            } else {
                r == Err::<(), Error>(
                    Error::CapacityExceeded {
                        capacity: old(self).capacity_spec() as usize,
                        buffered: old(self).buf().len() as usize,
                        incoming: chunk@.len() as usize,
                    },
                ) && final(self).buf() == old(self).buf()
            },
    {
        if chunk.len() > self.capacity - self.buffer.len() {
            return Err(
                Error::CapacityExceeded {
                    capacity: self.capacity,
                    buffered: self.buffer.len(),
                    incoming: chunk.len(),
                },
            );
        }
        self.buffer.extend_from_slice(chunk);
        Ok(())
    }

    /// Takes one complete frame off the front of the buffer, if one is
    /// there, and discards exactly its bytes; byte order across the
    /// compaction is preserved.  `Ok(None)` means more bytes are
    /// needed, the one condition that calls for another transport
    /// read; a malformed frame is terminal and the buffer is left as
    /// it was.
    pub fn read_frame(&mut self) -> (r: Result<Option<Frame>, Error>)
        requires
            old(self).wf(),
        ensures
            final(self).wf(),
            final(self).capacity_spec() == old(self).capacity_spec(),
            final(self).pending_ids() == old(self).pending_ids(),
            match spec_frame_step(old(self).buf()) {
                FrameStep::Incomplete => r == Ok::<Option<Frame>, Error>(None) && final(self).buf()
                    == old(self).buf(),
                FrameStep::BadMagic => (r matches Err(Error::Violation(
                    ProtocolViolation::IncorrectMagicString(m),
                )) && m@ == old(self).buf().subrange(0, 4)) && final(self).buf() == old(self).buf(),
                FrameStep::BadCommand { word } => (r matches Err(Error::Violation(
                    ProtocolViolation::UnknownCommand(rc),
                )) && rc.spec_bytes() == old(self).buf().subrange(8, 12)) && final(self).buf()
                    == old(self).buf(),
                FrameStep::BadLength { length } => r == Err::<Option<Frame>, Error>(
                    Error::Violation(
                        ProtocolViolation::FrameTooShort { actual: length, minimum: 8 },
                    ),
                ) && final(self).buf() == old(self).buf(),
                FrameStep::Complete { command, error_code, body, size } => r matches Ok(Some(f))
                    && f.command == command && f.error_code == error_code && f.body@ == body
                    && final(self).buf() == old(self).buf().skip(size),
            },
    {
        let header = match Header::read_from(self.buffer.as_slice()) {
            ReadOutcome::Incomplete => {
                return Ok(None);
            },
            ReadOutcome::Violation(v) => {
                return Err(Error::Violation(v));
            },
            ReadOutcome::Complete { value, consumed: _ } => value,
        };
        if header.length < 8 {
            return Err(
                Error::Violation(
                    ProtocolViolation::FrameTooShort { actual: header.length, minimum: 8 },
                ),
            );
        }
        let total: u64 = 8u64 + header.length as u64;
        if (self.buffer.len() as u64) < total {
            return Ok(None);
        }
        let size: usize = total as usize;
        let mut body: Vec<u8> = Vec::new();
        body.extend_from_slice(&self.buffer.as_slice()[16..size]);
        proof {
            assert(old(self).buf().subrange(16, 8 + header.length) =~= old(self).buf().subrange(
                16int,
                size as int,
            ));
        }
        let rest = self.buffer.split_off(size);
        self.buffer = rest;
        proof {
            assert(self.buffer@ =~= old(self).buf().skip(size as int));
        }
        Ok(Some(Frame { command: header.command, error_code: header.error_code, body }))
    }

    /// Writes one request frame to `out` and records its service id as
    /// the newest in flight.  The caller may send any number of
    /// requests before reading the first response; responses are then
    /// owed strictly in send order.
    pub fn send_request(&mut self, out: &mut Vec<u8>, request: &MemoryAreaReadRequest)
        requires
            old(self).wf(),
        ensures
            final(self).wf(),
            final(self).capacity_spec() == old(self).capacity_spec(),
            final(self).buf() == old(self).buf(),
            final(self).pending_ids() == old(self).pending_ids().push(request.service_id),
            final(out)@ == old(out)@ + spec_memory_area_read_request_frame_bytes(*request),
    {
        crate::tcp::write_memory_area_read_request(out, request);
        self.pending.push(request.service_id);
    }

    /// Takes one complete memory area read response off the front of
    /// the buffer, if one is there, and matches it against the oldest
    /// request in flight.  The response's embedded service id must
    /// equal the oldest outstanding one; a mismatch or an unexpected
    /// response is a typed failure, never a silent reordering.
    pub fn read_response(&mut self) -> (r: Result<Option<MemoryAreaReadResponse>, Error>)
        requires
            old(self).wf(),
        ensures
            final(self).wf(),
            final(self).capacity_spec() == old(self).capacity_spec(),
            match spec_read_response(old(self).buf()) {
                ResponseStep::Incomplete => r == Ok::<Option<MemoryAreaReadResponse>, Error>(None)
                    && final(self).buf() == old(self).buf() && final(self).pending_ids() == old(self).pending_ids(),
                ResponseStep::BadMagic => (r matches Err(Error::Violation(
                    ProtocolViolation::IncorrectMagicString(m),
                )) && m@ == old(self).buf().subrange(0, 4)) && final(self).buf() == old(self).buf()
                    && final(self).pending_ids() == old(self).pending_ids(),
                ResponseStep::BadCommandWord { word } => (r matches Err(Error::Violation(
                    ProtocolViolation::UnknownCommand(rc),
                )) && rc.spec_bytes() == old(self).buf().subrange(8, 12)) && final(self).buf()
                    == old(self).buf() && final(self).pending_ids() == old(self).pending_ids(),
                ResponseStep::WrongCommand { actual } => r == Err::<
                    Option<MemoryAreaReadResponse>,
                    Error,
                >(
                    Error::Violation(
                        ProtocolViolation::UnexpectedCommand {
                            actual,
                            expected: CommandCode::Fins,
                        },
                    ),
                ) && final(self).buf() == old(self).buf() && final(self).pending_ids() == old(self).pending_ids(),
                ResponseStep::ErrorCode { code } => r == Err::<
                    Option<MemoryAreaReadResponse>,
                    Error,
                >(Error::Violation(ProtocolViolation::UnexpectedError(code))) && final(self).buf()
                    == old(self).buf() && final(self).pending_ids() == old(self).pending_ids(),
                ResponseStep::TooShort { length } => r == Err::<
                    Option<MemoryAreaReadResponse>,
                    Error,
                >(
                    Error::Violation(
                        ProtocolViolation::FrameTooShort { actual: length, minimum: 22 },
                    ),
                ) && final(self).buf() == old(self).buf() && final(self).pending_ids() == old(self).pending_ids(),
                ResponseStep::BadIcf { byte } => r == Err::<Option<MemoryAreaReadResponse>, Error>(
                    Error::Violation(
                        ProtocolViolation::Fins(
                            crate::protocol_violation::ProtocolViolation::InvalidInformationControlField(
                                crate::information_control_field::RawInformationControlField(byte),
                            ),
                        ),
                    ),
                ) && final(self).buf() == old(self).buf() && final(self).pending_ids() == old(self).pending_ids(),
                ResponseStep::WrongIcf { icf } => r == Err::<Option<MemoryAreaReadResponse>, Error>(
                    Error::Violation(ProtocolViolation::UnexpectedInformationControlField(icf)),
                ) && final(self).buf() == old(self).buf() && final(self).pending_ids() == old(self).pending_ids(),
                ResponseStep::BadRequestCode { mrc, src } => r == Err::<
                    Option<MemoryAreaReadResponse>,
                    Error,
                >(Error::Violation(ProtocolViolation::UnexpectedRequestCode { mrc, src })) && final(self).buf() == old(self).buf() && final(self).pending_ids() == old(self).pending_ids(),
                ResponseStep::BadResponseCode { mres, sres } => r == Err::<
                    Option<MemoryAreaReadResponse>,
                    Error,
                >(Error::Violation(ProtocolViolation::UnexpectedResponseCode { mres, sres }))
                    && final(self).buf() == old(self).buf() && final(self).pending_ids() == old(self).pending_ids(),
                ResponseStep::Done { destination, source, service_id, data, size } => {
                    if old(self).pending_ids().len() == 0 {
                        r == Err::<Option<MemoryAreaReadResponse>, Error>(
                            Error::UnexpectedResponse { service_id },
                        ) && final(self).buf() == old(self).buf() && final(self).pending_ids()
                            == old(self).pending_ids()
                    } else if old(self).pending_ids()[0] != service_id {
                        r == Err::<Option<MemoryAreaReadResponse>, Error>(
                            Error::ServiceIdMismatch {
                                expected: old(self).pending_ids()[0],
                                actual: service_id,
                            },
                        ) && final(self).buf() == old(self).buf() && final(self).pending_ids()
                            == old(self).pending_ids()
                    } else {
                        (r matches Ok(Some(resp)) && resp.src_addr == source && resp.dst_addr
                            == destination && resp.service_id == service_id && resp.bytes@ == data)
                            && final(self).buf() == old(self).buf().skip(size) && final(self).pending_ids() == old(self).pending_ids().skip(1)
                    }
                },
            },
    {
        let response = match read_memory_area_read_response(self.buffer.as_slice()) {
            ReadOutcome::Incomplete => {
                return Ok(None);
            },
            ReadOutcome::Violation(v) => {
                return Err(Error::Violation(v));
            },
            ReadOutcome::Complete { value, consumed } => {
                if self.pending.len() == 0 {
                    return Err(Error::UnexpectedResponse { service_id: value.service_id });
                }
                let expected = self.pending[0];
                if expected != value.service_id {
                    return Err(
                        Error::ServiceIdMismatch { expected, actual: value.service_id },
                    );
                }
                self.pending.remove(0);
                let rest = self.buffer.split_off(consumed);
                self.buffer = rest;
                proof {
                    assert(self.pending@ =~= old(self).pending_ids().skip(1));
                    assert(self.buffer@ =~= old(self).buf().skip(consumed as int));
                }
                value
            },
        };
        Ok(Some(response))
    }

    /// Takes the handshake's server address frame off the front of the
    /// buffer, if it is complete, and discards exactly its bytes.
    pub fn read_server_address_frame(&mut self) -> (r: Result<Option<ServerAddressFrame>, Error>)
        requires
            old(self).wf(),
        ensures
            final(self).wf(),
            final(self).capacity_spec() == old(self).capacity_spec(),
            final(self).pending_ids() == old(self).pending_ids(),
            match spec_read_server_address_frame(old(self).buf()) {
                ServerFrameStep::Incomplete => r == Ok::<Option<ServerAddressFrame>, Error>(None)
                    && final(self).buf() == old(self).buf(),
                ServerFrameStep::BadMagic => (r matches Err(Error::Violation(
                    ProtocolViolation::IncorrectMagicString(m),
                )) && m@ == old(self).buf().subrange(0, 4)) && final(self).buf() == old(self).buf(),
                ServerFrameStep::BadCommandWord { word } => (r matches Err(Error::Violation(
                    ProtocolViolation::UnknownCommand(rc),
                )) && rc.spec_bytes() == old(self).buf().subrange(8, 12)) && final(self).buf()
                    == old(self).buf(),
                ServerFrameStep::BadLength { actual } => r == Err::<
                    Option<ServerAddressFrame>,
                    Error,
                >(
                    Error::Violation(
                        ProtocolViolation::UnexpectedHeaderLength { actual, expected: 16 },
                    ),
                ) && final(self).buf() == old(self).buf(),
                ServerFrameStep::WrongCommand { actual } => r == Err::<
                    Option<ServerAddressFrame>,
                    Error,
                >(
                    Error::Violation(
                        ProtocolViolation::UnexpectedCommand {
                            actual,
                            expected: CommandCode::ServerAddress,
                        },
                    ),
                ) && final(self).buf() == old(self).buf(),
                ServerFrameStep::ErrorCode { code } => r == Err::<Option<ServerAddressFrame>, Error>(
                    Error::Violation(ProtocolViolation::UnexpectedError(code)),
                ) && final(self).buf() == old(self).buf(),
                ServerFrameStep::BadNode { node } => r == Err::<Option<ServerAddressFrame>, Error>(
                    Error::Violation(ProtocolViolation::InvalidNodeAddress(node)),
                ) && final(self).buf() == old(self).buf(),
                ServerFrameStep::Done { client_node, server_node } => r == Ok::<_, Error>(
                    Some(ServerAddressFrame { client_node, server_node }),
                ) && final(self).buf() == old(self).buf().skip(24),
            },
    {
        match ServerAddressFrame::read_from(self.buffer.as_slice()) {
            ReadOutcome::Incomplete => Ok(None),
            ReadOutcome::Violation(v) => Err(Error::Violation(v)),
            ReadOutcome::Complete { value, consumed } => {
                let rest = self.buffer.split_off(consumed);
                self.buffer = rest;
                proof {
                    assert(self.buffer@ =~= old(self).buf().skip(24));
                }
                Ok(Some(value))
            },
        }
    }
}

} // verus!
