//! Codec for the Omron FINS industrial-automation protocol and its
//! FINS/TCP transport encapsulation.
//!
//! The crate is organised like the protocol itself: byte-order
//! primitives at the bottom ([`num`]), the single-field codecs above
//! them (information control field, machine address, memory area code,
//! memory address), the FINS message header and the memory-area-read
//! bodies on top of those, the FINS/TCP envelope and handshake frames
//! in [`tcp`], and finally the streaming frame reader with
//! request/response correlation in [`connection`].

pub mod connection;
pub mod error;
pub mod header;
pub mod information_control_field;
pub mod machine_address;
pub mod memory_address;
pub mod memory_area_read_request;
pub mod memory_area_read_response;
pub mod memory_area_code;
pub mod num;
pub mod protocol_violation;
pub mod tcp;
pub mod text;

use vstd::prelude::*;

verus! {

/// A request header as laid out on the wire: main and sub request
/// codes, one byte each.
#[derive(Debug, Default, Copy, Clone, Eq, PartialEq, Structural)]
pub struct RawRequestHeader {
    /// Main Request Code
    pub mrc: u8,
    /// Sub Request Code
    pub src: u8,
}

/// The FINS commands this library speaks.
#[derive(Debug, Copy, Clone, Eq, PartialEq, Structural)]
pub enum RequestHeader {
    MemoryAreaRead,
}

impl RequestHeader {
    /// The wire codes of the command: memory area read is 0x01/0x01.
    pub fn to_raw(self) -> (r: RawRequestHeader)
        ensures
            r == (RawRequestHeader { mrc: 0x01, src: 0x01 }),
    {
        match self {
            Self::MemoryAreaRead => RawRequestHeader { mrc: 0x01, src: 0x01 },
        }
    }
}

/// A response header as laid out on the wire: the echoed request codes
/// and the device's response codes, one byte each.  Response codes
/// 0x00/0x00 signal success; anything else is a device-reported error.
#[derive(Debug, Default, Copy, Clone, Eq, PartialEq, Structural)]
pub struct RawResponseHeader {
    /// Main Request Code
    pub mrc: u8,
    /// Sub Request Code
    pub src: u8,
    /// Main Response Code
    pub mres: u8,
    /// Sub Response Code
    pub sres: u8,
}

} // verus!
