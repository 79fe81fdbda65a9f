//! Tests of the FINS message codecs: information control field,
//! machine address, memory area code, memory address, header, bodies.

use fins::header::{Header, RawHeader};
use fins::information_control_field::{InformationControlField, RawInformationControlField};
use fins::machine_address::MachineAddress;
use fins::memory_address::{MemoryAddress, RawMemoryAddress};
use fins::memory_area_code::{MemoryAreaCode, RawMemoryAreaCode};
use fins::memory_area_read_request::MemoryAreaReadRequest;
use fins::memory_area_read_response::MemoryAreaReadResponse;
use fins::num::u16be;
use fins::protocol_violation::ProtocolViolation;

#[test]
fn header_to_bytes_works() {
    let input = Header {
        icf: InformationControlField::RequestWithResponse,
        gct: 0x02,
        destination: MachineAddress {
            network: 0x03,
            node: 0x04,
            unit: 0x05,
        },
        source: MachineAddress {
            network: 0x06,
            node: 0x07,
            unit: 0x08,
        },
        sid: 0x09,
    };

    assert_eq!(
        input.serialize().bytes(),
        vec![0x80, 0x00, 0x02, 0x03, 0x04, 0x05, 0x06, 0x07, 0x08, 0x09]
    );
}

#[test]
fn information_control_field_works() {
    assert_eq!(
        InformationControlField::RequestWithResponse.serialize(),
        RawInformationControlField(0b10000000)
    );
    assert_eq!(
        InformationControlField::RequestWithResponse,
        RawInformationControlField(0b10000000).deserialize().unwrap()
    );
    assert_eq!(
        InformationControlField::RequestWithoutResponse.serialize(),
        RawInformationControlField(0b10000001)
    );
    assert_eq!(
        InformationControlField::RequestWithoutResponse,
        RawInformationControlField(0b10000001).deserialize().unwrap()
    );
    assert_eq!(
        InformationControlField::ResponseWithResponse.serialize(),
        RawInformationControlField(0b11000000)
    );
    assert_eq!(
        InformationControlField::ResponseWithResponse,
        RawInformationControlField(0b11000000).deserialize().unwrap()
    );
    assert_eq!(
        InformationControlField::ResponseWithoutResponse.serialize(),
        RawInformationControlField(0b11000001)
    );
    assert_eq!(
        InformationControlField::ResponseWithoutResponse,
        RawInformationControlField(0b11000001).deserialize().unwrap()
    );
}

#[test]
fn information_control_field_rejects_invalid_bytes() {
    assert_eq!(
        RawInformationControlField(0x00).deserialize(),
        Err(ProtocolViolation::InvalidInformationControlField(
            RawInformationControlField(0x00)
        ))
    );
    assert_eq!(
        RawInformationControlField(0x82).deserialize(),
        Err(ProtocolViolation::InvalidInformationControlField(
            RawInformationControlField(0x82)
        ))
    );
    assert_eq!(
        RawInformationControlField(0xFF).deserialize(),
        Err(ProtocolViolation::InvalidInformationControlField(
            RawInformationControlField(0xFF)
        ))
    );
}

#[test]
fn information_control_field_flags_work() {
    assert!(InformationControlField::RequestWithResponse.is_request());
    assert!(InformationControlField::RequestWithResponse.requires_response());
    assert!(InformationControlField::RequestWithoutResponse.is_request());
    assert!(!InformationControlField::RequestWithoutResponse.requires_response());
    assert!(!InformationControlField::ResponseWithResponse.is_request());
    assert!(InformationControlField::ResponseWithResponse.requires_response());
    assert!(!InformationControlField::ResponseWithoutResponse.is_request());
    assert!(!InformationControlField::ResponseWithoutResponse.requires_response());
}

#[test]
fn memory_area_code_round_trips() {
    assert_eq!(MemoryAreaCode::D.serialize(), RawMemoryAreaCode(0x82));
    assert_eq!(RawMemoryAreaCode(0x82).deserialize(), Ok(MemoryAreaCode::D));
}

#[test]
fn memory_area_code_rejects_unknown_bytes() {
    assert_eq!(
        RawMemoryAreaCode(0x00).deserialize(),
        Err(ProtocolViolation::InvalidMemoryAreaCode(RawMemoryAreaCode(
            0x00
        )))
    );
    assert_eq!(
        RawMemoryAreaCode(0x83).deserialize(),
        Err(ProtocolViolation::InvalidMemoryAreaCode(RawMemoryAreaCode(
            0x83
        )))
    );
}

#[test]
fn serialize_works() {
    assert_eq!(
        MemoryAddress {
            area_code: MemoryAreaCode::D,
            offset: 100,
            bits: 0
        }
        .serialize(),
        RawMemoryAddress {
            area_code: RawMemoryAreaCode(0x82),
            offset: u16be::from_u16(100),
            bits: 0
        }
    );
}

#[test]
fn layout_is_nice() {
    assert_eq!(std::mem::size_of::<MemoryAddress>(), 4);
}

#[test]
fn memory_address_round_trips() {
    let samples = [
        (0u16, 0u8),
        (100, 0),
        (1500, 3),
        (65535, 255),
        (0, 255),
        (65535, 0),
    ];
    for &(offset, bits) in samples.iter() {
        let input = MemoryAddress {
            area_code: MemoryAreaCode::D,
            offset,
            bits,
        };
        assert_eq!(input.serialize().deserialize().unwrap(), input);
    }
}

#[test]
fn memory_address_bytes_are_packed_big_endian() {
    let raw = MemoryAddress {
        area_code: MemoryAreaCode::D,
        offset: 1500,
        bits: 7,
    }
    .serialize();
    assert_eq!(raw.bytes(), vec![0x82, 0x05, 0xDC, 0x07]);
}

#[test]
fn memory_address_display_works() {
    let plain = MemoryAddress {
        area_code: MemoryAreaCode::D,
        offset: 1500,
        bits: 0,
    };
    assert_eq!(plain.display_string(), "D1500");
    let with_bit = MemoryAddress {
        area_code: MemoryAreaCode::D,
        offset: 2420,
        bits: 1,
    };
    assert_eq!(with_bit.display_string(), "D2420.1");
    let zero = MemoryAddress {
        area_code: MemoryAreaCode::D,
        offset: 0,
        bits: 0,
    };
    assert_eq!(zero.display_string(), "D0");
}

#[test]
fn header_round_trips() {
    let input = Header {
        icf: InformationControlField::ResponseWithoutResponse,
        gct: 7,
        destination: MachineAddress {
            network: 1,
            node: 254,
            unit: 9,
        },
        source: MachineAddress {
            network: 0,
            node: 33,
            unit: 0,
        },
        sid: 211,
    };
    let bytes = input.serialize().bytes();
    let parsed = RawHeader::from_bytes(&bytes).deserialize().unwrap();
    assert_eq!(parsed, input);
}

#[test]
fn header_rejects_invalid_information_control_field() {
    let bytes = vec![0x00, 0x00, 0x02, 0, 1, 0, 0, 2, 0, 9];
    match RawHeader::from_bytes(&bytes).deserialize() {
        Err(fins::error::Error::ProtocolViolation(
            ProtocolViolation::InvalidInformationControlField(raw),
        )) => assert_eq!(raw, RawInformationControlField(0x00)),
        _ => panic!("an invalid information control field must be rejected"),
    }
}

#[test]
fn request_body_sizes_are_fixed() {
    assert_eq!(MemoryAreaReadRequest::byte_size(), 18);
    assert_eq!(MemoryAreaReadResponse::byte_size(), 20);
}

#[test]
fn request_write_to_has_exact_layout() {
    let request = MemoryAreaReadRequest {
        server_node: 0xD3,
        client_node: 0xFB,
        address: MemoryAddress {
            area_code: MemoryAreaCode::D,
            offset: 1500,
            bits: 0,
        },
        count: 16,
        service_id: 9,
    };
    let mut out = vec![];
    request.write_to(&mut out);
    assert_eq!(
        out,
        [
            0x80, 0x00, 0x02, // ICF, reserved, gateway count
            0x00, 0xD3, 0x00, // destination
            0x00, 0xFB, 0x00, // source
            0x09, // service id
            0x01, 0x01, // request codes
            0x82, 0x05, 0xDC, 0x00, // memory address
            0x00, 0x10, // word count
        ]
    );
}

#[test]
fn violation_messages_carry_the_offending_byte() {
    assert_eq!(
        ProtocolViolation::InvalidMemoryAreaCode(RawMemoryAreaCode(0x1F)).message(),
        "Invalid FINS memory area code 0x1F!"
    );
    assert_eq!(
        ProtocolViolation::InvalidInformationControlField(RawInformationControlField(0x00))
            .message(),
        "Invalid FINS information control field 0x00!"
    );
}
