//! Tests of the FINS/TCP layer: envelope, handshake frames, request
//! framing and response parsing.

use fins::information_control_field::{InformationControlField, RawInformationControlField};
use fins::memory_address::MemoryAddress;
use fins::memory_area_code::MemoryAreaCode;
use fins::memory_area_read_request::MemoryAreaReadRequest;
use fins::tcp::client_address_frame::ClientAddressFrame;
use fins::tcp::command_code::CommandCode;
use fins::tcp::header::Header;
use fins::tcp::protocol_violation::ProtocolViolation;
use fins::tcp::server_address_frame::ServerAddressFrame;
use fins::tcp::{read_memory_area_read_response, write_memory_area_read_request, ReadOutcome};

#[test]
fn client_address_frame_round_trip() {
    let input = ClientAddressFrame { client_node: 3 };

    let mut output = vec![];
    input.write_to(&mut output);

    assert_eq!(
        output,
        [
            0x46, 0x49, 0x4E, 0x53, 0x00, 0x00, 0x00, 0x0C, 0x00, 0x00, 0x00, 0x00, 0x00, 0x00,
            0x00, 0x00, 0x00, 0x00, 0x00, 0x03,
        ]
    );

    match ClientAddressFrame::read_from(&output) {
        ReadOutcome::Complete { value, consumed } => {
            assert_eq!(value, input);
            assert_eq!(consumed, 20);
        }
        _ => panic!("a written client address frame must parse back"),
    }
}

#[test]
fn server_address_frame_round_trip() {
    let input = ServerAddressFrame {
        client_node: 3,
        server_node: 4,
    };

    let mut output = vec![];
    input.write_to(&mut output);

    assert_eq!(
        output,
        [
            0x46, 0x49, 0x4E, 0x53, 0x00, 0x00, 0x00, 0x10, 0x00, 0x00, 0x00, 0x01, 0x00, 0x00,
            0x00, 0x00, 0x00, 0x00, 0x00, 0x03, 0x00, 0x00, 0x00, 0x04,
        ]
    );

    match ServerAddressFrame::read_from(&output) {
        ReadOutcome::Complete { value, consumed } => {
            assert_eq!(value, input);
            assert_eq!(consumed, 24);
        }
        _ => panic!("a written server address frame must parse back"),
    }
}

#[test]
fn server_address_frame_parse_works() {
    let bytes = [
        0x46, 0x49, 0x4E, 0x53, 0x00, 0x00, 0x00, 0x10, 0x00, 0x00, 0x00, 0x01, 0x00, 0x00, 0x00,
        0x00, 0x00, 0x00, 0x00, 0x03, 0x00, 0x00, 0x00, 0x04,
    ];
    match ServerAddressFrame::read_from(&bytes) {
        ReadOutcome::Complete { value, consumed } => {
            assert_eq!(value.client_node, 3);
            assert_eq!(value.server_node, 4);
            assert_eq!(consumed, 24);
        }
        _ => panic!("a well-formed server address frame must parse"),
    }
}

#[test]
fn works() {
    let mut buffer = vec![];
    write_memory_area_read_request(
        &mut buffer,
        &MemoryAreaReadRequest {
            server_node: 0xD3,
            client_node: 0xFB,
            address: MemoryAddress {
                area_code: MemoryAreaCode::D,
                offset: 1500,
                bits: 0,
            },
            count: 16,
            service_id: 0,
        },
    );

    assert_eq!(
        &buffer[..],
        &[
            0x46, 0x49, 0x4E, 0x53, // FINS
            0x00, 0x00, 0x00, 0x1A, // length: 26
            0x00, 0x00, 0x00, 0x02, // command: fins
            0x00, 0x00, 0x00, 0x00, // error: none
            0x80, // ICF: use gateway, command with response
            0x00, // RSV
            0x02, // GCT: gateway count 2
            0x00, 0xD3, 0x00, // destination: the server node
            0x00, 0xFB, 0x00, // source: the client node
            0x00, // SID
            0x01, 0x01, // request code: memory area read
            0x82, 0x05, 0xDC, 0x00, // memory address: location D, offset 1500, bit 0
            0x00, 0x10, // word count: 16
        ]
    )
}

#[test]
fn fmt_works() {
    assert_eq!(
        ProtocolViolation::IncorrectMagicString([0x01, 0x52, 0x32, 0x99]).message(),
        "Received incorrect magic string 0x01523299 but expected 0x46494E53 (\"FINS\")!"
    );
}

#[test]
fn header_rejects_wrong_magic() {
    let bytes = [
        0x47, 0x49, 0x4E, 0x53, 0x00, 0x00, 0x00, 0x0C, 0x00, 0x00, 0x00, 0x00, 0x00, 0x00, 0x00,
        0x00,
    ];
    match Header::read_from(&bytes) {
        ReadOutcome::Violation(ProtocolViolation::IncorrectMagicString(m)) => {
            assert_eq!(m, [0x47, 0x49, 0x4E, 0x53]);
        }
        _ => panic!("a wrong magic string must be a violation carrying its bytes"),
    }
}

#[test]
fn header_rejects_unknown_command() {
    let bytes = [
        0x46, 0x49, 0x4E, 0x53, 0x00, 0x00, 0x00, 0x0C, 0x00, 0x00, 0x00, 0x07, 0x00, 0x00, 0x00,
        0x00,
    ];
    match Header::read_from(&bytes) {
        ReadOutcome::Violation(ProtocolViolation::UnknownCommand(raw)) => {
            assert_eq!(raw.to_u32(), 7);
        }
        _ => panic!("an unknown command word must be a violation carrying the word"),
    }
}

#[test]
fn header_round_trips_through_bytes() {
    let input = Header {
        length: 26,
        command: CommandCode::Fins,
        error_code: 0,
    };
    let mut bytes = vec![];
    input.write_to(&mut bytes);
    match Header::read_from(&bytes) {
        ReadOutcome::Complete { value, consumed } => {
            assert_eq!(value, input);
            assert_eq!(consumed, 16);
        }
        _ => panic!("a written envelope must parse back"),
    }
}

#[test]
fn command_codes_round_trip() {
    for command in [
        CommandCode::ClientAddress,
        CommandCode::ServerAddress,
        CommandCode::Fins,
    ] {
        assert_eq!(CommandCode::from_raw(command.to_raw()), Ok(command));
    }
}

fn response_frame(client_node: u8, server_node: u8, service_id: u8, data: &[u8]) -> Vec<u8> {
    let length = (22 + data.len()) as u32;
    let mut frame = vec![];
    Header {
        length,
        command: CommandCode::Fins,
        error_code: 0,
    }
    .write_to(&mut frame);
    frame.push(0xC0); // ICF: response with response required
    frame.push(0x00); // reserved
    frame.push(0x02); // gateway count
    frame.push(0x00); // destination: the client
    frame.push(client_node);
    frame.push(0x00);
    frame.push(0x00); // source: the server
    frame.push(server_node);
    frame.push(0x00);
    frame.push(service_id);
    frame.push(0x01); // echoed request codes
    frame.push(0x01);
    frame.push(0x00); // response codes: success
    frame.push(0x00);
    frame.extend_from_slice(data);
    frame
}

#[test]
fn response_parse_works() {
    let frame = response_frame(0xFB, 0xD3, 9, &[0xAB, 0xCD, 0x12, 0x34]);
    match read_memory_area_read_response(&frame) {
        ReadOutcome::Complete { value, consumed } => {
            assert_eq!(value.src_addr.node, 0xD3);
            assert_eq!(value.dst_addr.node, 0xFB);
            assert_eq!(value.service_id, 9);
            assert_eq!(value.bytes, vec![0xAB, 0xCD, 0x12, 0x34]);
            assert_eq!(consumed, frame.len());
        }
        _ => panic!("a well-formed response must parse"),
    }
}

#[test]
fn response_with_no_data_parses() {
    let frame = response_frame(1, 2, 3, &[]);
    match read_memory_area_read_response(&frame) {
        ReadOutcome::Complete { value, consumed } => {
            assert_eq!(value.bytes, Vec::<u8>::new());
            assert_eq!(value.service_id, 3);
            assert_eq!(consumed, 30);
        }
        _ => panic!("a response carrying no data bytes must still parse"),
    }
}

#[test]
fn response_rejects_wrong_command() {
    let mut frame = response_frame(1, 2, 0, &[]);
    frame[11] = 0x00; // command word: ClientAddress
    match read_memory_area_read_response(&frame) {
        ReadOutcome::Violation(ProtocolViolation::UnexpectedCommand { actual, expected }) => {
            assert_eq!(actual, CommandCode::ClientAddress);
            assert_eq!(expected, CommandCode::Fins);
        }
        _ => panic!("a handshake command in a data exchange must be a violation"),
    }
}

#[test]
fn response_rejects_nonzero_error_code() {
    let mut frame = response_frame(1, 2, 0, &[]);
    frame[15] = 0x21;
    match read_memory_area_read_response(&frame) {
        ReadOutcome::Violation(ProtocolViolation::UnexpectedError(code)) => {
            assert_eq!(code, 0x21);
        }
        _ => panic!("a nonzero envelope error code must be a violation"),
    }
}

#[test]
fn response_rejects_short_length() {
    let mut frame = response_frame(1, 2, 0, &[]);
    frame[7] = 10; // length field below the fixed overhead of 22
    match read_memory_area_read_response(&frame[..18]) {
        ReadOutcome::Violation(ProtocolViolation::FrameTooShort { actual, minimum }) => {
            assert_eq!(actual, 10);
            assert_eq!(minimum, 22);
        }
        _ => panic!("a length below the fixed overhead must be a violation, not an underflow"),
    }
}

#[test]
fn response_rejects_invalid_information_control_field() {
    let mut frame = response_frame(1, 2, 0, &[]);
    frame[16] = 0x00;
    match read_memory_area_read_response(&frame) {
        ReadOutcome::Violation(ProtocolViolation::Fins(
            fins::protocol_violation::ProtocolViolation::InvalidInformationControlField(raw),
        )) => {
            assert_eq!(raw, RawInformationControlField(0x00));
        }
        _ => panic!("an invalid information control field must be a violation"),
    }
}

#[test]
fn response_rejects_request_information_control_field() {
    let mut frame = response_frame(1, 2, 0, &[]);
    frame[16] = 0x80; // a request where a response was awaited
    match read_memory_area_read_response(&frame) {
        ReadOutcome::Violation(ProtocolViolation::UnexpectedInformationControlField(icf)) => {
            assert_eq!(icf, InformationControlField::RequestWithResponse);
        }
        _ => panic!("a request where a response was awaited must be a violation"),
    }
}

#[test]
fn response_rejects_wrong_request_codes() {
    let mut frame = response_frame(1, 2, 0, &[]);
    frame[26] = 0x02;
    match read_memory_area_read_response(&frame) {
        ReadOutcome::Violation(ProtocolViolation::UnexpectedRequestCode { mrc, src }) => {
            assert_eq!((mrc, src), (0x02, 0x01));
        }
        _ => panic!("other echoed request codes must be a violation"),
    }
}

#[test]
fn response_surfaces_device_reported_errors() {
    let mut frame = response_frame(1, 2, 0, &[]);
    frame[28] = 0x40;
    frame[29] = 0x01;
    match read_memory_area_read_response(&frame) {
        ReadOutcome::Violation(ProtocolViolation::UnexpectedResponseCode { mres, sres }) => {
            assert_eq!((mres, sres), (0x40, 0x01));
        }
        _ => panic!("nonzero response codes must surface as a typed failure"),
    }
}

#[test]
fn handshake_rejects_oversized_node_address() {
    let bytes = [
        0x46, 0x49, 0x4E, 0x53, 0x00, 0x00, 0x00, 0x10, 0x00, 0x00, 0x00, 0x01, 0x00, 0x00, 0x00,
        0x00, 0x00, 0x00, 0x01, 0x00, 0x00, 0x00, 0x00, 0x04,
    ];
    match ServerAddressFrame::read_from(&bytes) {
        ReadOutcome::Violation(ProtocolViolation::InvalidNodeAddress(node)) => {
            assert_eq!(node, 256);
        }
        _ => panic!("a node address above 255 must be a violation"),
    }
}

#[test]
fn unknown_command_message_names_the_word() {
    let bytes = [
        0x46, 0x49, 0x4E, 0x53, 0x00, 0x00, 0x00, 0x0C, 0x00, 0x00, 0x00, 0x07, 0x00, 0x00, 0x00,
        0x00,
    ];
    match Header::read_from(&bytes) {
        ReadOutcome::Violation(v) => {
            assert_eq!(
                v.message(),
                "Received FINS/TCP frame with unknown command 7!"
            );
        }
        _ => panic!("an unknown command word must be a violation"),
    }
}
