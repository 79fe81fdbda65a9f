//! Tests of the streaming frame reader and of request/response
//! correlation under pipelining.

use fins::connection::{Connection, Error, Frame};
use fins::memory_address::MemoryAddress;
use fins::memory_area_code::MemoryAreaCode;
use fins::memory_area_read_request::MemoryAreaReadRequest;
use fins::tcp::command_code::CommandCode;
use fins::tcp::header::Header;
use fins::tcp::protocol_violation::ProtocolViolation;

fn response_frame(client_node: u8, server_node: u8, service_id: u8, data: &[u8]) -> Vec<u8> {
    let length = (22 + data.len()) as u32;
    let mut frame = vec![];
    Header {
        length,
        command: CommandCode::Fins,
        error_code: 0,
    }
    .write_to(&mut frame);
    frame.push(0xC0);
    frame.push(0x00);
    frame.push(0x02);
    frame.push(0x00);
    frame.push(client_node);
    frame.push(0x00);
    frame.push(0x00);
    frame.push(server_node);
    frame.push(0x00);
    frame.push(service_id);
    frame.push(0x01);
    frame.push(0x01);
    frame.push(0x00);
    frame.push(0x00);
    frame.extend_from_slice(data);
    frame
}

fn read_whole(frame: &[u8]) -> Frame {
    let mut connection = Connection::new(4096);
    connection.feed(frame).unwrap();
    connection
        .read_frame()
        .unwrap()
        .expect("a whole frame must parse")
}

#[test]
fn frame_split_across_two_chunks_parses_the_same() {
    let frame = response_frame(3, 4, 7, &[1, 2, 3, 4, 5, 6]);
    let expected = read_whole(&frame);

    for split in 1..frame.len() {
        let mut connection = Connection::new(4096);
        connection.feed(&frame[..split]).unwrap();
        assert_eq!(connection.read_frame().unwrap(), None);
        connection.feed(&frame[split..]).unwrap();
        assert_eq!(connection.read_frame().unwrap(), Some(expected.clone()));
    }
}

#[test]
fn frame_split_across_three_chunks_parses_the_same() {
    let frame = response_frame(3, 4, 7, &[9, 8, 7]);
    let expected = read_whole(&frame);

    let mut connection = Connection::new(4096);
    connection.feed(&frame[..5]).unwrap();
    assert_eq!(connection.read_frame().unwrap(), None);
    connection.feed(&frame[5..17]).unwrap();
    assert_eq!(connection.read_frame().unwrap(), None);
    connection.feed(&frame[17..]).unwrap();
    assert_eq!(connection.read_frame().unwrap(), Some(expected));
}

#[test]
fn frame_fed_byte_by_byte_parses_the_same() {
    let frame = response_frame(1, 2, 0, &[0xAA, 0xBB]);
    let expected = read_whole(&frame);

    let mut connection = Connection::new(4096);
    for (i, &byte) in frame.iter().enumerate() {
        assert_eq!(
            connection.read_frame().unwrap(),
            None,
            "incomplete after {} bytes",
            i
        );
        connection.feed(&[byte]).unwrap();
    }
    assert_eq!(connection.read_frame().unwrap(), Some(expected));
}

#[test]
fn truncated_frame_is_incomplete_at_every_prefix() {
    let frame = response_frame(5, 6, 1, &[1, 2, 3]);
    for len in 0..frame.len() {
        let mut connection = Connection::new(4096);
        connection.feed(&frame[..len]).unwrap();
        assert_eq!(connection.read_frame().unwrap(), None);
    }
}

#[test]
fn two_frames_in_one_buffer_come_out_in_order() {
    let first = response_frame(1, 2, 0, &[0x11]);
    let second = response_frame(1, 2, 1, &[0x22, 0x33]);
    let mut both = first.clone();
    both.extend_from_slice(&second);

    let mut connection = Connection::new(4096);
    connection.feed(&both).unwrap();
    assert_eq!(connection.read_frame().unwrap(), Some(read_whole(&first)));
    assert_eq!(connection.read_frame().unwrap(), Some(read_whole(&second)));
    assert_eq!(connection.read_frame().unwrap(), None);
}

#[test]
fn reader_reports_bad_magic() {
    let mut frame = response_frame(1, 2, 0, &[]);
    frame[0] = 0x47;
    let mut connection = Connection::new(4096);
    connection.feed(&frame).unwrap();
    match connection.read_frame() {
        Err(Error::Violation(ProtocolViolation::IncorrectMagicString(m))) => {
            assert_eq!(m, [0x47, 0x49, 0x4E, 0x53]);
        }
        _ => panic!("bad magic must be terminal, never skipped"),
    }
}

#[test]
fn reader_reports_capacity_exceeded() {
    let mut connection = Connection::new(10);
    connection.feed(&[0; 6]).unwrap();
    match connection.feed(&[0; 5]) {
        Err(Error::CapacityExceeded {
            capacity,
            buffered,
            incoming,
        }) => {
            assert_eq!((capacity, buffered, incoming), (10, 6, 5));
        }
        _ => panic!("overflowing the buffer must be a reported error"),
    }
}

#[test]
fn handshake_frame_reads_through_the_connection() {
    let bytes = [
        0x46, 0x49, 0x4E, 0x53, 0x00, 0x00, 0x00, 0x10, 0x00, 0x00, 0x00, 0x01, 0x00, 0x00, 0x00,
        0x00, 0x00, 0x00, 0x00, 0x03, 0x00, 0x00, 0x00, 0x04,
    ];
    let mut connection = Connection::new(2048);
    connection.feed(&bytes[..9]).unwrap();
    assert_eq!(connection.read_server_address_frame().unwrap(), None);
    connection.feed(&bytes[9..]).unwrap();
    let frame = connection
        .read_server_address_frame()
        .unwrap()
        .expect("a whole handshake frame must parse");
    assert_eq!(frame.client_node, 3);
    assert_eq!(frame.server_node, 4);
}

#[test]
fn pipelining_works() {
    let client_node = 3;
    let server_node = 4;
    let mut connection = Connection::new(8192);
    let mut outbound = vec![];

    for i in 0..4u8 {
        connection.send_request(
            &mut outbound,
            &MemoryAreaReadRequest {
                server_node,
                client_node,
                address: MemoryAddress {
                    area_code: MemoryAreaCode::D,
                    offset: (i as u16) * 500,
                    bits: 0,
                },
                count: 500,
                service_id: i,
            },
        );
    }
    assert_eq!(outbound.len(), 4 * 34);

    let mut inbound = vec![];
    for i in 0..4u8 {
        inbound.extend_from_slice(&response_frame(client_node, server_node, i, &[i, i]));
    }
    connection.feed(&inbound).unwrap();

    for i in 0..4u8 {
        let response = connection
            .read_response()
            .unwrap()
            .expect("each pipelined response must be complete");
        assert_eq!(response.service_id, i);
        assert_eq!(response.src_addr.node, server_node);
        assert_eq!(response.dst_addr.node, client_node);
        assert_eq!(response.bytes, vec![i, i]);
    }
    assert_eq!(connection.read_response().unwrap(), None);
}

#[test]
fn mismatched_service_id_is_detected() {
    let mut connection = Connection::new(4096);
    let mut outbound = vec![];
    connection.send_request(
        &mut outbound,
        &MemoryAreaReadRequest {
            server_node: 4,
            client_node: 3,
            address: MemoryAddress {
                area_code: MemoryAreaCode::D,
                offset: 0,
                bits: 0,
            },
            count: 1,
            service_id: 5,
        },
    );
    connection.feed(&response_frame(3, 4, 9, &[0, 0])).unwrap();
    assert_eq!(
        connection.read_response(),
        Err(Error::ServiceIdMismatch {
            expected: 5,
            actual: 9
        })
    );
}

#[test]
fn response_with_nothing_in_flight_is_detected() {
    let mut connection = Connection::new(4096);
    connection.feed(&response_frame(3, 4, 0, &[])).unwrap();
    assert_eq!(
        connection.read_response(),
        Err(Error::UnexpectedResponse { service_id: 0 })
    );
}
