//! Tests of the byte-order primitives: layout, conversions and
//! round trips.

use fins::num::{i16be, i16le, i32be, i32le, i64be, i64le, u16be, u16le, u32be, u32le, u64be, u64le};
use std::mem::align_of;

#[test]
fn types_are_byte_aligned() {
    assert_eq!(1, align_of::<i16be>());
    assert_eq!(1, align_of::<i16le>());
    assert_eq!(1, align_of::<i32be>());
    assert_eq!(1, align_of::<i32le>());
    assert_eq!(1, align_of::<i64be>());
    assert_eq!(1, align_of::<i64le>());
    assert_eq!(1, align_of::<u16be>());
    assert_eq!(1, align_of::<u16le>());
    assert_eq!(1, align_of::<u32be>());
    assert_eq!(1, align_of::<u32le>());
    assert_eq!(1, align_of::<u64be>());
    assert_eq!(1, align_of::<u64le>());
}

struct RawThing {
    a: u16be,
    b: u16be,
    c: u64be,
}

#[test]
fn raw_struct_is_byte_aligned() {
    assert_eq!(1, align_of::<RawThing>());
    let probe = RawThing {
        a: u16be::from_u16(1),
        b: u16be::from_u16(2),
        c: u64be::from_u64(3),
    };
    assert_eq!(probe.a.to_u16(), 1);
    assert_eq!(probe.b.to_u16(), 2);
    assert_eq!(probe.c.to_u64(), 3);
}

#[test]
fn raw_conversions_make_sense() {
    assert_eq!(
        i32be::from(0x11223344).to_bytes(),
        0x11223344i32.to_be_bytes()
    );
    assert_eq!(
        i32le::from(0x11223344).to_bytes(),
        0x11223344i32.to_le_bytes()
    );
}

#[test]
fn unsigned_round_trips() {
    for v in [0u16, 1, 255, 256, 0x1234, u16::MAX] {
        assert_eq!(u16be::from_u16(v).to_u16(), v);
        assert_eq!(u16le::from_u16(v).to_u16(), v);
    }
    for v in [0u32, 1, 0x1234_5678, u32::MAX] {
        assert_eq!(u32be::from_u32(v).to_u32(), v);
        assert_eq!(u32le::from_u32(v).to_u32(), v);
    }
    for v in [0u64, 1, 0x1234_5678_9ABC_DEF0, u64::MAX] {
        assert_eq!(u64be::from_u64(v).to_u64(), v);
        assert_eq!(u64le::from_u64(v).to_u64(), v);
    }
}

#[test]
fn signed_round_trips() {
    for v in [i16::MIN, -1, 0, 1, i16::MAX] {
        assert_eq!(i16be::from_i16(v).to_i16(), v);
        assert_eq!(i16le::from_i16(v).to_i16(), v);
    }
    for v in [i32::MIN, -1, 0, 1, i32::MAX] {
        assert_eq!(i32be::from_i32(v).to_i32(), v);
        assert_eq!(i32le::from_i32(v).to_i32(), v);
    }
    for v in [i64::MIN, -1, 0, 1, i64::MAX] {
        assert_eq!(i64be::from_i64(v).to_i64(), v);
        assert_eq!(i64le::from_i64(v).to_i64(), v);
    }
}

#[test]
fn byte_images_are_exact() {
    assert_eq!(u16be::from_u16(0x1234).to_bytes(), [0x12, 0x34]);
    assert_eq!(u16le::from_u16(0x1234).to_bytes(), [0x34, 0x12]);
    assert_eq!(
        u32be::from_u32(0x11223344).to_bytes(),
        [0x11, 0x22, 0x33, 0x44]
    );
    assert_eq!(
        u32le::from_u32(0x11223344).to_bytes(),
        [0x44, 0x33, 0x22, 0x11]
    );
    assert_eq!(
        u64be::from_u64(0x1122334455667788).to_bytes(),
        [0x11, 0x22, 0x33, 0x44, 0x55, 0x66, 0x77, 0x88]
    );
    assert_eq!(
        u64le::from_u64(0x1122334455667788).to_bytes(),
        [0x88, 0x77, 0x66, 0x55, 0x44, 0x33, 0x22, 0x11]
    );
}

#[test]
fn bytes_round_trip_unchanged() {
    let image = [0xDE, 0xAD];
    assert_eq!(u16be::from_bytes(image).to_bytes(), image);
    assert_eq!(u16le::from_bytes(image).to_bytes(), image);
    assert_eq!(i16be::from_bytes(image).to_bytes(), image);
    let wide = [0xDE, 0xAD, 0xBE, 0xEF];
    assert_eq!(u32be::from_bytes(wide).to_bytes(), wide);
    assert_eq!(i32le::from_bytes(wide).to_bytes(), wide);
}
