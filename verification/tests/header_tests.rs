//! Header wire format: encode / decode.

use laic::protocol::constants::{HEADER_SIZE, MAGIC, VERSION};
use laic::{MessageHeader, MsgType, PayloadFormat, Qos};

/// Helper: create a valid header for testing.
fn sample_header() -> MessageHeader {
    MessageHeader {
        magic: MAGIC,
        version: VERSION,
        msg_type: MsgType::data().as_u16(),
        msg_id: 0x0102_0304_0506_0708,
        correlation_id: 0x1112_1314_1516_1718,
        payload_len: 1024,
        payload_format: PayloadFormat::Arrow.as_u8(),
        qos: Qos::Normal.as_u8(),
        credit_grant: 10,
        flags: 0,
        reserved: [0; 4],
    }
}

#[test]
fn encode_decode_roundtrip() {
    let original = sample_header();
    let mut buf = [0u8; HEADER_SIZE];
    let Ok(()) = original.encode(&mut buf) else {
        panic!("encode should succeed for valid header");
    };
    let Ok(decoded) = MessageHeader::decode(&buf) else {
        panic!("decode should succeed for valid buffer");
    };
    assert_eq!(decoded, original);
}

#[test]
fn encode_buffer_too_short() {
    let hdr = sample_header();
    let mut buf = [0u8; 39];
    let Err(err) = hdr.encode(&mut buf) else {
        panic!("encode should fail for 39-byte buffer");
    };
    assert_eq!(err.code().as_u16(), 0x0302);
}

#[test]
fn decode_buffer_too_short() {
    let buf = [0u8; 10];
    let Err(err) = MessageHeader::decode(&buf) else {
        panic!("decode should fail for 10-byte buffer");
    };
    assert_eq!(err.code().as_u16(), 0x0302);
}

#[test]
fn decode_invalid_magic() {
    let hdr = sample_header();
    let mut buf = [0u8; HEADER_SIZE];
    let Ok(()) = hdr.encode(&mut buf) else {
        panic!("encode should succeed for valid header");
    };
    // Corrupt magic.
    buf[0] = 0xFF;
    let Err(err) = MessageHeader::decode(&buf) else {
        panic!("decode should fail for corrupted magic");
    };
    assert_eq!(err.code().as_u16(), 0x0301);
}

#[test]
fn decode_invalid_payload_format() {
    let mut hdr = sample_header();
    hdr.payload_format = 99;
    let mut buf = [0u8; HEADER_SIZE];
    // Encode raw bytes (bypass validation in encode).
    buf[0..4].copy_from_slice(&hdr.magic.to_le_bytes());
    buf[4..6].copy_from_slice(&hdr.version.to_le_bytes());
    buf[6..8].copy_from_slice(&hdr.msg_type.to_le_bytes());
    buf[8..16].copy_from_slice(&hdr.msg_id.to_le_bytes());
    buf[16..24].copy_from_slice(&hdr.correlation_id.to_le_bytes());
    buf[24..28].copy_from_slice(&hdr.payload_len.to_le_bytes());
    buf[28] = 99; // invalid
    buf[29] = hdr.qos;
    buf[30..32].copy_from_slice(&hdr.credit_grant.to_le_bytes());
    buf[32..36].copy_from_slice(&hdr.flags.to_le_bytes());

    let Err(err) = MessageHeader::decode(&buf) else {
        panic!("decode should fail for invalid payload_format");
    };
    assert_eq!(err.code().as_u16(), 0x0304);
}

#[test]
fn decode_invalid_qos() {
    let hdr = sample_header();
    let mut buf = [0u8; HEADER_SIZE];
    let Ok(()) = hdr.encode(&mut buf) else {
        panic!("encode should succeed for valid header");
    };
    buf[29] = 5; // invalid QoS
    let Err(err) = MessageHeader::decode(&buf) else {
        panic!("decode should fail for invalid qos");
    };
    assert_eq!(err.code().as_u16(), 0x0305);
}

#[test]
fn little_endian_byte_order() {
    let hdr = sample_header();
    let mut buf = [0u8; HEADER_SIZE];
    let Ok(()) = hdr.encode(&mut buf) else {
        panic!("encode should succeed for valid header");
    };

    // Magic: 0x4C414943 in LE = [0x43, 0x49, 0x41, 0x4C]
    assert_eq!(buf[0], 0x43);
    assert_eq!(buf[1], 0x49);
    assert_eq!(buf[2], 0x41);
    assert_eq!(buf[3], 0x4C);

    // msg_id: 0x0102030405060708 in LE = [0x08, 0x07, ...]
    assert_eq!(buf[8], 0x08);
    assert_eq!(buf[9], 0x07);
}

#[test]
fn encode_into_larger_buffer() {
    let hdr = sample_header();
    let mut buf = [0u8; 128];
    let Ok(()) = hdr.encode(&mut buf) else {
        panic!("encode should succeed for 128-byte buffer");
    };
    // Bytes after header are untouched.
    assert!(buf[40..].iter().all(|&b| b == 0));
}

#[test]
fn decode_unsupported_version() {
    let hdr = sample_header();
    let mut buf = [0u8; HEADER_SIZE];
    let Ok(()) = hdr.encode(&mut buf) else {
        panic!("encode should succeed for valid header");
    };
    // Overwrite version to 0x0002 (LE).
    buf[4] = 0x02;
    buf[5] = 0x00;
    let Err(err) = MessageHeader::decode(&buf) else {
        panic!("decode should reject unsupported version");
    };
    assert_eq!(err.code().as_u16(), 0x0303);
}

#[test]
fn encode_invalid_payload_format() {
    let mut hdr = sample_header();
    hdr.payload_format = 99;
    let mut buf = [0u8; HEADER_SIZE];
    let Err(err) = hdr.encode(&mut buf) else {
        panic!("encode should reject invalid payload_format");
    };
    assert_eq!(err.code().as_u16(), 0x0304);
}

#[test]
fn encode_invalid_qos() {
    let mut hdr = sample_header();
    hdr.qos = 7;
    let mut buf = [0u8; HEADER_SIZE];
    let Err(err) = hdr.encode(&mut buf) else {
        panic!("encode should reject invalid qos");
    };
    assert_eq!(err.code().as_u16(), 0x0305);
}

#[test]
fn encode_invalid_magic() {
    let mut hdr = sample_header();
    hdr.magic = 0xDEAD_BEEF;
    let mut buf = [0u8; HEADER_SIZE];
    let Err(err) = hdr.encode(&mut buf) else {
        panic!("encode should reject invalid magic");
    };
    assert_eq!(err.code().as_u16(), 0x0301);
}

#[test]
fn encode_invalid_version() {
    let mut hdr = sample_header();
    hdr.version = 0x9999;
    let mut buf = [0u8; HEADER_SIZE];
    let Err(err) = hdr.encode(&mut buf) else {
        panic!("encode should reject unsupported version");
    };
    assert_eq!(err.code().as_u16(), 0x0303);
}

#[test]
fn encode_writes_every_field_little_endian() {
    let hdr = MessageHeader {
        magic: MAGIC,
        version: VERSION,
        msg_type: 0xA1B2,
        msg_id: 0x0102_0304_0506_0708,
        correlation_id: 0x1112_1314_1516_1718,
        payload_len: 0x2122_2324,
        payload_format: 2,
        qos: 1,
        credit_grant: 0x3132,
        flags: 0x4142_4344,
        reserved: [0x51, 0x52, 0x53, 0x54],
    };
    let mut buf = [0xEEu8; 44];
    let Ok(()) = hdr.encode(&mut buf) else {
        panic!("encode should succeed for valid header");
    };
    let expected: [u8; 44] = [
        0x43, 0x49, 0x41, 0x4C, 0x01, 0x00, 0xB2, 0xA1, 0x08, 0x07, 0x06, 0x05, 0x04, 0x03, 0x02,
        0x01, 0x18, 0x17, 0x16, 0x15, 0x14, 0x13, 0x12, 0x11, 0x24, 0x23, 0x22, 0x21, 0x02, 0x01,
        0x32, 0x31, 0x44, 0x43, 0x42, 0x41, 0x51, 0x52, 0x53, 0x54, 0xEE, 0xEE, 0xEE, 0xEE,
    ];
    assert_eq!(buf, expected);
    let Ok(back) = MessageHeader::decode(&buf) else {
        panic!("decode should succeed on what encode wrote");
    };
    assert_eq!(back, hdr);
}

#[test]
fn failed_encode_leaves_buffer_untouched() {
    let mut hdr = sample_header();
    hdr.qos = 3;
    let mut buf = [0x5Au8; HEADER_SIZE];
    assert!(hdr.encode(&mut buf).is_err());
    assert!(buf.iter().all(|&b| b == 0x5A));
}

#[test]
fn decode_reports_first_fault_in_wire_order() {
    // Wrong magic and wrong QoS: magic is reported.
    let mut buf = [0u8; HEADER_SIZE];
    buf[29] = 9;
    let Err(err) = MessageHeader::decode(&buf) else {
        panic!("decode should fail");
    };
    assert_eq!(err.code().as_u16(), 0x0301);
    assert_eq!(
        err.to_string(),
        "protocol error: invalid magic: expected 0x4C414943, got 0x00000000"
    );
    // Too short wins over everything.
    let Err(err) = MessageHeader::decode(&buf[..39]) else {
        panic!("decode should fail");
    };
    assert_eq!(
        err.to_string(),
        "protocol error: buffer too short: 39 bytes, need 40"
    );
}
