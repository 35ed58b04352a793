//! Frames of the QUIC, IPC and emergency transports, and the connection
//! lifecycle.

use laic::emergency::{decode_emergency_frame, encode_emergency_frame, MAX_EMERGENCY_PAYLOAD_LEN};
use laic::protocol::constants::{HEADER_SIZE, MAGIC, VERSION};
use laic::transport::framing::{frame_header, read_frame_header, MAX_PAYLOAD_LEN};
use laic::transport::ipc::{
    active_poll_budget_ms, idle_action, ipc_frame_header, ipc_frame_message, IdleAction, MAX_IPC_PAYLOAD_LEN,
    POLL_INTERVAL_US,
};
use laic::transport::ChannelState;
use laic::{Message, MessageHeader, MsgType, PayloadFormat, Qos};

fn sample_message(payload: Vec<u8>) -> Message {
    Message::new(
        MsgType::data(),
        42,
        PayloadFormat::Arrow,
        Qos::Normal,
        payload,
    )
}

/// Write a frame to a byte stream the way a sender does.
fn write_frame(stream: &mut Vec<u8>, msg: &Message) -> Result<(), laic::LaicError> {
    let header = frame_header(msg)?;
    stream.extend_from_slice(&header);
    stream.extend_from_slice(msg.payload());
    Ok(())
}

/// Read a frame from a byte stream the way a receiver does.
fn read_frame(stream: &[u8], pos: &mut usize) -> Result<Message, laic::LaicError> {
    let mut header_buf = [0u8; HEADER_SIZE];
    header_buf.copy_from_slice(&stream[*pos..*pos + HEADER_SIZE]);
    let header = read_frame_header(&header_buf)?;
    let start = *pos + HEADER_SIZE;
    let end = start + header.payload_len as usize;
    *pos = end;
    Message::from_parts(header, stream[start..end].to_vec())
}

#[test]
fn write_read_roundtrip() {
    let msg = sample_message(vec![1, 2, 3, 4, 5]);
    let mut stream = Vec::new();
    let Ok(()) = write_frame(&mut stream, &msg) else {
        panic!("write_frame should succeed");
    };
    let mut pos = 0;
    let Ok(received) = read_frame(&stream, &mut pos) else {
        panic!("read_frame should succeed for valid frame");
    };
    assert_eq!(received.header(), msg.header());
    assert_eq!(received.payload(), msg.payload());
}

#[test]
fn roundtrip_empty_payload() {
    let msg = sample_message(vec![]);
    let mut stream = Vec::new();
    let Ok(()) = write_frame(&mut stream, &msg) else {
        panic!("write_frame should succeed");
    };
    let mut pos = 0;
    let Ok(received) = read_frame(&stream, &mut pos) else {
        panic!("read_frame should succeed for empty payload");
    };
    assert_eq!(received.payload().len(), 0);
}

#[test]
fn read_payload_exceeds_max() {
    let header = MessageHeader {
        magic: MAGIC,
        version: VERSION,
        msg_type: MsgType::data().as_u16(),
        msg_id: 1,
        correlation_id: 0,
        payload_len: MAX_PAYLOAD_LEN + 1,
        payload_format: PayloadFormat::Arrow.as_u8(),
        qos: Qos::Normal.as_u8(),
        credit_grant: 0,
        flags: 0,
        reserved: [0; 4],
    };
    let mut header_buf = [0u8; HEADER_SIZE];
    let Ok(()) = header.encode(&mut header_buf) else {
        panic!("encode should succeed");
    };

    let Err(err) = read_frame_header(&header_buf) else {
        panic!("read_frame should reject oversized payload");
    };
    assert_eq!(err.code().as_u16(), 0x0109); // FramingError
}

#[test]
fn read_invalid_magic() {
    let header_buf = [0u8; HEADER_SIZE]; // magic = 0 → invalid

    let Err(err) = read_frame_header(&header_buf) else {
        panic!("read_frame should reject invalid magic");
    };
    // ProtocolError::InvalidMagic
    assert_eq!(err.code().as_u16(), 0x0301);
}

#[test]
fn multiple_frames_sequential() {
    let msg1 = sample_message(vec![0xAA; 10]);
    let msg2 = sample_message(vec![0xBB; 20]);
    let mut stream = Vec::new();

    let Ok(()) = write_frame(&mut stream, &msg1) else {
        panic!("write_frame msg1 should succeed");
    };
    let Ok(()) = write_frame(&mut stream, &msg2) else {
        panic!("write_frame msg2 should succeed");
    };

    let mut pos = 0;
    let Ok(r1) = read_frame(&stream, &mut pos) else {
        panic!("read_frame msg1 should succeed");
    };
    let Ok(r2) = read_frame(&stream, &mut pos) else {
        panic!("read_frame msg2 should succeed");
    };
    assert_eq!(r1.payload(), &[0xAA; 10]);
    assert_eq!(r2.payload(), &[0xBB; 20]);
    assert_eq!(pos, stream.len());
}

#[test]
fn write_frame_rejects_oversized_payload() {
    // Allocate MAX_PAYLOAD_LEN + 1 bytes (~64 MiB + 1).
    let oversized = vec![0u8; MAX_PAYLOAD_LEN as usize + 1];
    let msg = sample_message(oversized);

    let Err(err) = frame_header(&msg) else {
        panic!("write_frame should reject oversized payload");
    };
    assert_eq!(err.code().as_u16(), 0x0109); // FramingError
    assert_eq!(
        err.to_string(),
        "transport error: framing error: payload length 67108865 exceeds maximum 67108864"
    );
}

#[test]
fn frame_header_is_the_encoded_header() {
    let msg = sample_message(vec![3; 7]);
    let Ok(bytes) = frame_header(&msg) else {
        panic!("frame header");
    };
    let mut expected = [0u8; HEADER_SIZE];
    assert!(msg.header().encode(&mut expected).is_ok());
    assert_eq!(bytes, expected);
    assert_eq!(bytes[24], 7);
}

// ---------------------------------------------------------------------------
// IPC slots
// ---------------------------------------------------------------------------

#[test]
fn receive_rejects_oversized_payload_len_in_header() {
    let mut header = [0u8; HEADER_SIZE];
    header[0..4].copy_from_slice(&MAGIC.to_le_bytes());
    header[4..6].copy_from_slice(&VERSION.to_le_bytes());
    header[6..8].copy_from_slice(&1u16.to_le_bytes()); // msg_type = DATA
    let bad_len: u32 = MAX_IPC_PAYLOAD_LEN + 1;
    header[24..28].copy_from_slice(&bad_len.to_le_bytes());
    header[28] = 1; // payload_format = Protobuf
    header[29] = 0; // qos = Normal
    let payload = vec![0u8; MAX_IPC_PAYLOAD_LEN as usize];

    let Err(err) = ipc_frame_message(&header, &payload) else {
        panic!("should reject oversized payload_len");
    };
    assert_eq!(err.code().as_u16(), 0x0109); // FramingError
}

#[test]
fn ipc_slot_roundtrip() {
    let msg = sample_message(vec![5, 6, 7]);
    let Ok(header) = ipc_frame_header(&msg) else {
        panic!("frame header");
    };
    let mut slot = vec![0u8; MAX_IPC_PAYLOAD_LEN as usize];
    slot[..3].copy_from_slice(msg.payload());
    let Ok(back) = ipc_frame_message(&header, &slot) else {
        panic!("slot must decode");
    };
    assert_eq!(back, msg);
}

#[test]
fn payload_exceeds_ipc_max() {
    let oversized = vec![0u8; MAX_IPC_PAYLOAD_LEN as usize + 1];
    let msg = sample_message(oversized);
    let Err(err) = ipc_frame_header(&msg) else {
        panic!("should reject oversized");
    };
    // FramingError = 0x0109
    assert_eq!(err.code().as_u16(), 0x0109);
}

#[test]
fn closed_channel_refuses_operations() {
    let mut state = ChannelState::new();
    assert!(!state.is_closed());
    assert!(state.check_open().is_ok());
    state.close();
    assert!(state.is_closed());
    let Err(err) = state.check_open() else {
        panic!("closed channel must refuse");
    };
    // ShuttingDown = 0x0108
    assert_eq!(err.code().as_u16(), 0x0108);
    state.close();
    assert!(state.check_open().is_err());
}

// ---------------------------------------------------------------------------
// Emergency frames
// ---------------------------------------------------------------------------

#[test]
fn emergency_tests_roundtrip() {
    let payload = b"LP7-EMERGENCY-ALERT";
    let Ok(frame) = encode_emergency_frame(payload) else {
        panic!("encode");
    };
    let Ok(received) = decode_emergency_frame(&frame) else {
        panic!("decode");
    };
    assert_eq!(received, payload);
}

#[test]
fn max_payload() {
    let payload = vec![0xAB; MAX_EMERGENCY_PAYLOAD_LEN];
    let Ok(frame) = encode_emergency_frame(&payload) else {
        panic!("encode");
    };
    let Ok(received) = decode_emergency_frame(&frame) else {
        panic!("decode");
    };
    assert_eq!(received.len(), MAX_EMERGENCY_PAYLOAD_LEN);
    assert_eq!(received, payload);
}

#[test]
fn emergency_tests_empty_payload() {
    let Ok(frame) = encode_emergency_frame(b"") else {
        panic!("encode");
    };
    let Ok(received) = decode_emergency_frame(&frame) else {
        panic!("decode");
    };
    assert!(received.is_empty());
}

#[test]
fn oversized_payload_rejected() {
    let oversized = vec![0xFF; MAX_EMERGENCY_PAYLOAD_LEN + 1];
    let Err(err) = encode_emergency_frame(&oversized) else {
        panic!("oversized payload must be rejected");
    };
    assert_eq!(err.code().as_u16(), 0x0109);
}

#[test]
fn emergency_frame_layout_and_corrupt_length() {
    let Ok(mut frame) = encode_emergency_frame(&[1, 2, 3]) else {
        panic!("encode");
    };
    assert_eq!(frame.len, 3);
    assert_eq!(&frame.data[..3], &[1, 2, 3]);
    assert!(frame.data[3..].iter().all(|&b| b == 0));
    frame.len = 169;
    let Err(err) = decode_emergency_frame(&frame) else {
        panic!("corrupt length must be rejected");
    };
    assert_eq!(
        err.to_string(),
        "transport error: framing error: emergency frame len 169 exceeds capacity 168"
    );
}

#[test]
fn active_poll_budget_reads_positive_milliseconds() {
    assert_eq!(active_poll_budget_ms(Some("25")), Some(25));
    assert_eq!(active_poll_budget_ms(Some("+7")), Some(7));
    assert_eq!(active_poll_budget_ms(Some("18446744073709551615")), Some(u64::MAX));
}

#[test]
fn active_poll_budget_ignores_unusable_settings() {
    assert_eq!(active_poll_budget_ms(None), None);
    assert_eq!(active_poll_budget_ms(Some("0")), None);
    assert_eq!(active_poll_budget_ms(Some("")), None);
    assert_eq!(active_poll_budget_ms(Some("+")), None);
    assert_eq!(active_poll_budget_ms(Some("-1")), None);
    assert_eq!(active_poll_budget_ms(Some(" 5")), None);
    assert_eq!(active_poll_budget_ms(Some("5ms")), None);
    assert_eq!(active_poll_budget_ms(Some("18446744073709551616")), None);
}

#[test]
fn idle_poll_yields_before_deadline_then_sleeps() {
    assert_eq!(idle_action(true), IdleAction::Yield);
    assert_eq!(idle_action(false), IdleAction::Sleep);
    assert_eq!(POLL_INTERVAL_US, 100);
}
