//! Communication patterns: Skill RPC, Stream and Topic.

use laic::pattern::{
    is_skill_request, is_skill_response, is_stream_data, is_topic_publish, skill_request,
    skill_request_type, skill_response, skill_response_type, stream_chunk, stream_data_type,
    topic_publish, topic_publish_type,
};
use laic::{PayloadFormat, Qos};

#[test]
fn msg_type_constants_no_overlap_with_core() {
    // Core types are 0x0001..=0x0004, pattern types start at 0x0010.
    assert!(skill_request_type().as_u16() >= 0x0010);
    assert!(skill_response_type().as_u16() >= 0x0010);
    assert!(stream_data_type().as_u16() >= 0x0020);
    assert!(topic_publish_type().as_u16() >= 0x0030);
}

#[test]
fn skill_request_msg_type() {
    let msg = skill_request(1, PayloadFormat::Protobuf, Qos::Normal, vec![1, 2, 3]);
    assert_eq!(msg.msg_type(), skill_request_type());
    assert_eq!(msg.header().msg_id, 1);
    assert_eq!(msg.header().correlation_id, 0);
}

#[test]
fn skill_response_correlation() {
    let req = skill_request(42, PayloadFormat::Protobuf, Qos::Normal, vec![1]);
    let Ok(resp) = skill_response(&req, 100, PayloadFormat::Protobuf, Qos::Normal, vec![2])
    else {
        panic!("skill_response should succeed for a valid SKILL_REQUEST");
    };
    assert_eq!(resp.msg_type(), skill_response_type());
    assert_eq!(resp.header().msg_id, 100);
    assert_eq!(resp.header().correlation_id, 42);
}

#[test]
fn stream_chunk_without_end() {
    let msg = stream_chunk(1, PayloadFormat::Arrow, Qos::Normal, vec![0; 10], false);
    assert_eq!(msg.msg_type(), stream_data_type());
    assert!(!msg.is_end_of_stream());
}

#[test]
fn stream_chunk_with_end() {
    let msg = stream_chunk(2, PayloadFormat::Arrow, Qos::Normal, vec![0; 5], true);
    assert_eq!(msg.msg_type(), stream_data_type());
    assert!(msg.is_end_of_stream());
}

#[test]
fn topic_publish_msg_type() {
    let msg = topic_publish(1, PayloadFormat::Raw, Qos::High, vec![0xAB]);
    assert_eq!(msg.msg_type(), topic_publish_type());
}

#[test]
fn matchers_are_exclusive() {
    let req = skill_request(1, PayloadFormat::Protobuf, Qos::Normal, vec![]);
    let Ok(resp) = skill_response(&req, 2, PayloadFormat::Protobuf, Qos::Normal, vec![]) else {
        panic!("skill_response should succeed for a valid SKILL_REQUEST");
    };
    let chunk = stream_chunk(3, PayloadFormat::Arrow, Qos::Normal, vec![], false);
    let topic = topic_publish(4, PayloadFormat::Raw, Qos::Normal, vec![]);

    // Each matcher only matches its own type.
    assert!(is_skill_request(&req));
    assert!(!is_skill_response(&req));
    assert!(!is_stream_data(&req));
    assert!(!is_topic_publish(&req));

    assert!(!is_skill_request(&resp));
    assert!(is_skill_response(&resp));

    assert!(!is_skill_request(&chunk));
    assert!(is_stream_data(&chunk));

    assert!(!is_skill_request(&topic));
    assert!(is_topic_publish(&topic));
}

#[test]
fn skill_response_carries_request_payload_format() {
    let req = skill_request(1, PayloadFormat::Protobuf, Qos::Normal, vec![1]);
    // Response can use a different format — no coupling enforced.
    let Ok(resp) = skill_response(&req, 2, PayloadFormat::Raw, Qos::High, vec![2]) else {
        panic!("skill_response should succeed for a valid SKILL_REQUEST");
    };
    assert_eq!(resp.header().payload_format, PayloadFormat::Raw.as_u8());
    assert_eq!(resp.header().qos, Qos::High.as_u8());
}

#[test]
fn skill_response_rejects_non_request() {
    // Passing a TOPIC_PUBLISH as "request" must fail.
    let topic = topic_publish(1, PayloadFormat::Raw, Qos::Normal, vec![]);
    let Err(err) = skill_response(&topic, 2, PayloadFormat::Raw, Qos::Normal, vec![]) else {
        panic!("skill_response should reject non-SKILL_REQUEST");
    };
    // UnexpectedMessageType = 0x0307
    assert_eq!(err.code().as_u16(), 0x0307);
    assert_eq!(
        err.to_string(),
        "protocol error: unexpected message type: expected 0x0010, got 0x0030"
    );
}

#[test]
fn skill_roundtrip_correlation() {
    let req = skill_request(42, PayloadFormat::Protobuf, Qos::Normal, vec![1, 2, 3]);
    assert!(is_skill_request(&req));
    assert_eq!(req.header().correlation_id, 0);

    let resp = skill_response(&req, 100, PayloadFormat::Protobuf, Qos::Normal, vec![4, 5])
        .expect("valid skill request");
    assert!(is_skill_response(&resp));
    assert_eq!(resp.header().correlation_id, 42);
    assert_eq!(resp.header().msg_id, 100);
}

#[test]
fn stream_sequence_end_of_stream() {
    let chunks: Vec<_> = (0..5)
        .map(|i| {
            let is_last = i == 4;
            stream_chunk(
                i,
                PayloadFormat::Arrow,
                Qos::Normal,
                vec![i as u8; 10],
                is_last,
            )
        })
        .collect();

    for (i, chunk) in chunks.iter().enumerate() {
        assert!(is_stream_data(chunk));
        if i < 4 {
            assert!(
                !chunk.is_end_of_stream(),
                "chunk {i} should not be end-of-stream"
            );
        } else {
            assert!(
                chunk.is_end_of_stream(),
                "chunk {i} should be end-of-stream"
            );
        }
    }
}

#[test]
fn topic_message() {
    let msg = topic_publish(1, PayloadFormat::Raw, Qos::High, vec![0xAB, 0xCD]);
    assert!(is_topic_publish(&msg));
    assert_eq!(msg.msg_type(), topic_publish_type());
    assert_eq!(msg.payload(), &[0xAB, 0xCD]);
}

#[test]
fn mixed_pattern_types_no_cross_match() {
    let req = skill_request(1, PayloadFormat::Protobuf, Qos::Normal, vec![]);
    let resp = skill_response(&req, 2, PayloadFormat::Protobuf, Qos::Normal, vec![])
        .expect("valid skill request");
    let chunk = stream_chunk(3, PayloadFormat::Arrow, Qos::Normal, vec![], false);
    let topic = topic_publish(4, PayloadFormat::Raw, Qos::Normal, vec![]);

    let messages = [&req, &resp, &chunk, &topic];
    let expected_types = [
        skill_request_type(),
        skill_response_type(),
        stream_data_type(),
        topic_publish_type(),
    ];

    for (i, msg) in messages.iter().enumerate() {
        assert_eq!(
            msg.msg_type(),
            expected_types[i],
            "message {i} has wrong type"
        );
        // Each matcher only matches its own type.
        assert_eq!(is_skill_request(msg), i == 0);
        assert_eq!(is_skill_response(msg), i == 1);
        assert_eq!(is_stream_data(msg), i == 2);
        assert_eq!(is_topic_publish(msg), i == 3);
    }
}

#[test]
fn pattern_type_values() {
    assert_eq!(skill_request_type().as_u16(), 0x0010);
    assert_eq!(skill_response_type().as_u16(), 0x0011);
    assert_eq!(stream_data_type().as_u16(), 0x0020);
    assert_eq!(topic_publish_type().as_u16(), 0x0030);
    let chunk = stream_chunk(9, PayloadFormat::Raw, Qos::High, vec![7], true);
    assert_eq!(chunk.header().correlation_id, 0);
    assert_eq!(chunk.header().payload_len, 1);
    assert_eq!(chunk.header().flags, 0x08);
}
