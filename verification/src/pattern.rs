//! Communication patterns: Skill RPC, Stream and Topic Pub/Sub.
//!
//! Pattern functions only build and classify [`Message`]s; they perform no
//! transport, routing or retry logic.
//!
//! `MsgType` numbering: `0x00xx` core protocol types, `0x001x` Skill RPC,
//! `0x002x` Stream, `0x003x` Topic Pub/Sub.
use vstd::prelude::*;

use crate::error::{LaicError, ProtocolError};
use crate::protocol::constants::{MsgType, PayloadFormat, Qos, FLAG_END_OF_STREAM};
use crate::protocol::header::MessageHeader;
use crate::protocol::message::{fresh_header, Message};

verus! {

/// Raw type of a Skill RPC request.
pub const SKILL_REQUEST_TYPE: u16 = 0x0010;

/// Raw type of a Skill RPC response.
pub const SKILL_RESPONSE_TYPE: u16 = 0x0011;

/// Raw type of a Stream data chunk.
pub const STREAM_DATA_TYPE: u16 = 0x0020;

/// Raw type of a Topic publish message.
pub const TOPIC_PUBLISH_TYPE: u16 = 0x0030;

/// Skill RPC request message type.
pub fn skill_request_type() -> (r: MsgType)
    ensures
        r@ == SKILL_REQUEST_TYPE,
{
    MsgType::new(SKILL_REQUEST_TYPE)
}

/// Skill RPC response message type.
pub fn skill_response_type() -> (r: MsgType)
    ensures
        r@ == SKILL_RESPONSE_TYPE,
{
    MsgType::new(SKILL_RESPONSE_TYPE)
}

/// Stream data chunk message type.
pub fn stream_data_type() -> (r: MsgType)
    ensures
        r@ == STREAM_DATA_TYPE,
{
    MsgType::new(STREAM_DATA_TYPE)
}

/// Topic publish message type.
pub fn topic_publish_type() -> (r: MsgType)
    ensures
        r@ == TOPIC_PUBLISH_TYPE,
{
    MsgType::new(TOPIC_PUBLISH_TYPE)
}

/// Whether `m` is a Skill RPC request.
pub open spec fn spec_is_skill_request(m: Message) -> bool {
    m.spec_header().msg_type == SKILL_REQUEST_TYPE
}

/// Whether `m` is a Skill RPC response.
pub open spec fn spec_is_skill_response(m: Message) -> bool {
    m.spec_header().msg_type == SKILL_RESPONSE_TYPE
}

/// Whether `m` is a Stream data chunk.
pub open spec fn spec_is_stream_data(m: Message) -> bool {
    m.spec_header().msg_type == STREAM_DATA_TYPE
}

/// Whether `m` is a Topic publish message.
pub open spec fn spec_is_topic_publish(m: Message) -> bool {
    m.spec_header().msg_type == TOPIC_PUBLISH_TYPE
}

/// Create a Skill RPC request; its correlation id stays 0.
pub fn skill_request(msg_id: u64, format: PayloadFormat, qos: Qos, payload: Vec<u8>) -> (r:
    Message)
    requires
        payload@.len() <= u32::MAX,
    ensures
        r.spec_header() == fresh_header(
            SKILL_REQUEST_TYPE,
            msg_id,
            format.spec_as_u8(),
            qos.spec_as_u8(),
            payload@.len(),
        ),
        r.spec_payload() == payload@,
{
    Message::new(skill_request_type(), msg_id, format, qos, payload)
}

/// Create a Skill RPC response correlated to `request`: its correlation id
/// is the request's message id.
///
/// Fails with `UnexpectedMessageType` when `request` is not a Skill RPC
/// request: a response must always answer a concrete request.
pub fn skill_response(
    request: &Message,
    response_id: u64,
    format: PayloadFormat,
    qos: Qos,
    payload: Vec<u8>,
) -> (r: Result<Message, LaicError>)
    requires
        spec_is_skill_request(*request) ==> payload@.len() <= u32::MAX,
    ensures
        !spec_is_skill_request(*request) ==> r == Err::<Message, LaicError>(
            LaicError::Protocol(
                ProtocolError::UnexpectedMessageType {
                    expected: SKILL_REQUEST_TYPE,
                    actual: request.spec_header().msg_type,
                },
            ),
        ),
        r is Ok <==> spec_is_skill_request(*request),
        r matches Ok(m) ==> m.spec_header() == (MessageHeader {
            correlation_id: request.spec_header().msg_id,
            ..fresh_header(
                SKILL_RESPONSE_TYPE,
                response_id,
                format.spec_as_u8(),
                qos.spec_as_u8(),
                payload@.len(),
            )
        }) && m.spec_payload() == payload@,
{
    if !is_skill_request(request) {
        return Err(
            LaicError::Protocol(
                ProtocolError::UnexpectedMessageType {
                    expected: SKILL_REQUEST_TYPE,
                    actual: request.msg_type().as_u16(),
                },
            ),
        );
    }
    let mut msg = Message::new(skill_response_type(), response_id, format, qos, payload);
    msg.set_correlation_id(request.header().msg_id);
    Ok(msg)
}

/// Create a Stream data chunk; `is_last` sets the end-of-stream flag.
pub fn stream_chunk(
    msg_id: u64,
    format: PayloadFormat,
    qos: Qos,
    payload: Vec<u8>,
    is_last: bool,
) -> (r: Message)
    requires
        payload@.len() <= u32::MAX,
    ensures
        r.spec_header() == (MessageHeader {
            flags: if is_last {
                FLAG_END_OF_STREAM
            } else {
                0
            },
            ..fresh_header(
                STREAM_DATA_TYPE,
                msg_id,
                format.spec_as_u8(),
                qos.spec_as_u8(),
                payload@.len(),
            )
        }),
        r.spec_payload() == payload@,
{
    let mut msg = Message::new(stream_data_type(), msg_id, format, qos, payload);
    if is_last {
        msg.set_end_of_stream();
        assert(0u32 | 0x08u32 == 0x08u32) by (bit_vector);
    }
    msg
}

/// Create a Topic publish message; routing is the caller's business.
pub fn topic_publish(msg_id: u64, format: PayloadFormat, qos: Qos, payload: Vec<u8>) -> (r:
    Message)
    requires
        payload@.len() <= u32::MAX,
    ensures
        r.spec_header() == fresh_header(
            TOPIC_PUBLISH_TYPE,
            msg_id,
            format.spec_as_u8(),
            qos.spec_as_u8(),
            payload@.len(),
        ),
        r.spec_payload() == payload@,
{
    Message::new(topic_publish_type(), msg_id, format, qos, payload)
}

/// Whether `msg` is a Skill RPC request.
pub fn is_skill_request(msg: &Message) -> (r: bool)
    ensures
        r == spec_is_skill_request(*msg),
{
    msg.msg_type().as_u16() == SKILL_REQUEST_TYPE
}

/// Whether `msg` is a Skill RPC response.
pub fn is_skill_response(msg: &Message) -> (r: bool)
    ensures
        r == spec_is_skill_response(*msg),
{
    msg.msg_type().as_u16() == SKILL_RESPONSE_TYPE
}

/// Whether `msg` is a Stream data chunk.
pub fn is_stream_data(msg: &Message) -> (r: bool)
    ensures
        r == spec_is_stream_data(*msg),
{
    msg.msg_type().as_u16() == STREAM_DATA_TYPE
}

/// Whether `msg` is a Topic publish message.
pub fn is_topic_publish(msg: &Message) -> (r: bool)
    ensures
        r == spec_is_topic_publish(*msg),
{
    msg.msg_type().as_u16() == TOPIC_PUBLISH_TYPE
}

/// The matchers are exclusive: no message is of two patterns at once, and
/// no pattern type collides with a core type (`0x0001..=0x0004`).
pub proof fn lemma_matchers_exclusive(m: Message)
    ensures
        !(spec_is_skill_request(m) && spec_is_skill_response(m)),
        !(spec_is_skill_request(m) && spec_is_stream_data(m)),
        !(spec_is_skill_request(m) && spec_is_topic_publish(m)),
        !(spec_is_skill_response(m) && spec_is_stream_data(m)),
        !(spec_is_skill_response(m) && spec_is_topic_publish(m)),
        !(spec_is_stream_data(m) && spec_is_topic_publish(m)),
        (spec_is_skill_request(m) || spec_is_skill_response(m) || spec_is_stream_data(m)
            || spec_is_topic_publish(m)) ==> m.spec_header().msg_type >= 0x0010,
{
}

} // verus!
