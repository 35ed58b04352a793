//! QUIC stream framing: `[40-byte header][payload_len bytes of payload]`.
//!
//! No extra length prefix: the header's `payload_len` is the single source
//! of truth for the payload size. Both directions enforce the same
//! [`MAX_PAYLOAD_LEN`], so a sender never emits a frame its own receiver
//! would reject.
use vstd::prelude::*;
use vstd::string::StringExecFns;

use crate::error::{LaicError, TransportError};
use crate::protocol::header::{lemma_header_roundtrip, spec_decode, spec_encode, MessageHeader};
use crate::protocol::message::Message;
use crate::text::{dec_digits, push_decimal};
use crate::transport::framing_error;

verus! {

/// Maximum payload length accepted by the framing layer (64 MiB), against
/// allocation attacks from malicious or buggy peers.
pub const MAX_PAYLOAD_LEN: u32 = 67108864;

/// The bytes of a whole frame for a message: header, then payload.
pub open spec fn spec_frame(m: Message) -> Seq<u8> {
    spec_encode(m.spec_header()) + m.spec_payload()
}

/// The detail of the error for a payload length over the maximum.
pub open spec fn oversize_text(len: u32) -> Seq<char> {
    "payload length "@ + dec_digits(len as nat) + " exceeds maximum "@ + dec_digits(
        MAX_PAYLOAD_LEN as nat,
    )
}

fn oversize_error(len: u32) -> (r: LaicError)
    ensures
        framing_error(r, oversize_text(len)),
{
    let mut detail = String::from_str("payload length ");
    push_decimal(&mut detail, len as u64);
    detail.append(" exceeds maximum ");
    push_decimal(&mut detail, MAX_PAYLOAD_LEN as u64);
    LaicError::Transport(TransportError::FramingError { detail })
}

/// The header bytes that open the frame of `msg`, to be followed by its
/// payload; refused when the payload is over [`MAX_PAYLOAD_LEN`].
pub fn frame_header(msg: &Message) -> (r: Result<[u8; 40], LaicError>)
    ensures
        r is Ok <==> msg.spec_header().payload_len <= MAX_PAYLOAD_LEN,
        r matches Ok(b) ==> b@ == spec_encode(msg.spec_header()),
        r matches Err(e) ==> framing_error(e, oversize_text(msg.spec_header().payload_len)),
{
    let header = msg.header();
    if header.payload_len > MAX_PAYLOAD_LEN {
        return Err(oversize_error(header.payload_len));
    }
    let mut buf = [0u8; 40];
    let res = header.encode(&mut buf);
    proof {
        assert(res is Ok);
        assert(buf@ =~= spec_encode(*header));
    }
    Ok(buf)
}

/// Read the header that opens a frame: decoded and validated, and with a
/// payload length no larger than [`MAX_PAYLOAD_LEN`]. The caller then reads
/// exactly `payload_len` bytes and rebuilds the message with
/// `Message::from_parts`.
pub fn read_frame_header(buf: &[u8; 40]) -> (r: Result<MessageHeader, LaicError>)
    ensures
        spec_decode(buf@) matches Err(e) ==> r == Err::<MessageHeader, LaicError>(e),
        spec_decode(buf@) matches Ok(h) ==> {
            &&& h.payload_len <= MAX_PAYLOAD_LEN ==> r == Ok::<MessageHeader, LaicError>(h)
            &&& h.payload_len > MAX_PAYLOAD_LEN ==> (r matches Err(e) && framing_error(
                e,
                oversize_text(h.payload_len),
            ))
        },
{
    let header = MessageHeader::decode(buf)?;
    if header.payload_len > MAX_PAYLOAD_LEN {
        return Err(oversize_error(header.payload_len));
    }
    Ok(header)
}

/// Frames round-trip: the reader of a stream that starts with the frame of
/// a valid header `h` and its payload `p` gets back `h`, then reads exactly
/// `p` as the payload, whatever follows on the stream. The writer's size
/// limit and the reader's are the same, so every frame the writer accepts
/// the reader accepts too.
pub proof fn lemma_frame_roundtrip(h: MessageHeader, p: Seq<u8>, rest: Seq<u8>)
    requires
        h.is_valid(),
        h.payload_len as int == p.len(),
        h.payload_len <= MAX_PAYLOAD_LEN,
    ensures
        spec_decode((spec_encode(h) + p + rest).subrange(0, 40)) == Ok::<MessageHeader, LaicError>(
            h,
        ),
        (spec_encode(h) + p + rest).subrange(40, 40 + h.payload_len) == p,
{
    let stream = spec_encode(h) + p + rest;
    lemma_header_roundtrip(h, Seq::empty());
    assert(stream.subrange(0, 40) =~= spec_encode(h) + Seq::<u8>::empty());
    assert(stream.subrange(40, 40 + h.payload_len) =~= p);
}

} // verus!
