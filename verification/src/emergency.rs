//! Emergency channel frames: raw LP7 bytes on a physically isolated
//! shared-memory channel, without LAIC header wrapping.
//!
//! A frame is a 4-byte length and a fixed payload buffer of
//! [`MAX_EMERGENCY_PAYLOAD_LEN`] bytes, of which `len` are valid. The
//! channel is best-effort and lossy: a full subscriber buffer silently
//! replaces its oldest unread message.
use vstd::prelude::*;
use vstd::slice::{slice_subrange, slice_to_vec};
use vstd::string::StringExecFns;

use crate::error::{LaicError, TransportError};
use crate::text::{dec_digits, push_decimal};
use crate::transport::framing_error;

verus! {

/// Maximum emergency payload length: LP7 header (120 B), heartbeat fields
/// (32 B) and an extension margin (16 B).
pub const MAX_EMERGENCY_PAYLOAD_LEN: usize = 168;

/// The shared-memory unit of the emergency channel.
#[derive(Clone, Copy)]
pub struct EmergencyFrame {
    /// Payload length (at most [`MAX_EMERGENCY_PAYLOAD_LEN`] when well formed).
    pub len: u32,
    /// Payload buffer; only the first `len` bytes are meaningful.
    pub data: [u8; 168],
}

/// The detail of the error for an outgoing payload over the maximum.
pub open spec fn emergency_oversize_text(len: nat) -> Seq<char> {
    "emergency payload length "@ + dec_digits(len) + " exceeds maximum 168"@
}

/// The detail of the error for a received frame claiming more than fits.
pub open spec fn emergency_capacity_text(len: nat) -> Seq<char> {
    "emergency frame len "@ + dec_digits(len) + " exceeds capacity 168"@
}

/// The frame that carries `payload`: its length, the payload bytes, then
/// zeros. Refused when the payload is over the maximum.
pub fn encode_emergency_frame(payload: &[u8]) -> (r: Result<EmergencyFrame, LaicError>)
    ensures
        r is Ok <==> payload@.len() <= MAX_EMERGENCY_PAYLOAD_LEN,
        r matches Ok(f) ==> {
            &&& f.len as int == payload@.len()
            &&& f.data@.subrange(0, payload@.len() as int) == payload@
            &&& forall|i: int| payload@.len() <= i < 168 ==> f.data@[i] == 0
        },
        r matches Err(e) ==> framing_error(e, emergency_oversize_text(payload@.len())),
{
    if payload.len() > MAX_EMERGENCY_PAYLOAD_LEN {
        let mut detail = String::from_str("emergency payload length ");
        push_decimal(&mut detail, payload.len() as u64);
        detail.append(" exceeds maximum 168");
        return Err(LaicError::Transport(TransportError::FramingError { detail }));
    }
    let mut data = [0u8; 168];
    let n = payload.len();
    let mut i: usize = 0;
    while i < n
        invariant
            0 <= i <= n,
            n == payload@.len(),
            n <= 168,
            data@.len() == 168,
            forall|j: int| 0 <= j < i ==> data@[j] == payload@[j],
            forall|j: int| i <= j < 168 ==> data@[j] == 0,
        decreases n - i,
    {
        data[i] = payload[i];
        i = i + 1;
    }
    assert(data@.subrange(0, n as int) =~= payload@);
    Ok(EmergencyFrame { len: n as u32, data })
}

/// The payload a received frame carries; a length over the buffer means a
/// corrupt slot or a peer of another version, and is refused.
pub fn decode_emergency_frame(frame: &EmergencyFrame) -> (r: Result<Vec<u8>, LaicError>)
    ensures
        r is Ok <==> frame.len <= 168,
        r matches Ok(p) ==> p@ == frame.data@.subrange(0, frame.len as int),
        r matches Err(e) ==> framing_error(e, emergency_capacity_text(frame.len as nat)),
{
    let len = frame.len;
    if len > 168 {
        let mut detail = String::from_str("emergency frame len ");
        push_decimal(&mut detail, len as u64);
        detail.append(" exceeds capacity 168");
        return Err(LaicError::Transport(TransportError::FramingError { detail }));
    }
    Ok(slice_to_vec(slice_subrange(frame.data.as_slice(), 0, len as usize)))
}

/// Emergency frames round-trip: decoding the frame built for a payload
/// within the maximum gives that payload back.
pub proof fn lemma_emergency_roundtrip(payload: Seq<u8>, f: EmergencyFrame)
    requires
        payload.len() <= MAX_EMERGENCY_PAYLOAD_LEN,
        f.len as int == payload.len(),
        f.data@.subrange(0, payload.len() as int) == payload,
    ensures
        f.len <= 168,
        f.data@.subrange(0, f.len as int) == payload,
{
}

} // verus!
