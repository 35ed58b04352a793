//! Shared-memory frames of the IPC transport.
//!
//! Each slot holds a 40-byte encoded header and a fixed payload buffer of
//! [`MAX_IPC_PAYLOAD_LEN`] bytes, of which the header's `payload_len` bytes
//! are valid. Delivery is best-effort: a full subscriber buffer silently
//! replaces its oldest unread message.
use vstd::prelude::*;
use vstd::slice::{slice_subrange, slice_to_vec};
use vstd::string::StringExecFns;

use crate::error::{LaicError, TransportError};
use crate::protocol::header::{spec_decode, spec_encode, MessageHeader};
use crate::protocol::message::Message;
use crate::text::{dec_digits, push_decimal};
use crate::transport::framing_error;

verus! {

/// Maximum payload length for the IPC transport (64 KiB), fixed by the
/// shared-memory slot size.
pub const MAX_IPC_PAYLOAD_LEN: u32 = 65536;

/// The detail of the error for an outgoing payload over the slot size.
pub open spec fn ipc_oversize_text(len: nat) -> Seq<char> {
    "payload length "@ + dec_digits(len) + " exceeds IPC maximum 65536"@
}

/// The detail of the error for a received header claiming more payload
/// than a slot holds.
pub open spec fn ipc_capacity_text(len: nat) -> Seq<char> {
    "received payload_len "@ + dec_digits(len) + " exceeds IPC frame capacity 65536"@
}

/// The header bytes of the slot that carries `msg`; refused when the
/// payload does not fit a slot. The caller copies the payload after it.
pub fn ipc_frame_header(msg: &Message) -> (r: Result<[u8; 40], LaicError>)
    ensures
        r is Ok <==> msg.spec_payload().len() <= MAX_IPC_PAYLOAD_LEN,
        r matches Ok(b) ==> b@ == spec_encode(msg.spec_header()),
        r matches Err(e) ==> framing_error(e, ipc_oversize_text(msg.spec_payload().len())),
{
    let payload = msg.payload();
    if payload.len() > MAX_IPC_PAYLOAD_LEN as usize {
        let mut detail = String::from_str("payload length ");
        push_decimal(&mut detail, payload.len() as u64);
        detail.append(" exceeds IPC maximum 65536");
        return Err(LaicError::Transport(TransportError::FramingError { detail }));
    }
    let header = msg.header();
    let mut buf = [0u8; 40];
    let res = header.encode(&mut buf);
    proof {
        assert(res is Ok);
        assert(buf@ =~= spec_encode(*header));
    }
    Ok(buf)
}

/// Rebuild the message a received slot carries: its header decoded and
/// validated, its payload the first `payload_len` bytes of the slot buffer.
/// A `payload_len` over the slot size means a corrupt slot or a peer of
/// another version, and is refused rather than read past the buffer.
pub fn ipc_frame_message(header: &[u8], payload: &[u8]) -> (r: Result<Message, LaicError>)
    requires
        payload@.len() == MAX_IPC_PAYLOAD_LEN,
    ensures
        spec_decode(header@) matches Err(e) ==> r == Err::<Message, LaicError>(e),
        spec_decode(header@) matches Ok(h) ==> {
            &&& h.payload_len > MAX_IPC_PAYLOAD_LEN ==> (r matches Err(e) && framing_error(
                e,
                ipc_capacity_text(h.payload_len as nat),
            ))
            &&& h.payload_len <= MAX_IPC_PAYLOAD_LEN ==> (r matches Ok(m) && m.spec_header() == h
                && m.spec_payload() == payload@.subrange(0, h.payload_len as int))
        },
{
    let h = MessageHeader::decode(header)?;
    if h.payload_len > MAX_IPC_PAYLOAD_LEN {
        let mut detail = String::from_str("received payload_len ");
        push_decimal(&mut detail, h.payload_len as u64);
        detail.append(" exceeds IPC frame capacity 65536");
        return Err(LaicError::Transport(TransportError::FramingError { detail }));
    }
    let len = h.payload_len as usize;
    let body = slice_to_vec(slice_subrange(payload, 0, len));
    Message::from_parts(h, body)
}

/// Slots round-trip: a message whose payload fits a slot comes back
/// unchanged from the header bytes and the zero-padded payload buffer the
/// sender writes.
pub proof fn lemma_ipc_slot_roundtrip(h: MessageHeader, p: Seq<u8>, padding: Seq<u8>)
    requires
        h.is_valid(),
        h.payload_len as int == p.len(),
        p.len() + padding.len() == MAX_IPC_PAYLOAD_LEN,
    ensures
        spec_decode(spec_encode(h)) == Ok::<MessageHeader, LaicError>(h),
        h.payload_len <= MAX_IPC_PAYLOAD_LEN,
        (p + padding).subrange(0, h.payload_len as int) == p,
{
    crate::protocol::header::lemma_header_roundtrip(h, Seq::empty());
    assert(spec_encode(h) + Seq::<u8>::empty() =~= spec_encode(h));
    assert((p + padding).subrange(0, h.payload_len as int) =~= p);
}

/// Pause between two empty polls of the receive loop, in microseconds.
pub const POLL_INTERVAL_US: u64 = 100;

/// Whether `c` is an ASCII decimal digit.
pub open spec fn is_digit(c: char) -> bool {
    '0' <= c <= '9'
}

/// The value of a string of decimal digits.
pub open spec fn decimal_value(s: Seq<char>) -> nat
    decreases s.len(),
{
    if s.len() == 0 {
        0
    } else {
        decimal_value(s.drop_last()) * 10 + ((s.last() as u32) - ('0' as u32)) as nat
    }
}

/// The digits of an unsigned integer literal: what follows an optional `+`.
pub open spec fn unsigned_digits(s: Seq<char>) -> Seq<char> {
    if s.len() > 0 && s[0] == '+' {
        s.drop_first()
    } else {
        s
    }
}

/// The `u64` that `s` spells in decimal, as `str::parse` reads it: an
/// optional `+`, then one or more digits and nothing else, of a value that
/// fits in 64 bits.
pub open spec fn parsed_u64(s: Seq<char>) -> Option<u64> {
    let d = unsigned_digits(s);
    if d.len() > 0 && (forall|i: int| 0 <= i < d.len() ==> is_digit(#[trigger] d[i]))
        && decimal_value(d) <= u64::MAX {
        Some(decimal_value(d) as u64)
    } else {
        None
    }
}

/// Parses `s` as a decimal `u64` with `str::parse::<u64>`, keeping only
/// whether it succeeded. Trusted: what std documents for `u64::from_str`
/// (`from_str_radix` with radix 10), that it accepts exactly an optional `+`
/// followed by digits only, whose value fits, and returns that value.
#[verifier::external_body]
fn parse_u64(s: &str) -> (r: Option<u64>)
    ensures
        r == parsed_u64(s@),
{
    s.parse::<u64>().ok()
}

/// The active-poll budget, in milliseconds, that the raw setting asks for:
/// a positive decimal number of milliseconds; an absent, unreadable or zero
/// setting asks for none, and the receive loop then only sleeps.
pub fn active_poll_budget_ms(raw: Option<&str>) -> (r: Option<u64>)
    ensures
        r == (match raw {
            Some(s) => match parsed_u64(s@) {
                Some(v) => if v > 0 {
                    Some(v)
                } else {
                    None
                },
                None => None,
            },
            None => None,
        }),
{
    match raw {
        Some(s) => match parse_u64(s) {
            Some(v) => if v > 0 {
                Some(v)
            } else {
                None
            },
            None => None,
        },
        None => None,
    }
}

/// What the receive loop does after a poll that found no slot.
#[derive(Clone, Copy, Debug, PartialEq, Eq, Structural)]
pub enum IdleAction {
    /// Yield the thread and poll again at once.
    Yield,
    /// Sleep [`POLL_INTERVAL_US`] microseconds before polling again.
    Sleep,
}

/// After an empty poll: keep polling actively while the active-poll
/// deadline has not passed, else back off by sleeping.
pub fn idle_action(before_deadline: bool) -> (r: IdleAction)
    ensures
        r == (if before_deadline {
            IdleAction::Yield
        } else {
            IdleAction::Sleep
        }),
{
    if before_deadline {
        IdleAction::Yield
    } else {
        IdleAction::Sleep
    }
}

} // verus!
