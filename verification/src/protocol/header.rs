//! LAIC message header: fixed 40-byte little-endian wire layout.
//!
//! | Offset | Field            | Type      |
//! |--------|------------------|-----------|
//! |  0     | `magic`          | `u32`     |
//! |  4     | `version`        | `u16`     |
//! |  6     | `msg_type`       | `u16`     |
//! |  8     | `msg_id`         | `u64`     |
//! | 16     | `correlation_id` | `u64`     |
//! | 24     | `payload_len`    | `u32`     |
//! | 28     | `payload_format` | `u8`      |
//! | 29     | `qos`            | `u8`      |
//! | 30     | `credit_grant`   | `u16`     |
//! | 32     | `flags`          | `u32`     |
//! | 36     | `reserved`       | `[u8; 4]` |
use vstd::prelude::*;

use crate::error::{LaicError, ProtocolError};
use crate::protocol::constants::{HEADER_SIZE, MAGIC, VERSION};

verus! {

// ---------------------------------------------------------------------------
// Little-endian integers as bytes
// ---------------------------------------------------------------------------

/// Little-endian bytes of a `u16`.
pub open spec fn le16(v: u16) -> Seq<u8> {
    seq![v as u8, (v >> 8u16) as u8]
}

/// Little-endian bytes of a `u32`.
pub open spec fn le32(v: u32) -> Seq<u8> {
    seq![v as u8, (v >> 8u32) as u8, (v >> 16u32) as u8, (v >> 24u32) as u8]
}

/// Little-endian bytes of a `u64`.
pub open spec fn le64(v: u64) -> Seq<u8> {
    seq![
        v as u8,
        (v >> 8u64) as u8,
        (v >> 16u64) as u8,
        (v >> 24u64) as u8,
        (v >> 32u64) as u8,
        (v >> 40u64) as u8,
        (v >> 48u64) as u8,
        (v >> 56u64) as u8,
    ]
}

/// The `u16` whose little-endian bytes start at `b[i]`.
pub open spec fn u16_at(b: Seq<u8>, i: int) -> u16 {
    (b[i] as u16) | ((b[i + 1] as u16) << 8u16)
}

/// The `u32` whose little-endian bytes start at `b[i]`.
pub open spec fn u32_at(b: Seq<u8>, i: int) -> u32 {
    (b[i] as u32) | ((b[i + 1] as u32) << 8u32) | ((b[i + 2] as u32) << 16u32) | ((b[i
        + 3] as u32) << 24u32)
}

/// The `u64` whose little-endian bytes start at `b[i]`.
pub open spec fn u64_at(b: Seq<u8>, i: int) -> u64 {
    (b[i] as u64) | ((b[i + 1] as u64) << 8u64) | ((b[i + 2] as u64) << 16u64) | ((b[i
        + 3] as u64) << 24u64) | ((b[i + 4] as u64) << 32u64) | ((b[i + 5] as u64) << 40u64)
        | ((b[i + 6] as u64) << 48u64) | ((b[i + 7] as u64) << 56u64)
}

proof fn lemma_u16_bytes(v: u16, b0: u8, b1: u8)
    ensures
        ((v as u8) as u16) | ((((v >> 8u16) as u8) as u16) << 8u16) == v,
        ((((b0 as u16) | ((b1 as u16) << 8u16)) as u8) == b0),
        (((((b0 as u16) | ((b1 as u16) << 8u16)) >> 8u16) as u8) == b1),
{
    assert(((v as u8) as u16) | ((((v >> 8u16) as u8) as u16) << 8u16) == v) by (bit_vector);
    assert(((((b0 as u16) | ((b1 as u16) << 8u16)) as u8) == b0)) by (bit_vector);
    assert((((((b0 as u16) | ((b1 as u16) << 8u16)) >> 8u16) as u8) == b1)) by (bit_vector);
}

proof fn lemma_u32_bytes(v: u32, b0: u8, b1: u8, b2: u8, b3: u8)
    ensures
        ((v as u8) as u32) | ((((v >> 8u32) as u8) as u32) << 8u32) | ((((v >> 16u32) as u8) as u32)
            << 16u32) | ((((v >> 24u32) as u8) as u32) << 24u32) == v,
        ({
            let w = (b0 as u32) | ((b1 as u32) << 8u32) | ((b2 as u32) << 16u32) | ((b3 as u32)
                << 24u32);
            &&& w as u8 == b0
            &&& (w >> 8u32) as u8 == b1
            &&& (w >> 16u32) as u8 == b2
            &&& (w >> 24u32) as u8 == b3
        }),
{
    assert(((v as u8) as u32) | ((((v >> 8u32) as u8) as u32) << 8u32) | ((((v >> 16u32) as u8)
        as u32) << 16u32) | ((((v >> 24u32) as u8) as u32) << 24u32) == v) by (bit_vector);
    assert({
        let w = (b0 as u32) | ((b1 as u32) << 8u32) | ((b2 as u32) << 16u32) | ((b3 as u32)
            << 24u32);
        &&& w as u8 == b0
        &&& (w >> 8u32) as u8 == b1
        &&& (w >> 16u32) as u8 == b2
        &&& (w >> 24u32) as u8 == b3
    }) by (bit_vector);
}

proof fn lemma_u64_bytes(v: u64)
    ensures
        ((v as u8) as u64) | ((((v >> 8u64) as u8) as u64) << 8u64) | ((((v >> 16u64) as u8) as u64)
            << 16u64) | ((((v >> 24u64) as u8) as u64) << 24u64) | ((((v >> 32u64) as u8) as u64)
            << 32u64) | ((((v >> 40u64) as u8) as u64) << 40u64) | ((((v >> 48u64) as u8) as u64)
            << 48u64) | ((((v >> 56u64) as u8) as u64) << 56u64) == v,
{
    assert(((v as u8) as u64) | ((((v >> 8u64) as u8) as u64) << 8u64) | ((((v >> 16u64) as u8)
        as u64) << 16u64) | ((((v >> 24u64) as u8) as u64) << 24u64) | ((((v >> 32u64) as u8)
        as u64) << 32u64) | ((((v >> 40u64) as u8) as u64) << 40u64) | ((((v >> 48u64) as u8)
        as u64) << 48u64) | ((((v >> 56u64) as u8) as u64) << 56u64) == v) by (bit_vector);
}

proof fn lemma_u64_from_bytes(b0: u8, b1: u8, b2: u8, b3: u8, b4: u8, b5: u8, b6: u8, b7: u8)
    ensures
        ({
            let w = (b0 as u64) | ((b1 as u64) << 8u64) | ((b2 as u64) << 16u64) | ((b3 as u64)
                << 24u64) | ((b4 as u64) << 32u64) | ((b5 as u64) << 40u64) | ((b6 as u64)
                << 48u64) | ((b7 as u64) << 56u64);
            &&& w as u8 == b0
            &&& (w >> 8u64) as u8 == b1
            &&& (w >> 16u64) as u8 == b2
            &&& (w >> 24u64) as u8 == b3
            &&& (w >> 32u64) as u8 == b4
            &&& (w >> 40u64) as u8 == b5
            &&& (w >> 48u64) as u8 == b6
            &&& (w >> 56u64) as u8 == b7
        }),
{
    assert({
        let w = (b0 as u64) | ((b1 as u64) << 8u64) | ((b2 as u64) << 16u64) | ((b3 as u64)
            << 24u64) | ((b4 as u64) << 32u64) | ((b5 as u64) << 40u64) | ((b6 as u64) << 48u64)
            | ((b7 as u64) << 56u64);
        &&& w as u8 == b0
        &&& (w >> 8u64) as u8 == b1
        &&& (w >> 16u64) as u8 == b2
        &&& (w >> 24u64) as u8 == b3
        &&& (w >> 32u64) as u8 == b4
        &&& (w >> 40u64) as u8 == b5
        &&& (w >> 48u64) as u8 == b6
        &&& (w >> 56u64) as u8 == b7
    }) by (bit_vector);
}

/// Reading back the little-endian bytes of an integer gives the integer.
pub proof fn lemma_le_roundtrip(a: u16, b: u32, c: u64)
    ensures
        u16_at(le16(a), 0) == a,
        u32_at(le32(b), 0) == b,
        u64_at(le64(c), 0) == c,
{
    lemma_u16_bytes(a, 0, 0);
    lemma_u32_bytes(b, 0, 0, 0, 0);
    lemma_u64_bytes(c);
}

/// Writing back an integer read from bytes reproduces those bytes.
pub proof fn lemma_le_bytes_roundtrip(s: Seq<u8>, i: int)
    requires
        0 <= i,
        i + 8 <= s.len(),
    ensures
        le16(u16_at(s, i)) == s.subrange(i, i + 2),
        le32(u32_at(s, i)) == s.subrange(i, i + 4),
        le64(u64_at(s, i)) == s.subrange(i, i + 8),
{
    lemma_u16_bytes(0, s[i], s[i + 1]);
    lemma_u32_bytes(0, s[i], s[i + 1], s[i + 2], s[i + 3]);
    lemma_u64_from_bytes(s[i], s[i + 1], s[i + 2], s[i + 3], s[i + 4], s[i + 5], s[i + 6], s[i + 7]);
    assert(le16(u16_at(s, i)) =~= s.subrange(i, i + 2));
    assert(le32(u32_at(s, i)) =~= s.subrange(i, i + 4));
    assert(le64(u64_at(s, i)) =~= s.subrange(i, i + 8));
}

fn push_u16_le(v: &mut Vec<u8>, x: u16)
    ensures
        final(v)@ == old(v)@ + le16(x),
{
    v.push(x as u8);
    v.push((x >> 8) as u8);
    assert(v@ =~= old(v)@ + le16(x));
}

fn push_u32_le(v: &mut Vec<u8>, x: u32)
    ensures
        final(v)@ == old(v)@ + le32(x),
{
    v.push(x as u8);
    v.push((x >> 8) as u8);
    v.push((x >> 16) as u8);
    v.push((x >> 24) as u8);
    assert(v@ =~= old(v)@ + le32(x));
}

fn push_u64_le(v: &mut Vec<u8>, x: u64)
    ensures
        final(v)@ == old(v)@ + le64(x),
{
    v.push(x as u8);
    v.push((x >> 8) as u8);
    v.push((x >> 16) as u8);
    v.push((x >> 24) as u8);
    v.push((x >> 32) as u8);
    v.push((x >> 40) as u8);
    v.push((x >> 48) as u8);
    v.push((x >> 56) as u8);
    assert(v@ =~= old(v)@ + le64(x));
}

// ---------------------------------------------------------------------------
// MessageHeader
// ---------------------------------------------------------------------------

/// Fixed-layout LAIC message header (40 bytes on the wire, little-endian).
#[derive(Clone, Copy, Debug, PartialEq, Eq)]
pub struct MessageHeader {
    /// Magic number: `0x4C414943` ("LAIC" in ASCII).
    pub magic: u32,
    /// Protocol version: `major << 8 | minor`.
    pub version: u16,
    /// Message type code (see [`super::constants::MsgType`]).
    pub msg_type: u16,
    /// Unique message identifier.
    pub msg_id: u64,
    /// Correlation ID: links a response to its request.
    pub correlation_id: u64,
    /// Total payload length in bytes.
    pub payload_len: u32,
    /// Payload format (see [`super::constants::PayloadFormat`]).
    pub payload_format: u8,
    /// `QoS` priority level (see [`super::constants::Qos`]).
    pub qos: u8,
    /// Flow control: number of credits granted to peer.
    pub credit_grant: u16,
    /// General-purpose bit flags (transport / frame level only).
    pub flags: u32,
    /// Reserved for future extension.
    pub reserved: [u8; 4],
}

/// The first protocol invariant that `h` breaks, checked in wire order:
/// magic, version, payload format, `QoS`.
pub open spec fn header_fault(h: MessageHeader) -> Option<ProtocolError> {
    if h.magic != MAGIC {
        Some(ProtocolError::InvalidMagic { actual: h.magic })
    } else if h.version != VERSION {
        Some(ProtocolError::UnsupportedVersion { version: h.version })
    } else if h.payload_format >= 3 {
        Some(ProtocolError::InvalidPayloadFormat { value: h.payload_format })
    } else if h.qos >= 3 {
        Some(ProtocolError::InvalidQos { value: h.qos })
    } else {
        None
    }
}

/// The 40 wire bytes of a header.
pub open spec fn spec_encode(h: MessageHeader) -> Seq<u8> {
    le32(h.magic) + le16(h.version) + le16(h.msg_type) + le64(h.msg_id) + le64(h.correlation_id)
        + le32(h.payload_len) + seq![h.payload_format, h.qos] + le16(h.credit_grant) + le32(h.flags)
        + h.reserved@
}

/// The header whose fields sit in the first 40 bytes of `b`.
pub open spec fn spec_parse(b: Seq<u8>) -> MessageHeader {
    MessageHeader {
        magic: u32_at(b, 0),
        version: u16_at(b, 4),
        msg_type: u16_at(b, 6),
        msg_id: u64_at(b, 8),
        correlation_id: u64_at(b, 16),
        payload_len: u32_at(b, 24),
        payload_format: b[28],
        qos: b[29],
        credit_grant: u16_at(b, 30),
        flags: u32_at(b, 32),
        reserved: [b[36], b[37], b[38], b[39]],
    }
}

/// The error for a buffer of `len` bytes, shorter than a header.
pub open spec fn too_short(len: nat) -> LaicError {
    LaicError::Protocol(ProtocolError::BufferTooShort { actual: len as usize, expected: 40 })
}

/// What decoding `b` gives: the header in its first 40 bytes, or the first
/// fault found (length, magic, version, payload format, `QoS`).
pub open spec fn spec_decode(b: Seq<u8>) -> Result<MessageHeader, LaicError> {
    if b.len() < 40 {
        Err(too_short(b.len()))
    } else {
        match header_fault(spec_parse(b)) {
            Some(e) => Err(LaicError::Protocol(e)),
            None => Ok(spec_parse(b)),
        }
    }
}

impl MessageHeader {
    /// Whether every protocol-invariant field holds a valid value.
    pub open spec fn is_valid(self) -> bool {
        header_fault(self) is None
    }

    /// What encoding into a buffer of `len` bytes gives.
    pub open spec fn encode_result(self, len: nat) -> Result<(), LaicError> {
        if len < 40 {
            Err(too_short(len))
        } else {
            match header_fault(self) {
                Some(e) => Err(LaicError::Protocol(e)),
                None => Ok(()),
            }
        }
    }

    /// The 40 wire bytes of this header.
    pub fn to_wire_bytes(&self) -> (r: Vec<u8>)
        ensures
            r@ == spec_encode(*self),
            r@.len() == 40,
    {
        let mut v: Vec<u8> = Vec::new();
        push_u32_le(&mut v, self.magic);
        push_u16_le(&mut v, self.version);
        push_u16_le(&mut v, self.msg_type);
        push_u64_le(&mut v, self.msg_id);
        push_u64_le(&mut v, self.correlation_id);
        push_u32_le(&mut v, self.payload_len);
        v.push(self.payload_format);
        v.push(self.qos);
        push_u16_le(&mut v, self.credit_grant);
        push_u32_le(&mut v, self.flags);
        v.push(self.reserved[0]);
        v.push(self.reserved[1]);
        v.push(self.reserved[2]);
        v.push(self.reserved[3]);
        assert(v@ =~= spec_encode(*self));
        v
    }

    /// Encode this header into the first 40 bytes of `buf`, little-endian.
    ///
    /// Validates `magic`, `version`, `payload_format` and `qos` first, so a
    /// sender never emits bytes that a receiver would reject. Bytes past the
    /// header are left untouched, and nothing is written on error.
    pub fn encode(&self, buf: &mut [u8]) -> (r: Result<(), LaicError>)
        ensures
            r == self.encode_result(old(buf)@.len()),
            r is Ok ==> final(buf)@ == spec_encode(*self) + old(buf)@.skip(40),
            r is Err ==> final(buf)@ == old(buf)@,
    {
        if buf.len() < HEADER_SIZE {
            return Err(
                LaicError::Protocol(
                    ProtocolError::BufferTooShort { actual: buf.len(), expected: HEADER_SIZE },
                ),
            );
        }
        if self.magic != MAGIC {
            return Err(LaicError::Protocol(ProtocolError::InvalidMagic { actual: self.magic }));
        }
        if self.version != VERSION {
            return Err(
                LaicError::Protocol(ProtocolError::UnsupportedVersion { version: self.version }),
            );
        }
        if self.payload_format >= 3 {
            return Err(
                LaicError::Protocol(
                    ProtocolError::InvalidPayloadFormat { value: self.payload_format },
                ),
            );
        }
        if self.qos >= 3 {
            return Err(LaicError::Protocol(ProtocolError::InvalidQos { value: self.qos }));
        }
        let bytes = self.to_wire_bytes();
        let ghost before = buf@;
        let mut i: usize = 0;
        while i < HEADER_SIZE
            invariant
                0 <= i <= 40,
                bytes@ == spec_encode(*self),
                bytes@.len() == 40,
                buf@.len() == before.len(),
                before.len() >= 40,
                forall|j: int| 0 <= j < i ==> buf@[j] == bytes@[j],
                forall|j: int| i <= j < buf@.len() ==> buf@[j] == before[j],
            decreases 40 - i,
        {
            buf[i] = bytes[i];
            i = i + 1;
        }
        assert(buf@ =~= spec_encode(*self) + before.skip(40));
        Ok(())
    }

    /// Decode a header from the first 40 bytes of `buf`, validating magic,
    /// version, payload format and `QoS`.
    pub fn decode(buf: &[u8]) -> (r: Result<Self, LaicError>)
        ensures
            r == spec_decode(buf@),
    {
        if buf.len() < HEADER_SIZE {
            return Err(
                LaicError::Protocol(
                    ProtocolError::BufferTooShort { actual: buf.len(), expected: HEADER_SIZE },
                ),
            );
        }
        let magic: u32 = (buf[0] as u32) | ((buf[1] as u32) << 8u32) | ((buf[2] as u32) << 16u32)
            | ((buf[3] as u32) << 24u32);
        if magic != MAGIC {
            return Err(LaicError::Protocol(ProtocolError::InvalidMagic { actual: magic }));
        }
        let version: u16 = (buf[4] as u16) | ((buf[5] as u16) << 8u16);
        if version != VERSION {
            return Err(LaicError::Protocol(ProtocolError::UnsupportedVersion { version }));
        }
        let payload_format: u8 = buf[28];
        if payload_format >= 3 {
            return Err(
                LaicError::Protocol(ProtocolError::InvalidPayloadFormat { value: payload_format }),
            );
        }
        let qos: u8 = buf[29];
        if qos >= 3 {
            return Err(LaicError::Protocol(ProtocolError::InvalidQos { value: qos }));
        }
        let msg_type: u16 = (buf[6] as u16) | ((buf[7] as u16) << 8u16);
        let msg_id: u64 = (buf[8] as u64) | ((buf[9] as u64) << 8u64) | ((buf[10] as u64) << 16u64)
            | ((buf[11] as u64) << 24u64) | ((buf[12] as u64) << 32u64) | ((buf[13] as u64)
            << 40u64) | ((buf[14] as u64) << 48u64) | ((buf[15] as u64) << 56u64);
        let correlation_id: u64 = (buf[16] as u64) | ((buf[17] as u64) << 8u64) | ((buf[18] as u64)
            << 16u64) | ((buf[19] as u64) << 24u64) | ((buf[20] as u64) << 32u64) | ((buf[21]
            as u64) << 40u64) | ((buf[22] as u64) << 48u64) | ((buf[23] as u64) << 56u64);
        let payload_len: u32 = (buf[24] as u32) | ((buf[25] as u32) << 8u32) | ((buf[26] as u32)
            << 16u32) | ((buf[27] as u32) << 24u32);
        let credit_grant: u16 = (buf[30] as u16) | ((buf[31] as u16) << 8u16);
        let flags: u32 = (buf[32] as u32) | ((buf[33] as u32) << 8u32) | ((buf[34] as u32)
            << 16u32) | ((buf[35] as u32) << 24u32);
        let reserved: [u8; 4] = [buf[36], buf[37], buf[38], buf[39]];
        Ok(
            MessageHeader {
                magic,
                version,
                msg_type,
                msg_id,
                correlation_id,
                payload_len,
                payload_format,
                qos,
                credit_grant,
                flags,
                reserved,
            },
        )
    }
}

/// A valid header survives a trip through the wire: decoding the bytes that
/// `encode` writes gives back the same header, whatever follows them.
pub proof fn lemma_header_roundtrip(h: MessageHeader, rest: Seq<u8>)
    requires
        h.is_valid(),
    ensures
        spec_decode(spec_encode(h) + rest) == Ok::<MessageHeader, LaicError>(h),
{
    let b = spec_encode(h) + rest;
    lemma_u16_bytes(h.version, 0, 0);
    lemma_u16_bytes(h.msg_type, 0, 0);
    lemma_u16_bytes(h.credit_grant, 0, 0);
    lemma_u32_bytes(h.magic, 0, 0, 0, 0);
    lemma_u32_bytes(h.payload_len, 0, 0, 0, 0);
    lemma_u32_bytes(h.flags, 0, 0, 0, 0);
    lemma_u64_bytes(h.msg_id);
    lemma_u64_bytes(h.correlation_id);
    assert(b.len() == 40 + rest.len());
    let p = spec_parse(b);
    assert(p.magic == h.magic);
    assert(p.version == h.version);
    assert(p.msg_type == h.msg_type);
    assert(p.msg_id == h.msg_id);
    assert(p.correlation_id == h.correlation_id);
    assert(p.payload_len == h.payload_len);
    assert(p.payload_format == h.payload_format);
    assert(p.qos == h.qos);
    assert(p.credit_grant == h.credit_grant);
    assert(p.flags == h.flags);
    assert(p.reserved =~= h.reserved);
    assert(p == h);
}

/// Any buffer that decodes is reproduced by encoding what it decodes to:
/// the header's 40 wire bytes are exactly the buffer's first 40 bytes.
pub proof fn lemma_decoded_reencodes(b: Seq<u8>)
    requires
        spec_decode(b) is Ok,
    ensures
        spec_encode(spec_decode(b)->Ok_0) == b.subrange(0, 40),
{
    let h = spec_parse(b);
    lemma_le_bytes_roundtrip(b, 0);
    lemma_le_bytes_roundtrip(b, 4);
    lemma_le_bytes_roundtrip(b, 6);
    lemma_le_bytes_roundtrip(b, 8);
    lemma_le_bytes_roundtrip(b, 16);
    lemma_le_bytes_roundtrip(b, 24);
    lemma_le_bytes_roundtrip(b, 30);
    lemma_le_bytes_roundtrip(b, 32);
    assert(spec_encode(h) =~= b.subrange(0, 40));
}

} // verus!
