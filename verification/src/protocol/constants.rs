//! Protocol constants, type codes and flag definitions.
use vstd::prelude::*;

use crate::error::ProtocolError;

verus! {

/// LAIC header magic number: `0x4C414943` ("LAIC" in ASCII).
pub const MAGIC: u32 = 0x4C41_4943;

/// Current protocol version: major 0, minor 1 (`major << 8 | minor`).
pub const VERSION: u16 = 0x0001;

/// Fixed header size in bytes.
pub const HEADER_SIZE: usize = 40;

/// Flag bit: payload is compressed.
pub const FLAG_COMPRESSED: u32 = 0x01;

/// Flag bit: message is a fragment of a larger message.
pub const FLAG_FRAGMENTED: u32 = 0x02;

/// Flag bit: sender requests an acknowledgement.
pub const FLAG_ACK_REQUESTED: u32 = 0x04;

/// Flag bit: marks the final chunk of a stream.
pub const FLAG_END_OF_STREAM: u32 = 0x08;

/// Flag bit: `credit_grant` field carries a non-zero value.
pub const FLAG_HAS_CREDIT_GRANT: u32 = 0x10;

/// Payload serialisation format, carried in the `payload_format` header byte.
#[non_exhaustive]
#[derive(Clone, Copy, Debug, PartialEq, Eq, Structural, Hash)]
pub enum PayloadFormat {
    /// Apache Arrow IPC — tensor / embedding data plane (byte 0).
    Arrow,
    /// Protocol Buffers — control messages and remote calls (byte 1).
    Protobuf,
    /// Raw bytes — opaque payload, no codec interpretation (byte 2).
    Raw,
}

impl PayloadFormat {
    /// The wire byte of this format.
    pub open spec fn spec_as_u8(self) -> u8 {
        match self {
            PayloadFormat::Arrow => 0,
            PayloadFormat::Protobuf => 1,
            PayloadFormat::Raw => 2,
        }
    }

    /// The format a wire byte denotes, or the error for an unknown byte.
    pub open spec fn spec_from_u8(value: u8) -> Result<PayloadFormat, ProtocolError> {
        if value == 0 {
            Ok(PayloadFormat::Arrow)
        } else if value == 1 {
            Ok(PayloadFormat::Protobuf)
        } else if value == 2 {
            Ok(PayloadFormat::Raw)
        } else {
            Err(ProtocolError::InvalidPayloadFormat { value })
        }
    }

    /// The wire byte of this format.
    pub fn as_u8(self) -> (r: u8)
        ensures
            r == self.spec_as_u8(),
    {
        match self {
            PayloadFormat::Arrow => 0,
            PayloadFormat::Protobuf => 1,
            PayloadFormat::Raw => 2,
        }
    }

    /// Convert from raw byte, returning an error for unknown values.
    pub fn from_u8(value: u8) -> (r: Result<Self, ProtocolError>)
        ensures
            r == Self::spec_from_u8(value),
            r is Ok <==> value < 3,
            r matches Ok(f) ==> f.spec_as_u8() == value,
    {
        match value {
            0 => Ok(PayloadFormat::Arrow),
            1 => Ok(PayloadFormat::Protobuf),
            2 => Ok(PayloadFormat::Raw),
            _ => Err(ProtocolError::InvalidPayloadFormat { value }),
        }
    }
}

/// Quality-of-service priority level, carried in the `qos` header byte.
#[non_exhaustive]
#[derive(Clone, Copy, Debug, PartialEq, Eq, Structural, Hash)]
pub enum Qos {
    /// Normal priority — default for data messages (byte 0).
    Normal,
    /// High priority — expedited delivery (byte 1).
    High,
    /// Emergency priority — LP7 emergency channel (byte 2).
    Emergency,
}

impl Qos {
    /// The wire byte of this level.
    pub open spec fn spec_as_u8(self) -> u8 {
        match self {
            Qos::Normal => 0,
            Qos::High => 1,
            Qos::Emergency => 2,
        }
    }

    /// The level a wire byte denotes, or the error for an unknown byte.
    pub open spec fn spec_from_u8(value: u8) -> Result<Qos, ProtocolError> {
        if value == 0 {
            Ok(Qos::Normal)
        } else if value == 1 {
            Ok(Qos::High)
        } else if value == 2 {
            Ok(Qos::Emergency)
        } else {
            Err(ProtocolError::InvalidQos { value })
        }
    }

    /// The wire byte of this level.
    pub fn as_u8(self) -> (r: u8)
        ensures
            r == self.spec_as_u8(),
    {
        match self {
            Qos::Normal => 0,
            Qos::High => 1,
            Qos::Emergency => 2,
        }
    }

    /// Convert from raw byte, returning an error for unknown values.
    pub fn from_u8(value: u8) -> (r: Result<Self, ProtocolError>)
        ensures
            r == Self::spec_from_u8(value),
            r is Ok <==> value < 3,
            r matches Ok(q) ==> q.spec_as_u8() == value,
    {
        match value {
            0 => Ok(Qos::Normal),
            1 => Ok(Qos::High),
            2 => Ok(Qos::Emergency),
            _ => Err(ProtocolError::InvalidQos { value }),
        }
    }
}

/// Message type identifier: an open set over `u16`, so that pattern layers
/// can define more types without touching this module.
#[derive(Clone, Copy, Debug, PartialEq, Eq, Structural, Hash)]
pub struct MsgType(pub(crate) u16);

impl View for MsgType {
    type V = u16;

    closed spec fn view(&self) -> u16 {
        self.0
    }
}

impl MsgType {
    /// Generic data message (`0x0001`).
    pub fn data() -> (r: MsgType)
        ensures
            r@ == 0x0001,
    {
        MsgType(0x0001)
    }

    /// Control message: handshake, heartbeat, etc. (`0x0002`).
    pub fn control() -> (r: MsgType)
        ensures
            r@ == 0x0002,
    {
        MsgType(0x0002)
    }

    /// Acknowledgement (`0x0003`).
    pub fn ack() -> (r: MsgType)
        ensures
            r@ == 0x0003,
    {
        MsgType(0x0003)
    }

    /// Keepalive heartbeat (`0x0004`).
    pub fn heartbeat() -> (r: MsgType)
        ensures
            r@ == 0x0004,
    {
        MsgType(0x0004)
    }

    /// Create from a raw `u16` value.
    pub fn new(value: u16) -> (r: Self)
        ensures
            r@ == value,
    {
        MsgType(value)
    }

    /// Return the raw `u16` value.
    pub fn as_u16(self) -> (r: u16)
        ensures
            r == self@,
    {
        self.0
    }
}

/// Two message types are equal exactly when their raw values are.
pub proof fn lemma_msg_type_eq(a: MsgType, b: MsgType)
    ensures
        (a == b) <==> (a@ == b@),
{
}

/// Every flag is a single bit and no two flags share a bit.
pub proof fn lemma_flags_distinct_bits()
    ensures
        FLAG_COMPRESSED & FLAG_FRAGMENTED == 0,
        FLAG_COMPRESSED & FLAG_ACK_REQUESTED == 0,
        FLAG_COMPRESSED & FLAG_END_OF_STREAM == 0,
        FLAG_COMPRESSED & FLAG_HAS_CREDIT_GRANT == 0,
        FLAG_FRAGMENTED & FLAG_ACK_REQUESTED == 0,
        FLAG_FRAGMENTED & FLAG_END_OF_STREAM == 0,
        FLAG_FRAGMENTED & FLAG_HAS_CREDIT_GRANT == 0,
        FLAG_ACK_REQUESTED & FLAG_END_OF_STREAM == 0,
        FLAG_ACK_REQUESTED & FLAG_HAS_CREDIT_GRANT == 0,
        FLAG_END_OF_STREAM & FLAG_HAS_CREDIT_GRANT == 0,
{
    assert(0x01u32 & 0x02u32 == 0 && 0x01u32 & 0x04u32 == 0 && 0x01u32 & 0x08u32 == 0
        && 0x01u32 & 0x10u32 == 0 && 0x02u32 & 0x04u32 == 0 && 0x02u32 & 0x08u32 == 0
        && 0x02u32 & 0x10u32 == 0 && 0x04u32 & 0x08u32 == 0 && 0x04u32 & 0x10u32 == 0
        && 0x08u32 & 0x10u32 == 0) by (bit_vector);
}

/// Each payload format and QoS level has its documented wire byte (Arrow
/// 0, Protobuf 1, Raw 2; Normal 0, High 1, Emergency 2), and reading a
/// level's or format's byte back gives that same level or format: no two
/// share a byte and none is lost on the wire.
pub proof fn lemma_wire_bytes(f: PayloadFormat, q: Qos)
    ensures
        f is Arrow ==> f.spec_as_u8() == 0,
        f is Protobuf ==> f.spec_as_u8() == 1,
        f is Raw ==> f.spec_as_u8() == 2,
        q is Normal ==> q.spec_as_u8() == 0,
        q is High ==> q.spec_as_u8() == 1,
        q is Emergency ==> q.spec_as_u8() == 2,
        PayloadFormat::spec_from_u8(f.spec_as_u8()) == Ok::<PayloadFormat, ProtocolError>(f),
        Qos::spec_from_u8(q.spec_as_u8()) == Ok::<Qos, ProtocolError>(q),
{
}

} // verus!
