//! Protocol-level errors (error codes `0x03xx`).
use vstd::prelude::*;

use super::ErrorCode;
use crate::text::{dec_digits, hex_padded, push_decimal, push_hex_padded};
use vstd::string::StringExecFns;

verus! {

/// Protocol-level errors (error codes `0x03xx`).
#[non_exhaustive]
#[derive(Debug)]
pub enum ProtocolError {
    /// Header magic number does not match `0x4C414943`.
    InvalidMagic {
        /// The incorrect magic value that was found.
        actual: u32,
    },
    /// Buffer is too short to contain a full header.
    BufferTooShort {
        /// Number of bytes provided.
        actual: usize,
        /// Number of bytes required.
        expected: usize,
    },
    /// Protocol version is not supported.
    UnsupportedVersion {
        /// The unsupported version value.
        version: u16,
    },
    /// Payload format byte is out of range.
    InvalidPayloadFormat {
        /// The invalid format byte.
        value: u8,
    },
    /// `QoS` byte is out of range.
    InvalidQos {
        /// The invalid `QoS` byte.
        value: u8,
    },
    /// Header `payload_len` does not match actual payload length.
    PayloadLengthMismatch {
        /// Length declared in header.
        header_len: u32,
        /// Actual payload buffer length.
        actual_len: usize,
    },
    /// Message type does not match the expected type for this operation.
    UnexpectedMessageType {
        /// The expected message type.
        expected: u16,
        /// The actual message type found.
        actual: u16,
    },
    /// Payload format does not match the expected contract for this operation.
    UnexpectedPayloadFormat {
        /// The payload format this operation requires.
        expected: u8,
        /// The payload format actually found on the wire.
        actual: u8,
    },
    /// Trust-domain handshake version does not match the local version.
    UnsupportedHandshakeVersion {
        /// The version this endpoint requires.
        expected: u16,
        /// The version presented by the peer.
        actual: u16,
    },
    /// Trust-domain handshake reported a remote domain that does not match
    /// the locally expected peer domain.
    TrustDomainMismatch {
        /// The domain name this endpoint expected from the peer.
        expected: String,
        /// The domain name actually reported by the peer.
        actual: String,
    },
    /// Trust-domain handshake did not echo the client nonce correctly.
    HandshakeNonceMismatch,
    /// Trust-domain handshake payload is structurally malformed.
    InvalidHandshakePayload {
        /// Human-readable detail naming the malformed field.
        detail: String,
    },
}

impl ProtocolError {
    /// Which kind of protocol error this is, by declaration order.
    pub open spec fn kind(&self) -> nat {
        match self {
            ProtocolError::InvalidMagic { .. } => 0,
            ProtocolError::BufferTooShort { .. } => 1,
            ProtocolError::UnsupportedVersion { .. } => 2,
            ProtocolError::InvalidPayloadFormat { .. } => 3,
            ProtocolError::InvalidQos { .. } => 4,
            ProtocolError::PayloadLengthMismatch { .. } => 5,
            ProtocolError::UnexpectedMessageType { .. } => 6,
            ProtocolError::UnexpectedPayloadFormat { .. } => 7,
            ProtocolError::UnsupportedHandshakeVersion { .. } => 8,
            ProtocolError::TrustDomainMismatch { .. } => 9,
            ProtocolError::HandshakeNonceMismatch => 10,
            ProtocolError::InvalidHandshakePayload { .. } => 11,
        }
    }

    /// Stable code within the `0x03xx` range. Handshake codes predate
    /// `UnexpectedPayloadFormat`, which takes the next free slot.
    pub open spec fn spec_code(&self) -> u16 {
        match self {
            ProtocolError::InvalidMagic { .. } => 0x0301,
            ProtocolError::BufferTooShort { .. } => 0x0302,
            ProtocolError::UnsupportedVersion { .. } => 0x0303,
            ProtocolError::InvalidPayloadFormat { .. } => 0x0304,
            ProtocolError::InvalidQos { .. } => 0x0305,
            ProtocolError::PayloadLengthMismatch { .. } => 0x0306,
            ProtocolError::UnexpectedMessageType { .. } => 0x0307,
            ProtocolError::UnsupportedHandshakeVersion { .. } => 0x0308,
            ProtocolError::TrustDomainMismatch { .. } => 0x0309,
            ProtocolError::HandshakeNonceMismatch => 0x030A,
            ProtocolError::InvalidHandshakePayload { .. } => 0x030B,
            ProtocolError::UnexpectedPayloadFormat { .. } => 0x030C,
        }
    }

    /// Protocol errors are never retryable.
    pub open spec fn spec_retryable(&self) -> bool {
        false
    }

    /// Stable error code within the `0x03xx` range.
    pub fn code(&self) -> (r: ErrorCode)
        ensures
            r@ == self.spec_code(),
    {
        match self {
            ProtocolError::InvalidMagic { .. } => ErrorCode(0x0301),
            ProtocolError::BufferTooShort { .. } => ErrorCode(0x0302),
            ProtocolError::UnsupportedVersion { .. } => ErrorCode(0x0303),
            ProtocolError::InvalidPayloadFormat { .. } => ErrorCode(0x0304),
            ProtocolError::InvalidQos { .. } => ErrorCode(0x0305),
            ProtocolError::PayloadLengthMismatch { .. } => ErrorCode(0x0306),
            ProtocolError::UnexpectedMessageType { .. } => ErrorCode(0x0307),
            ProtocolError::UnsupportedHandshakeVersion { .. } => ErrorCode(0x0308),
            ProtocolError::TrustDomainMismatch { .. } => ErrorCode(0x0309),
            ProtocolError::HandshakeNonceMismatch => ErrorCode(0x030A),
            ProtocolError::InvalidHandshakePayload { .. } => ErrorCode(0x030B),
            ProtocolError::UnexpectedPayloadFormat { .. } => ErrorCode(0x030C),
        }
    }

    /// Whether the caller should retry: never, the bytes are malformed.
    pub fn is_retryable(&self) -> (r: bool)
        ensures
            r == self.spec_retryable(),
    {
        false
    }
    /// Human-readable description of the error.
    pub open spec fn display(&self) -> Seq<char> {
        match self {
            ProtocolError::InvalidMagic { actual } => "invalid magic: expected 0x4C414943, got 0x"@
                + hex_padded(*actual as nat, 8),
            ProtocolError::BufferTooShort { actual, expected } => "buffer too short: "@
                + dec_digits(*actual as nat) + " bytes, need "@ + dec_digits(*expected as nat),
            ProtocolError::UnsupportedVersion { version } => "unsupported version: 0x"@
                + hex_padded(*version as nat, 4),
            ProtocolError::InvalidPayloadFormat { value } => "invalid payload format: "@
                + dec_digits(*value as nat),
            ProtocolError::InvalidQos { value } => "invalid QoS: "@ + dec_digits(*value as nat),
            ProtocolError::PayloadLengthMismatch { header_len, actual_len } =>
                "payload length mismatch: header says "@ + dec_digits(*header_len as nat)
                + ", actual "@ + dec_digits(*actual_len as nat),
            ProtocolError::UnexpectedMessageType { expected, actual } =>
                "unexpected message type: expected 0x"@ + hex_padded(*expected as nat, 4)
                + ", got 0x"@ + hex_padded(*actual as nat, 4),
            ProtocolError::UnexpectedPayloadFormat { expected, actual } =>
                "unexpected payload format: expected 0x"@ + hex_padded(*expected as nat, 2)
                + ", got 0x"@ + hex_padded(*actual as nat, 2),
            ProtocolError::UnsupportedHandshakeVersion { expected, actual } =>
                "unsupported handshake version: expected 0x"@ + hex_padded(*expected as nat, 4)
                + ", got 0x"@ + hex_padded(*actual as nat, 4),
            ProtocolError::TrustDomainMismatch { expected, actual } =>
                "trust-domain mismatch: expected "@ + expected@ + ", got "@ + actual@,
            ProtocolError::HandshakeNonceMismatch => "handshake nonce mismatch"@,
            ProtocolError::InvalidHandshakePayload { detail } => "invalid handshake payload: "@
                + detail@,
        }
    }

    /// Human-readable description of the error.
    pub fn to_string(&self) -> (r: String)
        ensures
            r@ == self.display(),
    {
        match self {
            ProtocolError::InvalidMagic { actual } => {
                let mut s = String::from_str("invalid magic: expected 0x4C414943, got 0x");
                push_hex_padded(&mut s, *actual as u64, 8);
                s
            },
            ProtocolError::BufferTooShort { actual, expected } => {
                let mut s = String::from_str("buffer too short: ");
                push_decimal(&mut s, *actual as u64);
                s.append(" bytes, need ");
                push_decimal(&mut s, *expected as u64);
                s
            },
            ProtocolError::UnsupportedVersion { version } => {
                let mut s = String::from_str("unsupported version: 0x");
                push_hex_padded(&mut s, *version as u64, 4);
                s
            },
            ProtocolError::InvalidPayloadFormat { value } => {
                let mut s = String::from_str("invalid payload format: ");
                push_decimal(&mut s, *value as u64);
                s
            },
            ProtocolError::InvalidQos { value } => {
                let mut s = String::from_str("invalid QoS: ");
                push_decimal(&mut s, *value as u64);
                s
            },
            ProtocolError::PayloadLengthMismatch { header_len, actual_len } => {
                let mut s = String::from_str("payload length mismatch: header says ");
                push_decimal(&mut s, *header_len as u64);
                s.append(", actual ");
                push_decimal(&mut s, *actual_len as u64);
                s
            },
            ProtocolError::UnexpectedMessageType { expected, actual } => {
                let mut s = String::from_str("unexpected message type: expected 0x");
                push_hex_padded(&mut s, *expected as u64, 4);
                s.append(", got 0x");
                push_hex_padded(&mut s, *actual as u64, 4);
                s
            },
            ProtocolError::UnexpectedPayloadFormat { expected, actual } => {
                let mut s = String::from_str("unexpected payload format: expected 0x");
                push_hex_padded(&mut s, *expected as u64, 2);
                s.append(", got 0x");
                push_hex_padded(&mut s, *actual as u64, 2);
                s
            },
            ProtocolError::UnsupportedHandshakeVersion { expected, actual } => {
                let mut s = String::from_str("unsupported handshake version: expected 0x");
                push_hex_padded(&mut s, *expected as u64, 4);
                s.append(", got 0x");
                push_hex_padded(&mut s, *actual as u64, 4);
                s
            },
            ProtocolError::TrustDomainMismatch { expected, actual } => {
                let mut s = String::from_str("trust-domain mismatch: expected ");
                s.append(expected.as_str());
                s.append(", got ");
                s.append(actual.as_str());
                s
            },
            ProtocolError::HandshakeNonceMismatch => String::from_str("handshake nonce mismatch"),
            ProtocolError::InvalidHandshakePayload { detail } => {
                let mut s = String::from_str("invalid handshake payload: ");
                s.append(detail.as_str());
                s
            },
        }
    }
}

/// Every protocol error carries its documented code, whatever its details,
/// and none is retryable: `InvalidMagic` 0x0301, `BufferTooShort` 0x0302,
/// `UnsupportedVersion` 0x0303, `InvalidPayloadFormat` 0x0304, `InvalidQos`
/// 0x0305, `PayloadLengthMismatch` 0x0306, `UnexpectedMessageType` 0x0307,
/// `UnsupportedHandshakeVersion` 0x0308, `TrustDomainMismatch` 0x0309,
/// `HandshakeNonceMismatch` 0x030A, `InvalidHandshakePayload` 0x030B,
/// `UnexpectedPayloadFormat` 0x030C.
pub proof fn lemma_documented_protocol_codes(p: ProtocolError)
    ensures
        p is InvalidMagic ==> p.spec_code() == 0x0301,
        p is BufferTooShort ==> p.spec_code() == 0x0302,
        p is UnsupportedVersion ==> p.spec_code() == 0x0303,
        p is InvalidPayloadFormat ==> p.spec_code() == 0x0304,
        p is InvalidQos ==> p.spec_code() == 0x0305,
        p is PayloadLengthMismatch ==> p.spec_code() == 0x0306,
        p is UnexpectedMessageType ==> p.spec_code() == 0x0307,
        p is UnsupportedHandshakeVersion ==> p.spec_code() == 0x0308,
        p is TrustDomainMismatch ==> p.spec_code() == 0x0309,
        p is HandshakeNonceMismatch ==> p.spec_code() == 0x030A,
        p is InvalidHandshakePayload ==> p.spec_code() == 0x030B,
        p is UnexpectedPayloadFormat ==> p.spec_code() == 0x030C,
        !p.spec_retryable(),
{
}

} // verus!
