//! LAIC error types and stable error codes.
//!
//! Error hierarchy aligned with the logical architecture layers. Each error
//! carries a stable [`ErrorCode`] for cross-language SDK matching:
//! `0x01xx` transport, `0x02xx` codec, `0x03xx` protocol, `0x04xx` flow control.
use vstd::prelude::*;

mod protocol;

pub use protocol::ProtocolError;

use crate::text::{hex_padded, push_hex_padded};
use vstd::string::StringExecFns;

verus! {

// ---------------------------------------------------------------------------
// ErrorCode
// ---------------------------------------------------------------------------

/// Stable numeric error code for cross-language SDK compatibility.
#[derive(Clone, Copy, Debug, PartialEq, Eq, Structural, Hash)]
pub struct ErrorCode(pub(crate) u16);

impl View for ErrorCode {
    type V = u16;

    closed spec fn view(&self) -> u16 {
        self.0
    }
}

impl ErrorCode {
    /// Returns the raw `u16` value.
    pub fn as_u16(self) -> (r: u16)
        ensures
            r == self@,
    {
        self.0
    }

    /// The code as text: `0x` and four upper-case hex digits.
    pub open spec fn display(&self) -> Seq<char> {
        "0x"@ + hex_padded(self@ as nat, 4)
    }

    /// The code as text: `0x` and four upper-case hex digits.
    pub fn to_string(&self) -> (r: String)
        ensures
            r@ == self.display(),
    {
        let mut s = String::from_str("0x");
        push_hex_padded(&mut s, self.0 as u64, 4);
        s
    }
}

// ---------------------------------------------------------------------------
// LaicError
// ---------------------------------------------------------------------------

/// Top-level LAIC error; each variant maps to one architecture layer.
#[non_exhaustive]
#[derive(Debug)]
pub enum LaicError {
    /// Protocol-level: invalid header fields, version mismatch, payload length.
    Protocol(ProtocolError),
    /// Codec-level: serialization / deserialization failure.
    Codec(CodecError),
    /// Transport-level: connection, send/receive, or framing failure.
    Transport(TransportError),
    /// Flow control: credit exhaustion.
    Flow(FlowError),
}

impl LaicError {
    /// The code of the wrapped layer error.
    pub open spec fn spec_code(&self) -> u16 {
        match self {
            LaicError::Protocol(e) => e.spec_code(),
            LaicError::Codec(e) => e.spec_code(),
            LaicError::Transport(e) => e.spec_code(),
            LaicError::Flow(e) => e.spec_code(),
        }
    }

    /// Whether the wrapped layer error is retryable.
    pub open spec fn spec_retryable(&self) -> bool {
        match self {
            LaicError::Protocol(e) => e.spec_retryable(),
            LaicError::Codec(e) => e.spec_retryable(),
            LaicError::Transport(e) => e.spec_retryable(),
            LaicError::Flow(e) => e.spec_retryable(),
        }
    }

    /// Machine-readable error code for SDK matching.
    pub fn code(&self) -> (r: ErrorCode)
        ensures
            r@ == self.spec_code(),
    {
        match self {
            LaicError::Protocol(e) => e.code(),
            LaicError::Codec(e) => e.code(),
            LaicError::Transport(e) => e.code(),
            LaicError::Flow(e) => e.code(),
        }
    }

    /// Whether the caller should retry this operation (fail-closed).
    pub fn is_retryable(&self) -> (r: bool)
        ensures
            r == self.spec_retryable(),
    {
        match self {
            LaicError::Protocol(e) => e.is_retryable(),
            LaicError::Codec(e) => e.is_retryable(),
            LaicError::Transport(e) => e.is_retryable(),
            LaicError::Flow(e) => e.is_retryable(),
        }
    }

    /// Human-readable description, prefixed by the layer.
    pub open spec fn display(&self) -> Seq<char> {
        match self {
            LaicError::Protocol(e) => "protocol error: "@ + e.display(),
            LaicError::Codec(e) => "codec error: "@ + e.display(),
            LaicError::Transport(e) => "transport error: "@ + e.display(),
            LaicError::Flow(e) => "flow control error: "@ + e.display(),
        }
    }

    /// Human-readable description, prefixed by the layer.
    pub fn to_string(&self) -> (r: String)
        ensures
            r@ == self.display(),
    {
        let (mut s, inner) = match self {
            LaicError::Protocol(e) => (String::from_str("protocol error: "), e.to_string()),
            LaicError::Codec(e) => (String::from_str("codec error: "), e.to_string()),
            LaicError::Transport(e) => (String::from_str("transport error: "), e.to_string()),
            LaicError::Flow(e) => (String::from_str("flow control error: "), e.to_string()),
        };
        s.append(inner.as_str());
        s
    }
}

impl From<ProtocolError> for LaicError {
    fn from(e: ProtocolError) -> (r: Self) {
        LaicError::Protocol(e)
    }
}

impl vstd::std_specs::convert::FromSpecImpl<ProtocolError> for LaicError {
    open spec fn obeys_from_spec() -> bool {
        true
    }

    open spec fn from_spec(e: ProtocolError) -> Self {
        LaicError::Protocol(e)
    }
}

impl From<CodecError> for LaicError {
    fn from(e: CodecError) -> (r: Self) {
        LaicError::Codec(e)
    }
}

impl vstd::std_specs::convert::FromSpecImpl<CodecError> for LaicError {
    open spec fn obeys_from_spec() -> bool {
        true
    }

    open spec fn from_spec(e: CodecError) -> Self {
        LaicError::Codec(e)
    }
}

impl From<TransportError> for LaicError {
    fn from(e: TransportError) -> (r: Self) {
        LaicError::Transport(e)
    }
}

impl vstd::std_specs::convert::FromSpecImpl<TransportError> for LaicError {
    open spec fn obeys_from_spec() -> bool {
        true
    }

    open spec fn from_spec(e: TransportError) -> Self {
        LaicError::Transport(e)
    }
}

impl From<FlowError> for LaicError {
    fn from(e: FlowError) -> (r: Self) {
        LaicError::Flow(e)
    }
}

impl vstd::std_specs::convert::FromSpecImpl<FlowError> for LaicError {
    open spec fn obeys_from_spec() -> bool {
        true
    }

    open spec fn from_spec(e: FlowError) -> Self {
        LaicError::Flow(e)
    }
}

// ---------------------------------------------------------------------------
// TransportError
// ---------------------------------------------------------------------------

/// Transport-level errors (error codes `0x01xx`).
#[non_exhaustive]
#[derive(Debug)]
pub enum TransportError {
    /// Connection or session could not be established.
    ConnectionFailed {
        /// Error detail from the transport backend.
        detail: String,
    },
    /// Connection was lost or reset by peer.
    ConnectionLost {
        /// Error detail from the transport backend.
        detail: String,
    },
    /// Transport is not in a connected state.
    NotConnected,
    /// Send operation failed.
    SendFailed {
        /// Error detail from the transport backend.
        detail: String,
    },
    /// Receive operation failed.
    ReceiveFailed {
        /// Error detail from the transport backend.
        detail: String,
    },
    /// Operation timed out.
    Timeout {
        /// Name of the operation that timed out.
        operation: String,
    },
    /// Transport backpressure: bounded send queue is full.
    BackpressureFull,
    /// Transport is shutting down; no new operations accepted.
    ShuttingDown,
    /// Framing error: message could not be read from or written to the wire.
    FramingError {
        /// Error detail describing the framing issue.
        detail: String,
    },
}

impl TransportError {
    /// Which kind of transport error this is, by declaration order.
    pub open spec fn kind(&self) -> nat {
        match self {
            TransportError::ConnectionFailed { .. } => 0,
            TransportError::ConnectionLost { .. } => 1,
            TransportError::NotConnected => 2,
            TransportError::SendFailed { .. } => 3,
            TransportError::ReceiveFailed { .. } => 4,
            TransportError::Timeout { .. } => 5,
            TransportError::BackpressureFull => 6,
            TransportError::ShuttingDown => 7,
            TransportError::FramingError { .. } => 8,
        }
    }

    /// Stable code within the `0x01xx` range.
    pub open spec fn spec_code(&self) -> u16 {
        match self {
            TransportError::ConnectionFailed { .. } => 0x0101,
            TransportError::ConnectionLost { .. } => 0x0102,
            TransportError::NotConnected => 0x0103,
            TransportError::SendFailed { .. } => 0x0104,
            TransportError::ReceiveFailed { .. } => 0x0105,
            TransportError::Timeout { .. } => 0x0106,
            TransportError::BackpressureFull => 0x0107,
            TransportError::ShuttingDown => 0x0108,
            TransportError::FramingError { .. } => 0x0109,
        }
    }

    /// Transient failures are retryable; permanent states and framing
    /// corruption are not.
    pub open spec fn spec_retryable(&self) -> bool {
        match self {
            TransportError::NotConnected
            | TransportError::ShuttingDown
            | TransportError::FramingError { .. } => false,
            _ => true,
        }
    }

    /// Stable error code within the `0x01xx` range.
    pub fn code(&self) -> (r: ErrorCode)
        ensures
            r@ == self.spec_code(),
    {
        match self {
            TransportError::ConnectionFailed { .. } => ErrorCode(0x0101),
            TransportError::ConnectionLost { .. } => ErrorCode(0x0102),
            TransportError::NotConnected => ErrorCode(0x0103),
            TransportError::SendFailed { .. } => ErrorCode(0x0104),
            TransportError::ReceiveFailed { .. } => ErrorCode(0x0105),
            TransportError::Timeout { .. } => ErrorCode(0x0106),
            TransportError::BackpressureFull => ErrorCode(0x0107),
            TransportError::ShuttingDown => ErrorCode(0x0108),
            TransportError::FramingError { .. } => ErrorCode(0x0109),
        }
    }

    /// Whether the caller should retry this operation.
    pub fn is_retryable(&self) -> (r: bool)
        ensures
            r == self.spec_retryable(),
    {
        match self {
            TransportError::ConnectionFailed { .. }
            | TransportError::ConnectionLost { .. }
            | TransportError::SendFailed { .. }
            | TransportError::ReceiveFailed { .. }
            | TransportError::Timeout { .. }
            | TransportError::BackpressureFull => true,
            TransportError::NotConnected
            | TransportError::ShuttingDown
            | TransportError::FramingError { .. } => false,
        }
    }

    /// Human-readable description of the error.
    pub open spec fn display(&self) -> Seq<char> {
        match self {
            TransportError::ConnectionFailed { detail } => "connection failed: "@ + detail@,
            TransportError::ConnectionLost { detail } => "connection lost: "@ + detail@,
            TransportError::NotConnected => "not connected"@,
            TransportError::SendFailed { detail } => "send failed: "@ + detail@,
            TransportError::ReceiveFailed { detail } => "receive failed: "@ + detail@,
            TransportError::Timeout { operation } => "timeout: "@ + operation@,
            TransportError::BackpressureFull => "backpressure: send queue full"@,
            TransportError::ShuttingDown => "transport shutting down"@,
            TransportError::FramingError { detail } => "framing error: "@ + detail@,
        }
    }

    /// Human-readable description of the error.
    pub fn to_string(&self) -> (r: String)
        ensures
            r@ == self.display(),
    {
        let (mut s, detail) = match self {
            TransportError::ConnectionFailed { detail } => (
                String::from_str("connection failed: "),
                detail.as_str(),
            ),
            TransportError::ConnectionLost { detail } => (
                String::from_str("connection lost: "),
                detail.as_str(),
            ),
            TransportError::NotConnected => (String::from_str("not connected"), ""),
            TransportError::SendFailed { detail } => (
                String::from_str("send failed: "),
                detail.as_str(),
            ),
            TransportError::ReceiveFailed { detail } => (
                String::from_str("receive failed: "),
                detail.as_str(),
            ),
            TransportError::Timeout { operation } => (
                String::from_str("timeout: "),
                operation.as_str(),
            ),
            TransportError::BackpressureFull => (
                String::from_str("backpressure: send queue full"),
                "",
            ),
            TransportError::ShuttingDown => (String::from_str("transport shutting down"), ""),
            TransportError::FramingError { detail } => (
                String::from_str("framing error: "),
                detail.as_str(),
            ),
        };
        proof {
            reveal_strlit("");
        }
        s.append(detail);
        assert(s@ =~= self.display());
        s
    }
}

// ---------------------------------------------------------------------------
// CodecError
// ---------------------------------------------------------------------------

/// Codec-level errors (error codes `0x02xx`).
#[non_exhaustive]
#[derive(Debug)]
pub enum CodecError {
    /// Failed to serialize an Arrow `RecordBatch` to IPC bytes.
    ArrowEncode {
        /// Error detail from the Arrow library.
        detail: String,
    },
    /// Failed to deserialize Arrow IPC bytes to a `RecordBatch`.
    ArrowDecode {
        /// Error detail from the Arrow library.
        detail: String,
    },
    /// Failed to serialize a Protobuf message.
    ProtoEncode {
        /// Error detail from the protobuf library.
        detail: String,
    },
    /// Failed to deserialize Protobuf bytes to a message.
    ProtoDecode {
        /// Error detail from the protobuf library.
        detail: String,
    },
}

impl CodecError {
    /// Which kind of codec error this is, by declaration order.
    pub open spec fn kind(&self) -> nat {
        match self {
            CodecError::ArrowEncode { .. } => 0,
            CodecError::ArrowDecode { .. } => 1,
            CodecError::ProtoEncode { .. } => 2,
            CodecError::ProtoDecode { .. } => 3,
        }
    }

    /// Stable code within the `0x02xx` range.
    pub open spec fn spec_code(&self) -> u16 {
        match self {
            CodecError::ArrowEncode { .. } => 0x0201,
            CodecError::ArrowDecode { .. } => 0x0202,
            CodecError::ProtoEncode { .. } => 0x0203,
            CodecError::ProtoDecode { .. } => 0x0204,
        }
    }

    /// Codec errors are never retryable.
    pub open spec fn spec_retryable(&self) -> bool {
        false
    }

    /// Stable error code within the `0x02xx` range.
    pub fn code(&self) -> (r: ErrorCode)
        ensures
            r@ == self.spec_code(),
    {
        match self {
            CodecError::ArrowEncode { .. } => ErrorCode(0x0201),
            CodecError::ArrowDecode { .. } => ErrorCode(0x0202),
            CodecError::ProtoEncode { .. } => ErrorCode(0x0203),
            CodecError::ProtoDecode { .. } => ErrorCode(0x0204),
        }
    }

    /// Whether the caller should retry: never for malformed data.
    pub fn is_retryable(&self) -> (r: bool)
        ensures
            r == self.spec_retryable(),
    {
        false
    }

    /// Human-readable description of the error.
    pub open spec fn display(&self) -> Seq<char> {
        match self {
            CodecError::ArrowEncode { detail } => "Arrow encode failed: "@ + detail@,
            CodecError::ArrowDecode { detail } => "Arrow decode failed: "@ + detail@,
            CodecError::ProtoEncode { detail } => "Protobuf encode failed: "@ + detail@,
            CodecError::ProtoDecode { detail } => "Protobuf decode failed: "@ + detail@,
        }
    }

    /// Human-readable description of the error.
    pub fn to_string(&self) -> (r: String)
        ensures
            r@ == self.display(),
    {
        let (mut s, detail) = match self {
            CodecError::ArrowEncode { detail } => (
                String::from_str("Arrow encode failed: "),
                detail.as_str(),
            ),
            CodecError::ArrowDecode { detail } => (
                String::from_str("Arrow decode failed: "),
                detail.as_str(),
            ),
            CodecError::ProtoEncode { detail } => (
                String::from_str("Protobuf encode failed: "),
                detail.as_str(),
            ),
            CodecError::ProtoDecode { detail } => (
                String::from_str("Protobuf decode failed: "),
                detail.as_str(),
            ),
        };
        s.append(detail);
        s
    }
}

// ---------------------------------------------------------------------------
// FlowError
// ---------------------------------------------------------------------------

/// Flow control errors (error codes `0x04xx`).
#[non_exhaustive]
#[derive(Debug)]
pub enum FlowError {
    /// Sender has no remaining credits; must wait for peer to replenish.
    CreditExhausted,
}

impl FlowError {
    /// Stable code within the `0x04xx` range.
    pub open spec fn spec_code(&self) -> u16 {
        match self {
            FlowError::CreditExhausted => 0x0401,
        }
    }

    /// Credit exhaustion is retryable once the peer grants credits.
    pub open spec fn spec_retryable(&self) -> bool {
        match self {
            FlowError::CreditExhausted => true,
        }
    }

    /// Stable error code within the `0x04xx` range.
    pub fn code(&self) -> (r: ErrorCode)
        ensures
            r@ == self.spec_code(),
    {
        match self {
            FlowError::CreditExhausted => ErrorCode(0x0401),
        }
    }

    /// Whether the caller should retry this operation.
    pub fn is_retryable(&self) -> (r: bool)
        ensures
            r == self.spec_retryable(),
    {
        match self {
            FlowError::CreditExhausted => true,
        }
    }

    /// Human-readable description of the error.
    pub open spec fn display(&self) -> Seq<char> {
        match self {
            FlowError::CreditExhausted => "credit exhausted: no credits remaining"@,
        }
    }

    /// Human-readable description of the error.
    pub fn to_string(&self) -> (r: String)
        ensures
            r@ == self.display(),
    {
        match self {
            FlowError::CreditExhausted => String::from_str(
                "credit exhausted: no credits remaining",
            ),
        }
    }
}

// ---------------------------------------------------------------------------
// Laws of the error codes
// ---------------------------------------------------------------------------

/// Every error code lies in its layer's range: `0x01xx` transport, `0x02xx`
/// codec, `0x03xx` protocol, `0x04xx` flow control; so no two layers share
/// a code.
pub proof fn lemma_codes_in_layer_ranges(
    t: TransportError,
    c: CodecError,
    p: ProtocolError,
    f: FlowError,
)
    ensures
        0x0100 <= t.spec_code() < 0x0200,
        0x0200 <= c.spec_code() < 0x0300,
        0x0300 <= p.spec_code() < 0x0400,
        0x0400 <= f.spec_code() < 0x0500,
{
}

/// Within a layer, two errors share a code exactly when they are the same
/// kind of error.
pub proof fn lemma_codes_unique_per_kind(
    t1: TransportError,
    t2: TransportError,
    c1: CodecError,
    c2: CodecError,
    p1: ProtocolError,
    p2: ProtocolError,
)
    ensures
        (t1.spec_code() == t2.spec_code()) <==> t1.kind() == t2.kind(),
        (c1.spec_code() == c2.spec_code()) <==> c1.kind() == c2.kind(),
        (p1.spec_code() == p2.spec_code()) <==> p1.kind() == p2.kind(),
{
}

/// Wrapping a layer error keeps its code and its retryability; protocol
/// and codec errors are never retryable, credit exhaustion always is.
pub proof fn lemma_wrapping_keeps_code(
    t: TransportError,
    c: CodecError,
    p: ProtocolError,
    f: FlowError,
)
    ensures
        LaicError::Transport(t).spec_code() == t.spec_code(),
        LaicError::Codec(c).spec_code() == c.spec_code(),
        LaicError::Protocol(p).spec_code() == p.spec_code(),
        LaicError::Flow(f).spec_code() == f.spec_code(),
        LaicError::Transport(t).spec_retryable() == t.spec_retryable(),
        !LaicError::Codec(c).spec_retryable(),
        !LaicError::Protocol(p).spec_retryable(),
        LaicError::Flow(f).spec_retryable(),
{
}

/// Every error carries its documented code, whatever its details:
/// transport `ConnectionFailed` 0x0101, `ConnectionLost` 0x0102,
/// `NotConnected` 0x0103, `SendFailed` 0x0104, `ReceiveFailed` 0x0105,
/// `Timeout` 0x0106, `BackpressureFull` 0x0107, `ShuttingDown` 0x0108,
/// `FramingError` 0x0109; codec `ArrowEncode` 0x0201, `ArrowDecode` 0x0202,
/// `ProtoEncode` 0x0203, `ProtoDecode` 0x0204; credit exhaustion 0x0401.
/// Transient transport failures (connection failed or lost, send or
/// receive failed, timeout, backpressure) are retryable; not connected,
/// shutting down and framing errors are not.
pub proof fn lemma_documented_codes(t: TransportError, c: CodecError, f: FlowError)
    ensures
        t is ConnectionFailed ==> t.spec_code() == 0x0101 && t.spec_retryable(),
        t is ConnectionLost ==> t.spec_code() == 0x0102 && t.spec_retryable(),
        t is NotConnected ==> t.spec_code() == 0x0103 && !t.spec_retryable(),
        t is SendFailed ==> t.spec_code() == 0x0104 && t.spec_retryable(),
        t is ReceiveFailed ==> t.spec_code() == 0x0105 && t.spec_retryable(),
        t is Timeout ==> t.spec_code() == 0x0106 && t.spec_retryable(),
        t is BackpressureFull ==> t.spec_code() == 0x0107 && t.spec_retryable(),
        t is ShuttingDown ==> t.spec_code() == 0x0108 && !t.spec_retryable(),
        t is FramingError ==> t.spec_code() == 0x0109 && !t.spec_retryable(),
        c is ArrowEncode ==> c.spec_code() == 0x0201,
        c is ArrowDecode ==> c.spec_code() == 0x0202,
        c is ProtoEncode ==> c.spec_code() == 0x0203,
        c is ProtoDecode ==> c.spec_code() == 0x0204,
        f is CreditExhausted ==> f.spec_code() == 0x0401 && f.spec_retryable(),
{
}

} // verus!
