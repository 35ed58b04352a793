//! LAIC — Latrix AI Interconnect: protocol core, verified.
//!
//! Message header wire format, messages, error codes, credit-based flow
//! control, communication patterns, trust-domain handshake decisions and
//! frame layouts for the QUIC, IPC and emergency transports.
pub mod codec;
pub mod emergency;
pub mod error;
pub mod text;
pub mod transport;

pub mod flow;
pub mod handshake;
pub mod pattern;
pub mod protocol;

pub use error::{CodecError, ErrorCode, FlowError, LaicError, ProtocolError, TransportError};
pub use flow::CreditController;
pub use handshake::{ClientHandshakeConfig, ServerHandshakeConfig, TrustDomainSession};

pub use protocol::constants::{MsgType, PayloadFormat, Qos};
pub use protocol::header::MessageHeader;
pub use protocol::message::Message;
