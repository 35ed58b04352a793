//! Transport layer: what the QUIC and IPC backends compute.
//!
//! Transports follow one lifecycle: open, exchange messages, close. Once
//! closed, every operation is refused with `ShuttingDown`. QUIC streams
//! carry `[40-byte header][payload_len bytes of payload]` frames with no
//! extra length prefix; IPC shared-memory slots carry a 40-byte header and
//! a fixed 64 KiB payload buffer.
use vstd::prelude::*;

use crate::error::{LaicError, TransportError};

pub mod framing;
pub mod ipc;
pub mod service;

pub use framing::MAX_PAYLOAD_LEN;
pub use ipc::MAX_IPC_PAYLOAD_LEN;

verus! {

/// Lifecycle state of a connection: open until closed, closed for good.
pub struct ChannelState {
    closed: bool,
}

impl View for ChannelState {
    type V = bool;

    closed spec fn view(&self) -> bool {
        self.closed
    }
}

impl ChannelState {
    /// A freshly opened connection.
    pub fn new() -> (r: Self)
        ensures
            !r@,
    {
        ChannelState { closed: false }
    }

    /// Mark the connection closed; closing twice is harmless.
    pub fn close(&mut self)
        ensures
            final(self)@,
    {
        self.closed = true;
    }

    /// Whether the connection has been closed.
    pub fn is_closed(&self) -> (r: bool)
        ensures
            r == self@,
    {
        self.closed
    }

    /// Admit an operation: refused with `ShuttingDown` once closed.
    pub fn check_open(&self) -> (r: Result<(), LaicError>)
        ensures
            self@ ==> r == Err::<(), LaicError>(LaicError::Transport(TransportError::ShuttingDown)),
            !self@ ==> r is Ok,
    {
        if self.closed {
            return Err(LaicError::Transport(TransportError::ShuttingDown));
        }
        Ok(())
    }
}

/// `e` is a framing error with this detail text.
pub open spec fn framing_error(e: LaicError, text: Seq<char>) -> bool {
    e matches LaicError::Transport(TransportError::FramingError { detail }) && detail@ == text
}

} // verus!
