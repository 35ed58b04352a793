//! Protocol core: constants, header wire format and message definitions.
pub mod constants;
pub mod header;
pub mod message;
