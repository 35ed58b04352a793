//! Payload codecs: the decisions around Arrow IPC decoding.
//!
//! Each LAIC Arrow message carries exactly one record batch. The Arrow and
//! protobuf libraries encode and decode; this module decides what a read
//! stream amounts to.
pub mod arrow;
