//! A protocol engine for the Z-Wave serial link between a host and its
//! controller: checksums, frame recognition, message decoding and the
//! acknowledgment handshake, each stated and proved with Verus.

pub mod checksum;
pub mod message;
pub mod frame;
pub mod handshake;
pub mod engine;
