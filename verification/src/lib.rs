//! Secure-transport core for a peer-to-peer overlay: signed identity
//! handshakes, session-key derivation, authenticated payload layering, and a
//! fixed-size packet envelope with CRC-32 framing.

pub mod handshake;
pub mod header;
pub mod helper;
pub mod identity;
pub mod packet;
pub mod primitives;
pub mod wire;
