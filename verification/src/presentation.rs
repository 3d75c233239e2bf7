//! Framing of typed messages: a two-byte type identifier followed by an
//! opaque payload, with even/odd semantics for unknown types.

pub mod message;
pub mod tlv;
