//! Deterministic commitments embedded into public keys and taproot outputs,
//! together with the message framing types that carry them.

pub mod commit_verify;
pub mod dbc;
pub mod presentation;
