//! Deterministic bitcoin commitments: proofs, containers and the two
//! commitment strategies (plain public key and taproot).

pub mod curve;
pub mod pubkey;
pub mod taproot;
pub mod types;
