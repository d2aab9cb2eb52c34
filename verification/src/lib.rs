//! Verification of sampled block proofs for a proof-of-work light client.
//!
//! A server answers a sampling challenge with sampled headers, the most recent
//! headers and a Merkle Mountain Range proof. This library decides whether such
//! an answer shows that the claimed tip heads a valid chain.

pub mod continuity;
pub mod difficulty;
pub mod epoch;
pub mod header;
pub mod matching;
pub mod messages;
pub mod mmr;
pub mod process;
pub mod status;
pub mod trend;
pub mod u256;
