//! Data-availability core of a stake-weighted BFT consensus node: membership
//! and threshold arithmetic, domain-separated vote commitments, vote
//! accumulation into certificates, certificate checks, and the per-node DA
//! state machine.

pub mod bytes;
pub mod error;
pub mod election;
pub mod vote;
pub mod message;
pub mod certificate;
pub mod accumulator;
pub mod storage;
pub mod da;
pub mod exchange;
