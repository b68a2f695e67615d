//! Reasons for which an input is dropped.

use vstd::prelude::*;

verus! {

/// Why a proposal, vote or view change was not acted on. The protocol
/// tolerates dropped messages: these are logged and the node goes on.
#[derive(Debug, Clone, Copy, PartialEq, Eq, Structural)]
pub enum ValidationError {
    /// The input belongs to a view that is too old.
    StaleView,
    /// A payload is already saved for the proposal's view.
    DuplicatePayload,
    /// The proposal was not sent by the leader of its view.
    WrongLeader,
    /// The leader's signature over the proposal does not verify.
    BadSignature,
    /// This node does not lead the vote's view.
    NotLeader,
    /// The voter is not a member of the stake table.
    UnknownSigner,
    /// The voter has already voted for this view.
    DuplicateSigner,
    /// The vote's signature does not verify.
    InvalidSignature,
}

} // verus!
