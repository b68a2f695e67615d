//! The messages that nodes exchange: proposals, votes of each kind and
//! certificates.

use vstd::prelude::*;

use crate::bytes::{byte_strings, sha256, sha256_of};
use crate::vote::{vote_commitment, VoteData, VoteKind};

verus! {

/// The payload that a leader proposes for a view.
#[derive(Debug, Clone)]
pub struct DaProposal {
    /// The view this payload is proposed for.
    pub view_number: u64,
    /// The encoded block payload.
    pub encoded_transactions: Vec<u8>,
    /// Block metadata.
    pub metadata: Vec<u8>,
}

/// Mathematical value of a `DaProposal`.
pub struct DaProposalModel {
    pub view_number: u64,
    pub encoded_transactions: Seq<u8>,
    pub metadata: Seq<u8>,
}

impl View for DaProposal {
    type V = DaProposalModel;

    open spec fn view(&self) -> DaProposalModel {
        DaProposalModel {
            view_number: self.view_number,
            encoded_transactions: self.encoded_transactions@,
            metadata: self.metadata@,
        }
    }
}

impl DaProposal {
    /// The digest that the leader signs: the SHA-256 hash of the encoded
    /// transactions.
    pub fn payload_digest(&self) -> (r: Vec<u8>)
        ensures
            r@ == sha256_of(self.encoded_transactions@),
    {
        sha256(self.encoded_transactions.as_slice())
    }

    /// A copy with the same contents.
    pub fn duplicate(&self) -> (r: DaProposal)
        ensures
            r@ == self@,
    {
        DaProposal {
            view_number: self.view_number,
            encoded_transactions: self.encoded_transactions.clone(),
            metadata: self.metadata.clone(),
        }
    }
}

/// A proposal together with the signature of the view leader over its
/// payload digest.
#[derive(Debug, Clone)]
pub struct Proposal {
    /// The data being proposed.
    pub data: DaProposal,
    /// The proposal must be signed by the view leader
    pub signature: Vec<u8>,
}

/// Mathematical value of a `Proposal`.
pub struct ProposalModel {
    pub data: DaProposalModel,
    pub signature: Seq<u8>,
}

impl View for Proposal {
    type V = ProposalModel;

    open spec fn view(&self) -> ProposalModel {
        ProposalModel { data: self.data@, signature: self.signature@ }
    }
}

impl Proposal {
    /// A copy with the same contents.
    pub fn duplicate(&self) -> (r: Proposal)
        ensures
            r@ == self@,
    {
        Proposal { data: self.data.duplicate(), signature: self.signature.clone() }
    }
}

/// A vote on a DA proposal: the signer's signature over the commitment of
/// `VoteData::DA(payload_commit)`.
#[derive(Debug, Clone)]
pub struct DAVote {
    /// The view this vote was cast for.
    pub view_number: u64,
    /// The payload commitment voted on.
    pub payload_commit: Vec<u8>,
    /// Public key of the voter.
    pub signer: Vec<u8>,
    /// Signature of the voter.
    pub signature: Vec<u8>,
}

/// Mathematical value of a `DAVote`.
pub struct DAVoteModel {
    pub view_number: u64,
    pub payload_commit: Seq<u8>,
    pub signer: Seq<u8>,
    pub signature: Seq<u8>,
}

impl View for DAVote {
    type V = DAVoteModel;

    open spec fn view(&self) -> DAVoteModel {
        DAVoteModel {
            view_number: self.view_number,
            payload_commit: self.payload_commit@,
            signer: self.signer@,
            signature: self.signature@,
        }
    }
}

impl DAVote {
    /// The vote data this vote signs.
    pub fn vote_data(&self) -> (r: VoteData)
        ensures
            r@ == (VoteKind::DA, self.payload_commit@),
    {
        VoteData::DA(self.payload_commit.clone())
    }

    /// The message that the signer's signature must verify over.
    pub fn signing_message(&self) -> (r: Vec<u8>)
        ensures
            r@ == vote_commitment(VoteKind::DA, self.payload_commit@),
    {
        self.vote_data().commit()
    }

    /// A copy with the same contents.
    pub fn duplicate(&self) -> (r: DAVote)
        ensures
            r@ == self@,
    {
        DAVote {
            view_number: self.view_number,
            payload_commit: self.payload_commit.clone(),
            signer: self.signer.clone(),
            signature: self.signature.clone(),
        }
    }
}

/// A threshold certificate: the members of the stake table that signed the
/// same vote data, as a bitset aligned with the table, and their signatures
/// at the same positions (empty where the bit is clear).
#[derive(Debug, Clone)]
pub struct Certificate {
    /// The view the votes were cast for.
    pub view_number: u64,
    /// What the votes signed.
    pub vote_data: VoteData,
    /// Which members of the stake table signed.
    pub signers: Vec<bool>,
    /// The signature of each member that signed.
    pub signatures: Vec<Vec<u8>>,
    /// Marks the certificate that stands for the genesis view.
    pub genesis: bool,
}

/// Mathematical value of a `Certificate`.
pub struct CertificateModel {
    pub view_number: u64,
    pub vote_data: (VoteKind, Seq<u8>),
    pub signers: Seq<bool>,
    pub signatures: Seq<Seq<u8>>,
    pub genesis: bool,
}

impl View for Certificate {
    type V = CertificateModel;

    open spec fn view(&self) -> CertificateModel {
        CertificateModel {
            view_number: self.view_number,
            vote_data: self.vote_data@,
            signers: self.signers@,
            signatures: byte_strings(self.signatures@),
            genesis: self.genesis,
        }
    }
}

impl Certificate {
    /// The certificate of the genesis view, which needs no signature.
    pub fn genesis() -> (r: Certificate)
        ensures
            r.genesis,
            r.view_number == 0,
            r@.vote_data == (VoteKind::DA, Seq::<u8>::empty()),
            r.signers@.len() == 0,
            r.signatures@.len() == 0,
    {
        Certificate {
            view_number: 0,
            vote_data: VoteData::DA(Vec::new()),
            signers: Vec::new(),
            signatures: Vec::new(),
            genesis: true,
        }
    }

    /// A certificate for `view_number` on `commit` of kind `kind`, signed
    /// by the members that `signers` selects with `signatures`.
    pub fn from_signatures_and_commitment(
        view_number: u64,
        kind: VoteKind,
        signers: Vec<bool>,
        signatures: Vec<Vec<u8>>,
        commit: Vec<u8>,
    ) -> (r: Certificate)
        ensures
            r@ == (CertificateModel {
                view_number,
                vote_data: (kind, commit@),
                signers: signers@,
                signatures: byte_strings(signatures@),
                genesis: false,
            }),
    {
        Certificate {
            view_number,
            vote_data: VoteData::new(kind, commit),
            signers,
            signatures,
            genesis: false,
        }
    }

    /// Replaces the commitment the certificate is for, keeping its kind.
    pub fn set_leaf_commitment(&mut self, commitment: Vec<u8>)
        ensures
            final(self)@ == (CertificateModel {
                vote_data: (old(self)@.vote_data.0, commitment@),
                ..old(self)@
            }),
    {
        let k = self.vote_data.kind();
        self.vote_data = VoteData::new(k, commitment);
    }

    /// The view number.
    pub fn view_number(&self) -> (r: u64)
        ensures
            r == self.view_number,
    {
        self.view_number
    }

    /// The commitment the certificate is for.
    pub fn leaf_commitment(&self) -> (r: &Vec<u8>)
        ensures
            r@ == self.vote_data@.1,
    {
        self.vote_data.value()
    }

    /// Whether this is the genesis certificate.
    pub fn is_genesis(&self) -> (r: bool)
        ensures
            r == self.genesis,
    {
        self.genesis
    }

    /// The message every signature of the certificate verifies over.
    pub fn signing_message(&self) -> (r: Vec<u8>)
        ensures
            r@ == vote_commitment(self.vote_data@.0, self.vote_data@.1),
    {
        self.vote_data.commit()
    }
}

/// A positive or negative vote on a proposed leaf.
#[derive(Debug, Clone)]
pub struct YesOrNoVote {
    /// Commitment to the certificate the proposal extends.
    pub justify_qc_commitment: Vec<u8>,
    /// Public key of the voter.
    pub signer: Vec<u8>,
    /// Signature of the voter.
    pub signature: Vec<u8>,
    /// The leaf commitment voted on.
    pub leaf_commitment: Vec<u8>,
    /// The view this vote was cast for.
    pub current_view: u64,
}

/// A timeout vote.
#[derive(Debug, Clone)]
pub struct TimeoutVote {
    /// The certificate the voter holds as justification.
    pub justify_qc: Certificate,
    /// Public key of the voter.
    pub signer: Vec<u8>,
    /// Signature of the voter.
    pub signature: Vec<u8>,
    /// The view this vote was cast for.
    pub current_view: u64,
}

/// Votes sent by consensus messages.
#[derive(Debug, Clone)]
pub enum Vote {
    /// The vote on a DA proposal.
    DA(DAVote),
    /// Positive vote on a validating or commitment proposal.
    Yes(YesOrNoVote),
    /// Negative vote on a validating or commitment proposal.
    No(YesOrNoVote),
    /// Timeout vote.
    Timeout(TimeoutVote),
}

/// Internal triggers sent by consensus messages.
#[derive(Debug, Clone, Copy, PartialEq, Eq, Structural)]
pub enum InternalTrigger {
    /// Internal timeout at the specified view number.
    Timeout(u64),
}

/// Messages related to the consensus protocol.
#[derive(Debug, Clone)]
pub enum ConsensusMessage {
    /// Leader's proposal
    Proposal(Proposal),
    /// Replica's vote on a proposal.
    Vote(Vote),
    /// Internal only: a view interrupt for the given view.
    InternalTrigger(InternalTrigger),
}

/// A consensus message with the key of its sender.
#[derive(Debug, Clone)]
pub enum ProcessedConsensusMessage {
    /// Leader's proposal
    Proposal(Proposal, Vec<u8>),
    /// Replica's vote on a proposal.
    Vote(Vote, Vec<u8>),
    /// Internal only: a view interrupt.
    InternalTrigger(InternalTrigger),
}

/// The view a vote was cast for.
pub open spec fn vote_view(v: Vote) -> u64 {
    match v {
        Vote::DA(d) => d.view_number,
        Vote::Yes(y) => y.current_view,
        Vote::No(n) => n.current_view,
        Vote::Timeout(t) => t.current_view,
    }
}

/// The view a consensus message belongs to.
pub open spec fn message_view(m: ConsensusMessage) -> u64 {
    match m {
        ConsensusMessage::Proposal(p) => p.data.view_number,
        ConsensusMessage::Vote(v) => vote_view(v),
        ConsensusMessage::InternalTrigger(InternalTrigger::Timeout(t)) => t,
    }
}

impl ConsensusMessage {
    /// The view number of the leader or replica when the message was sent,
    /// or the view of the timeout.
    pub fn view_number(&self) -> (r: u64)
        ensures
            r == message_view(*self),
    {
        match self {
            ConsensusMessage::Proposal(p) => p.data.view_number,
            ConsensusMessage::Vote(vote_message) => match vote_message {
                Vote::DA(v) => v.view_number,
                Vote::Yes(v) | Vote::No(v) => v.current_view,
                Vote::Timeout(v) => v.current_view,
            },
            ConsensusMessage::InternalTrigger(trigger) => match trigger {
                InternalTrigger::Timeout(time) => *time,
            },
        }
    }
}

impl ProcessedConsensusMessage {
    /// Attaches the sender's key to a consensus message; an internal trigger
    /// has no sender.
    pub fn new(value: ConsensusMessage, sender: Vec<u8>) -> (r: Self)
        ensures
            match value {
                ConsensusMessage::Proposal(p) => r == ProcessedConsensusMessage::Proposal(p, sender),
                ConsensusMessage::Vote(v) => r == ProcessedConsensusMessage::Vote(v, sender),
                ConsensusMessage::InternalTrigger(a) => r
                    == ProcessedConsensusMessage::InternalTrigger(a),
            },
    {
        match value {
            ConsensusMessage::Proposal(p) => ProcessedConsensusMessage::Proposal(p, sender),
            ConsensusMessage::Vote(v) => ProcessedConsensusMessage::Vote(v, sender),
            ConsensusMessage::InternalTrigger(a) => ProcessedConsensusMessage::InternalTrigger(a),
        }
    }
}

/// Drops the sender of a processed message.
pub open spec fn strip_sender(value: ProcessedConsensusMessage) -> ConsensusMessage {
    match value {
        ProcessedConsensusMessage::Proposal(p, _) => ConsensusMessage::Proposal(p),
        ProcessedConsensusMessage::Vote(v, _) => ConsensusMessage::Vote(v),
        ProcessedConsensusMessage::InternalTrigger(a) => ConsensusMessage::InternalTrigger(a),
    }
}

impl From<ProcessedConsensusMessage> for ConsensusMessage {
    fn from(value: ProcessedConsensusMessage) -> (r: ConsensusMessage) {
        match value {
            ProcessedConsensusMessage::Proposal(p, _) => ConsensusMessage::Proposal(p),
            ProcessedConsensusMessage::Vote(v, _) => ConsensusMessage::Vote(v),
            ProcessedConsensusMessage::InternalTrigger(a) => ConsensusMessage::InternalTrigger(a),
        }
    }
}

impl vstd::std_specs::convert::FromSpecImpl<ProcessedConsensusMessage> for ConsensusMessage {
    open spec fn obeys_from_spec() -> bool {
        true
    }

    open spec fn from_spec(v: ProcessedConsensusMessage) -> ConsensusMessage {
        strip_sender(v)
    }
}

/// Messages that share data between nodes.
#[derive(Debug, Clone)]
pub enum DataMessage {
    /// The newest entry that a node knows, sent by existing nodes to a node
    /// that joins the network.
    NewestQuorumCertificate {
        /// The newest quorum certificate.
        quorum_certificate: Certificate,
        /// The relevant block, encoded.
        block: Vec<u8>,
        /// The relevant state commitment.
        state: Vec<u8>,
        /// The parent leaf's commitment.
        parent_commitment: Vec<u8>,
        /// Transactions rejected in this view.
        rejected: Vec<Vec<u8>>,
        /// The proposer's key.
        proposer_id: Vec<u8>,
    },
    /// A transaction to be submitted.
    SubmitTransaction(Vec<u8>),
}

/// Any message a node sends.
#[derive(Debug, Clone)]
pub enum MessageKind {
    /// Messages related to the consensus protocol
    Consensus(ConsensusMessage),
    /// Messages sharing data between nodes
    Data(DataMessage),
}

/// An incoming message with its sender.
#[derive(Debug, Clone)]
pub struct Message {
    /// The sender of this message
    pub sender: Vec<u8>,
    /// The message kind
    pub kind: MessageKind,
}

impl From<ConsensusMessage> for MessageKind {
    fn from(m: ConsensusMessage) -> (r: MessageKind) {
        MessageKind::Consensus(m)
    }
}

impl vstd::std_specs::convert::FromSpecImpl<ConsensusMessage> for MessageKind {
    open spec fn obeys_from_spec() -> bool {
        true
    }

    open spec fn from_spec(m: ConsensusMessage) -> MessageKind {
        MessageKind::Consensus(m)
    }
}

impl From<DataMessage> for MessageKind {
    fn from(m: DataMessage) -> (r: MessageKind) {
        MessageKind::Data(m)
    }
}

impl vstd::std_specs::convert::FromSpecImpl<DataMessage> for MessageKind {
    open spec fn obeys_from_spec() -> bool {
        true
    }

    open spec fn from_spec(m: DataMessage) -> MessageKind {
        MessageKind::Data(m)
    }
}

} // verus!
