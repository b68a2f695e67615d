//! Exchanges: what one node needs to take part in a sub-protocol — the
//! committee, its own key, the vote data it signs and the checks it applies
//! to votes and certificates. One exchange per sub-protocol: data
//! availability (`CommitteeExchange`), quorum (`QuorumExchange`) and view
//! synchronisation (`ViewSyncExchange`).

use vstd::prelude::*;
use vstd::bytes::{spec_u64_to_le_bytes, u64_to_le_bytes};
use vstd::string::StringSliceAdditionalSpecFns;

use crate::accumulator::{append_spec, AppendOutcome, VoteAccumulator};
use crate::bytes::{append_bytes, copy_bytes, keccak256, keccak256_of};
use crate::certificate::{cert_valid_spec, check_certificate};
use crate::election::{is_member, success_threshold_of, total_stake, Membership, StakeEntry};
use crate::message::{Certificate, CertificateModel};
use crate::vote::{label_separator, vote_commitment, VoteData, VoteKind};

verus! {

/// Whether `k` is one of the view-synchronisation kinds.
pub open spec fn is_view_sync_kind(k: VoteKind) -> bool {
    k == VoteKind::ViewSyncPreCommit || k == VoteKind::ViewSyncCommit || k
        == VoteKind::ViewSyncFinalize
}

/// Validity of a certificate of a DA, yes, no or timeout vote for the value
/// `c`, against `table` at `threshold`: view-synchronisation certificates
/// have their own check and never pass this one.
pub open spec fn exchange_cert_valid(
    table: Seq<StakeEntry>,
    threshold: u64,
    cert: CertificateModel,
    c: Seq<u8>,
    signatures_valid: bool,
) -> bool {
    if cert.genesis && cert.view_number == 0 {
        true
    } else if is_view_sync_kind(cert.vote_data.0) {
        false
    } else {
        cert_valid_spec(table, threshold, cert, c, signatures_valid)
    }
}

/// Validity of a vote by `signer`: it is a member of `table` and its
/// signature verifies (`signature_valid`).
pub open spec fn vote_valid(table: Seq<StakeEntry>, signer: Seq<u8>, signature_valid: bool) -> bool {
    is_member(table, signer) && signature_valid
}

/// Checks a certificate of a DA, yes, no or timeout vote.
fn check_exchange_cert(
    table: &Vec<StakeEntry>,
    threshold: u64,
    cert: &Certificate,
    c: &[u8],
    signatures_valid: bool,
) -> (r: bool)
    requires
        crate::election::table_wf(table@),
    ensures
        r == exchange_cert_valid(table@, threshold, cert@, c@, signatures_valid),
{
    if cert.is_genesis() && cert.view_number() == 0 {
        return true;
    }
    match cert.vote_data.kind() {
        VoteKind::ViewSyncPreCommit | VoteKind::ViewSyncCommit | VoteKind::ViewSyncFinalize => false,
        _ => check_certificate(table, threshold, cert, c, signatures_valid),
    }
}

/// The bytes hashed into the commitment of view-synchronisation data: the
/// relay's key, length-prefixed, and the round.
pub open spec fn view_sync_data_preimage(relay: Seq<u8>, round: u64) -> Seq<u8> {
    "ViewSyncData".spec_bytes() + label_separator() + "relay".spec_bytes() + label_separator()
        + spec_u64_to_le_bytes(relay.len() as u64) + relay + "round".spec_bytes() + label_separator()
        + spec_u64_to_le_bytes(round)
}

/// Commitment of view-synchronisation data for `relay` and `round`.
pub open spec fn view_sync_data_commitment(relay: Seq<u8>, round: u64) -> Seq<u8> {
    keccak256_of(view_sync_data_preimage(relay, round))
}

/// Commitment of view-synchronisation data.
pub fn view_sync_data_commit(relay: &[u8], round: u64) -> (r: Vec<u8>)
    ensures
        r@ == view_sync_data_commitment(relay@, round),
{
    let sep: [u8; 2] = [0xC0u8, 0x7Fu8];
    let mut pre: Vec<u8> = Vec::new();
    append_bytes(&mut pre, "ViewSyncData".as_bytes());
    append_bytes(&mut pre, sep.as_slice());
    append_bytes(&mut pre, "relay".as_bytes());
    append_bytes(&mut pre, sep.as_slice());
    append_bytes(&mut pre, u64_to_le_bytes(relay.len() as u64).as_slice());
    append_bytes(&mut pre, relay);
    append_bytes(&mut pre, "round".as_bytes());
    append_bytes(&mut pre, sep.as_slice());
    append_bytes(&mut pre, u64_to_le_bytes(round).as_slice());
    assert(sep@ =~= label_separator());
    assert(pre@ =~= view_sync_data_preimage(relay@, round));
    keccak256(pre.as_slice())
}

/// A vote to be signed: the data it is for and the message to sign.
#[derive(Debug, Clone)]
pub struct VoteRequest {
    /// The view the vote is cast for.
    pub view_number: u64,
    /// What the vote is for.
    pub vote_data: VoteData,
    /// The commitment of `vote_data`, which the signature goes over.
    pub message: Vec<u8>,
    /// This node's key, which signs.
    pub signer: Vec<u8>,
}

/// A view-synchronisation vote to be signed.
#[derive(Debug, Clone)]
pub struct ViewSyncVoteRequest {
    /// Key of the relay: the leader of view `round + relay`.
    pub relay_pub_key: Vec<u8>,
    /// Which relay.
    pub relay: u64,
    /// The round being synchronised.
    pub round: u64,
    /// What the vote is for.
    pub vote_data: VoteData,
    /// The commitment of `vote_data`, which the signature goes over.
    pub message: Vec<u8>,
}

/// A view-synchronisation certificate: a certificate of one of the three
/// view-synchronisation kinds, with the relay it names.
#[derive(Debug, Clone)]
pub struct ViewSyncCertificate {
    pub relay: u64,
    pub certificate: Certificate,
}

/// Builds the request for a vote of kind `k` on `c` by `signer` in `view`.
fn vote_request(k: VoteKind, c: &[u8], view: u64, signer: &Vec<u8>) -> (r: VoteRequest)
    ensures
        r.view_number == view,
        r.vote_data@ == (k, c@),
        r.message@ == vote_commitment(k, c@),
        r.signer@ == signer@,
{
    let vote_data = VoteData::new(k, copy_bytes(c));
    let message = vote_data.commit();
    VoteRequest { view_number: view, vote_data, message, signer: copy_bytes(signer.as_slice()) }
}

/// Taking part in a sub-protocol: an exchange knows its committee, this
/// node's key, the stake table its votes are weighed against and the stake
/// a certificate needs.
pub trait ConsensusExchange {
    /// The committee.
    spec fn spec_membership(&self) -> Membership;

    /// This node's key.
    spec fn spec_public_key(&self) -> Seq<u8>;

    /// The stake table votes are weighed against.
    spec fn spec_table(&self) -> Seq<StakeEntry>;

    /// Stake a certificate needs.
    spec fn spec_threshold(&self) -> u64;

    /// The committee.
    fn membership(&self) -> (r: &Membership)
        ensures
            *r == self.spec_membership(),
    ;

    /// This node's key.
    fn public_key(&self) -> (r: &Vec<u8>)
        ensures
            r@ == self.spec_public_key(),
    ;

    /// The stake table votes are weighed against.
    fn vote_table(&self) -> (r: &Vec<StakeEntry>)
        requires
            self.spec_membership().wf(),
        ensures
            r@ == self.spec_table(),
            crate::election::table_wf(r@),
    ;

    /// Stake a certificate needs.
    fn success_threshold(&self) -> (r: u64)
        requires
            self.spec_membership().wf(),
        ensures
            r == self.spec_threshold(),
    ;

    /// The leader of `view`.
    fn get_leader(&self, view: u64) -> (r: &Vec<u8>)
        requires
            self.spec_membership().wf(),
        ensures
            r@ == self.spec_membership().leader_spec(view),
    {
        self.membership().leader(view, 0)
    }

    /// Whether this node leads `view`.
    fn is_leader(&self, view: u64) -> (r: bool)
        requires
            self.spec_membership().wf(),
        ensures
            r == (self.spec_public_key() == self.spec_membership().leader_spec(view)),
    {
        self.membership().is_leader(self.public_key().as_slice(), view, 0)
    }

    /// Number of members of the stake table votes are weighed against.
    fn total_nodes(&self) -> (r: usize)
        requires
            self.spec_membership().wf(),
        ensures
            r == self.spec_table().len(),
    {
        self.vote_table().len()
    }

    /// Validates a certificate for `commit` (see `exchange_cert_valid`).
    fn is_valid_cert(&self, qc: &Certificate, commit: &[u8], signatures_valid: bool) -> (r: bool)
        requires
            self.spec_membership().wf(),
        ensures
            r == exchange_cert_valid(self.spec_table(), self.spec_threshold(), qc@, commit@, signatures_valid),
    {
        let th = self.success_threshold();
        check_exchange_cert(self.vote_table(), th, qc, commit, signatures_valid)
    }

    /// Validates a vote by `signer` (see `vote_valid`).
    fn is_valid_vote(&self, signer: &[u8], signature_valid: bool) -> (r: bool)
        requires
            self.spec_membership().wf(),
        ensures
            r == vote_valid(self.spec_table(), signer@, signature_valid),
    {
        crate::election::find_member(self.vote_table(), signer).is_some() && signature_valid
    }

    /// Adds a vote to `accumulator`: an invalid vote leaves it as it was; a
    /// valid one is counted, and a certificate comes out once its value
    /// reaches the threshold.
    fn accumulate_vote(
        &self,
        accumulator: &mut VoteAccumulator,
        signer: &[u8],
        commitment: &[u8],
        signature: &[u8],
        signature_valid: bool,
    ) -> (r: AppendOutcome)
        requires
            self.spec_membership().wf(),
            old(accumulator).wf(self.spec_table()),
        ensures
            final(accumulator).wf(self.spec_table()),
            (final(accumulator)@, r@) == append_spec(
                old(accumulator)@,
                self.spec_table(),
                self.spec_threshold(),
                signer@,
                commitment@,
                signature@,
                signature_valid,
            ),
    {
        let th = self.success_threshold();
        accumulator.append(self.vote_table(), th, signer, commitment, signature, signature_valid)
    }
}

/// Exchange of the data-availability committee: votes and certificates are
/// weighed against the DA stake table.
pub struct CommitteeExchange {
    pub membership: Membership,
    pub public_key: Vec<u8>,
}

/// Exchange of the quorum: votes and certificates are weighed against the
/// quorum stake table.
pub struct QuorumExchange {
    pub membership: Membership,
    pub public_key: Vec<u8>,
}

/// Exchange of view synchronisation: votes and certificates are weighed
/// against the quorum stake table.
pub struct ViewSyncExchange {
    pub membership: Membership,
    pub public_key: Vec<u8>,
}

impl ConsensusExchange for CommitteeExchange {
    open spec fn spec_membership(&self) -> Membership {
        self.membership
    }

    open spec fn spec_public_key(&self) -> Seq<u8> {
        self.public_key@
    }

    open spec fn spec_table(&self) -> Seq<StakeEntry> {
        self.membership.da_stake_table@
    }

    open spec fn spec_threshold(&self) -> u64 {
        success_threshold_of(total_stake(self.membership.da_stake_table@)) as u64
    }

    fn membership(&self) -> (r: &Membership) {
        &self.membership
    }

    fn public_key(&self) -> (r: &Vec<u8>) {
        &self.public_key
    }

    fn vote_table(&self) -> (r: &Vec<StakeEntry>) {
        &self.membership.da_stake_table
    }

    fn success_threshold(&self) -> (r: u64) {
        self.membership.da_success_threshold(0)
    }
}

impl CommitteeExchange {
    /// Joins the exchange with the given identity.
    pub fn create(membership: Membership, public_key: Vec<u8>) -> (r: Self)
        ensures
            r.membership == membership,
            r.public_key == public_key,
    {
        CommitteeExchange { membership, public_key }
    }

    /// The contents of a vote on `commit`.
    pub fn vote_data(&self, commit: Vec<u8>) -> (r: VoteData)
        ensures
            r@ == (VoteKind::DA, commit@),
    {
        VoteData::DA(commit)
    }

    /// The vote of this node on the payload commitment `block_commitment`
    /// in `current_view`, to be signed.
    pub fn create_da_message(&self, block_commitment: &[u8], current_view: u64) -> (r: VoteRequest)
        ensures
            r.view_number == current_view,
            r.vote_data@ == (VoteKind::DA, block_commitment@),
            r.message@ == vote_commitment(VoteKind::DA, block_commitment@),
            r.signer@ == self.public_key@,
    {
        vote_request(VoteKind::DA, block_commitment, current_view, &self.public_key)
    }

}

impl ConsensusExchange for QuorumExchange {
    open spec fn spec_membership(&self) -> Membership {
        self.membership
    }

    open spec fn spec_public_key(&self) -> Seq<u8> {
        self.public_key@
    }

    open spec fn spec_table(&self) -> Seq<StakeEntry> {
        self.membership.stake_table@
    }

    open spec fn spec_threshold(&self) -> u64 {
        success_threshold_of(total_stake(self.membership.stake_table@)) as u64
    }

    fn membership(&self) -> (r: &Membership) {
        &self.membership
    }

    fn public_key(&self) -> (r: &Vec<u8>) {
        &self.public_key
    }

    fn vote_table(&self) -> (r: &Vec<StakeEntry>) {
        &self.membership.stake_table
    }

    fn success_threshold(&self) -> (r: u64) {
        self.membership.success_threshold(0)
    }
}

impl QuorumExchange {
    /// Joins the exchange with the given identity.
    pub fn create(membership: Membership, public_key: Vec<u8>) -> (r: Self)
        ensures
            r.membership == membership,
            r.public_key == public_key,
    {
        QuorumExchange { membership, public_key }
    }

    /// Stake that proves a quorum impossible.
    pub fn failure_threshold(&self) -> (r: u64)
        requires
            self.membership.wf(),
        ensures
            r == crate::election::failure_threshold_of(total_stake(self.membership.stake_table@)),
    {
        self.membership.failure_threshold(0)
    }

    /// The contents of a vote on `commit`.
    pub fn vote_data(&self, commit: Vec<u8>) -> (r: VoteData)
        ensures
            r@ == (VoteKind::Yes, commit@),
    {
        VoteData::Yes(commit)
    }

    /// A positive vote of this node on `leaf_commitment`, to be signed.
    pub fn create_yes_message(&self, leaf_commitment: &[u8], current_view: u64) -> (r: VoteRequest)
        ensures
            r.view_number == current_view,
            r.vote_data@ == (VoteKind::Yes, leaf_commitment@),
            r.message@ == vote_commitment(VoteKind::Yes, leaf_commitment@),
            r.signer@ == self.public_key@,
    {
        vote_request(VoteKind::Yes, leaf_commitment, current_view, &self.public_key)
    }

    /// A negative vote of this node on `leaf_commitment`, to be signed.
    pub fn create_no_message(&self, leaf_commitment: &[u8], current_view: u64) -> (r: VoteRequest)
        ensures
            r.view_number == current_view,
            r.vote_data@ == (VoteKind::No, leaf_commitment@),
            r.message@ == vote_commitment(VoteKind::No, leaf_commitment@),
            r.signer@ == self.public_key@,
    {
        vote_request(VoteKind::No, leaf_commitment, current_view, &self.public_key)
    }

    /// A timeout vote of this node for `current_view`, to be signed; it
    /// commits to `view_commitment`, the commitment of the view number.
    pub fn create_timeout_message(&self, view_commitment: &[u8], current_view: u64) -> (r: VoteRequest)
        ensures
            r.view_number == current_view,
            r.vote_data@ == (VoteKind::Timeout, view_commitment@),
            r.message@ == vote_commitment(VoteKind::Timeout, view_commitment@),
            r.signer@ == self.public_key@,
    {
        vote_request(VoteKind::Timeout, view_commitment, current_view, &self.public_key)
    }

}

/// The vote-data commitment a view-synchronisation vote of kind `k` for
/// `round` through `relay` signs, with `relay_key` the key of the relay.
pub open spec fn view_sync_message(k: VoteKind, relay_key: Seq<u8>, round: u64) -> Seq<u8> {
    vote_commitment(k, view_sync_data_commitment(relay_key, round))
}

impl ConsensusExchange for ViewSyncExchange {
    open spec fn spec_membership(&self) -> Membership {
        self.membership
    }

    open spec fn spec_public_key(&self) -> Seq<u8> {
        self.public_key@
    }

    open spec fn spec_table(&self) -> Seq<StakeEntry> {
        self.membership.stake_table@
    }

    open spec fn spec_threshold(&self) -> u64 {
        success_threshold_of(total_stake(self.membership.stake_table@)) as u64
    }

    fn membership(&self) -> (r: &Membership) {
        &self.membership
    }

    fn public_key(&self) -> (r: &Vec<u8>) {
        &self.public_key
    }

    fn vote_table(&self) -> (r: &Vec<StakeEntry>) {
        &self.membership.stake_table
    }

    fn success_threshold(&self) -> (r: u64) {
        self.membership.success_threshold(0)
    }
}

impl ViewSyncExchange {
    /// Joins the exchange with the given identity.
    pub fn create(membership: Membership, public_key: Vec<u8>) -> (r: Self)
        ensures
            r.membership == membership,
            r.public_key == public_key,
    {
        ViewSyncExchange { membership, public_key }
    }

    fn create_message(&self, k: VoteKind, round: u64, relay: u64) -> (r: ViewSyncVoteRequest)
        requires
            self.membership.wf(),
            round + relay <= u64::MAX,
        ensures
            r.relay_pub_key@ == self.membership.leader_spec((round + relay) as u64),
            r.relay == relay,
            r.round == round,
            r.vote_data@ == (k, view_sync_data_commitment(r.relay_pub_key@, round)),
            r.message@ == view_sync_message(k, r.relay_pub_key@, round),
    {
        let relay_pub_key = copy_bytes(self.get_leader(round + relay).as_slice());
        let data_commitment = view_sync_data_commit(relay_pub_key.as_slice(), round);
        let vote_data = VoteData::new(k, data_commitment);
        let message = vote_data.commit();
        ViewSyncVoteRequest { relay_pub_key, relay, round, vote_data, message }
    }

    /// A pre-commit vote for `round` through `relay`, to be signed.
    pub fn create_precommit_message(&self, round: u64, relay: u64) -> (r: ViewSyncVoteRequest)
        requires
            self.membership.wf(),
            round + relay <= u64::MAX,
        ensures
            r.relay_pub_key@ == self.membership.leader_spec((round + relay) as u64),
            r.relay == relay,
            r.round == round,
            r.vote_data@ == (VoteKind::ViewSyncPreCommit, view_sync_data_commitment(r.relay_pub_key@, round)),
            r.message@ == view_sync_message(VoteKind::ViewSyncPreCommit, r.relay_pub_key@, round),
    {
        self.create_message(VoteKind::ViewSyncPreCommit, round, relay)
    }

    /// A commit vote for `round` through `relay`, to be signed.
    pub fn create_commit_message(&self, round: u64, relay: u64) -> (r: ViewSyncVoteRequest)
        requires
            self.membership.wf(),
            round + relay <= u64::MAX,
        ensures
            r.relay_pub_key@ == self.membership.leader_spec((round + relay) as u64),
            r.relay == relay,
            r.round == round,
            r.vote_data@ == (VoteKind::ViewSyncCommit, view_sync_data_commitment(r.relay_pub_key@, round)),
            r.message@ == view_sync_message(VoteKind::ViewSyncCommit, r.relay_pub_key@, round),
    {
        self.create_message(VoteKind::ViewSyncCommit, round, relay)
    }

    /// A finalize vote for `round` through `relay`, to be signed.
    pub fn create_finalize_message(&self, round: u64, relay: u64) -> (r: ViewSyncVoteRequest)
        requires
            self.membership.wf(),
            round + relay <= u64::MAX,
        ensures
            r.relay_pub_key@ == self.membership.leader_spec((round + relay) as u64),
            r.relay == relay,
            r.round == round,
            r.vote_data@ == (VoteKind::ViewSyncFinalize, view_sync_data_commitment(r.relay_pub_key@, round)),
            r.message@ == view_sync_message(VoteKind::ViewSyncFinalize, r.relay_pub_key@, round),
    {
        self.create_message(VoteKind::ViewSyncFinalize, round, relay)
    }

    /// Validates a view-synchronisation certificate for `round`: it must be
    /// of a view-synchronisation kind, be for the commitment of the
    /// view-synchronisation data of `round` and the leader of
    /// `round + relay`, and pass the certificate check against the quorum
    /// stake table at the success threshold.
    pub open spec fn view_sync_cert_valid(
        &self,
        cert: CertificateModel,
        relay: u64,
        round: u64,
        signatures_valid: bool,
    ) -> bool {
        &&& is_view_sync_kind(cert.vote_data.0)
        &&& cert_valid_spec(
            self.membership.stake_table@,
            success_threshold_of(total_stake(self.membership.stake_table@)) as u64,
            cert,
            view_sync_data_commitment(self.membership.leader_spec((round + relay) as u64), round),
            signatures_valid,
        )
    }

    /// Checks a view-synchronisation certificate for `round` (see
    /// `view_sync_cert_valid`).
    pub fn is_valid_view_sync_cert(
        &self,
        certificate: &ViewSyncCertificate,
        round: u64,
        signatures_valid: bool,
    ) -> (r: bool)
        requires
            self.membership.wf(),
            round + certificate.relay <= u64::MAX,
        ensures
            r == self.view_sync_cert_valid(certificate.certificate@, certificate.relay, round, signatures_valid),
    {
        let cert = &certificate.certificate;
        match cert.vote_data.kind() {
            VoteKind::ViewSyncPreCommit | VoteKind::ViewSyncCommit | VoteKind::ViewSyncFinalize => {},
            _ => {
                return false;
            },
        }
        let relay_key = self.get_leader(round + certificate.relay);
        let expected = view_sync_data_commit(relay_key.as_slice(), round);
        let th = self.membership.success_threshold(0);
        check_certificate(&self.membership.stake_table, th, cert, expected.as_slice(), signatures_valid)
    }

}

} // verus!
