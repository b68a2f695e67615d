//! The per-node data-availability task: a state machine from events to
//! actions. It validates DA proposals, decides when to vote, records the
//! payloads it has promised, gathers votes into certificates on the leader,
//! and forgets what lies behind the garbage-collection horizon.
//!
//! Work outside the node's own state is handed out as actions: signing,
//! signature checks, computing the payload commitment, storage, the network
//! and the event bus. Their results come back as later events.

use vstd::prelude::*;

use crate::accumulator::{
    accumulator_wf, append_spec, empty_accumulator, lemma_emitted_certificate_valid, AccumulatorModel, AppendOutcome, AppendOutcomeModel,
    VoteAccumulator,
};
use crate::bytes::{bytes_eq, copy_bytes, sha256_of};
use crate::certificate::cert_valid_spec;
use crate::election::{is_member, success_threshold_of, total_stake, Membership};
use crate::error::ValidationError;
use crate::message::{DaProposal, DaProposalModel, DAVote, DAVoteModel, Certificate, Proposal, ProposalModel};
use crate::vote::{vote_commitment, VoteData, VoteKind};

verus! {

/// A payload this node has promised to make available, with its commitment.
#[derive(Debug, Clone)]
pub struct SavedPayload {
    pub view_number: u64,
    pub payload_commitment: Vec<u8>,
    pub encoded_transactions: Vec<u8>,
}

/// Something tied to a view.
pub trait ViewTagged {
    spec fn tagged_view(&self) -> u64;

    fn view_tag(&self) -> (r: u64)
        ensures
            r == self.tagged_view(),
    ;
}

impl ViewTagged for SavedPayload {
    open spec fn tagged_view(&self) -> u64 {
        self.view_number
    }

    fn view_tag(&self) -> (r: u64) {
        self.view_number
    }
}

impl ViewTagged for VoteAccumulator {
    open spec fn tagged_view(&self) -> u64 {
        self.view_number
    }

    fn view_tag(&self) -> (r: u64) {
        self.view_number
    }
}

impl ViewTagged for u64 {
    open spec fn tagged_view(&self) -> u64 {
        *self
    }

    fn view_tag(&self) -> (r: u64) {
        *self
    }
}

/// A proposal for view `v` is stale at `cur`: it is more than one view old.
pub open spec fn proposal_stale(cur: u64, v: u64) -> bool {
    v + 1 < cur
}

/// View `v` lies behind the garbage-collection horizon `cur - window`.
pub open spec fn behind_horizon(cur: u64, window: u64, v: u64) -> bool {
    v + window < cur
}

fn is_behind_horizon(cur: u64, window: u64, v: u64) -> (r: bool)
    ensures
        r == behind_horizon(cur, window, v),
{
    (v as u128) + (window as u128) < (cur as u128)
}

/// What survives garbage collection at `cur` with `window`.
pub open spec fn recent<T: ViewTagged>(s: Seq<T>, cur: u64, window: u64) -> Seq<T> {
    s.filter(|x: T| !behind_horizon(cur, window, x.tagged_view()))
}

/// Removes from `v` what lies behind the horizon, keeping the order.
fn retain_recent<T: ViewTagged>(v: &mut Vec<T>, cur: u64, window: u64)
    ensures
        final(v)@ == recent(old(v)@, cur, window),
{
    let ghost orig = old(v)@;
    let ghost pred = |x: T| !behind_horizon(cur, window, x.tagged_view());
    let mut i: usize = 0;
    let ghost mut j: int = 0;
    proof {
        reveal(Seq::filter);
        assert(orig.subrange(0, 0).filter(pred) =~= Seq::<T>::empty());
        assert(orig.subrange(0, orig.len() as int) =~= orig);
    }
    while i < v.len()
        invariant
            pred == (|x: T| !behind_horizon(cur, window, x.tagged_view())),
            orig == old(v)@,
            0 <= j <= orig.len(),
            v@ == orig.subrange(0, j).filter(pred) + orig.subrange(j, orig.len() as int),
            i == orig.subrange(0, j).filter(pred).len(),
            i <= v@.len(),
        decreases v@.len() - i,
    {
        proof {
            reveal(Seq::filter);
            assert(v@[i as int] == orig[j]);
            assert(orig.subrange(0, j + 1).drop_last() =~= orig.subrange(0, j));
            assert(orig.subrange(0, j + 1).last() == orig[j]);
            assert(orig.subrange(0, j + 1).filter(pred) == if pred(orig[j]) {
                orig.subrange(0, j).filter(pred).push(orig[j])
            } else {
                orig.subrange(0, j).filter(pred)
            });
            assert(orig.subrange(j, orig.len() as int) =~= seq![orig[j]] + orig.subrange(j + 1, orig.len() as int));
        }
        let w = v[i].view_tag();
        let ghost vprev = v@;
        let ghost f = orig.subrange(0, j).filter(pred);
        if is_behind_horizon(cur, window, w) {
            v.remove(i);
            proof {
                assert(!pred(orig[j]));
                assert(v@ =~= f + orig.subrange(j + 1, orig.len() as int));
            }
        } else {
            i = i + 1;
            proof {
                assert(pred(orig[j]));
                assert(v@ =~= f.push(orig[j]) + orig.subrange(j + 1, orig.len() as int));
            }
        }
        proof {
            j = j + 1;
        }
    }
    proof {
        assert(j == orig.len()) by {
            if j < orig.len() {
                assert(v@.len() == i + (orig.len() - j));
            }
        }
        assert(orig.subrange(0, j) =~= orig);
        assert(v@ =~= orig.filter(pred));
    }
}

/// Events the DA task consumes.
#[derive(Debug, Clone)]
pub enum DaEvent {
    /// A DA proposal arrived from `sender`. `signature_valid` tells whether
    /// `proposal.signature` verifies under `sender` over
    /// `proposal.data.payload_digest()`.
    DaProposalRecv { proposal: Proposal, sender: Vec<u8>, signature_valid: bool },
    /// A proposal that passed the checks of `DaProposalRecv`.
    DaProposalValidated { proposal: Proposal, sender: Vec<u8> },
    /// The payload commitment of a validated proposal was computed and the
    /// proposal with it appended to storage; `primary_network_down` tells
    /// whether the primary network is known to be down.
    PayloadStored { proposal: Proposal, payload_commitment: Vec<u8>, primary_network_down: bool },
    /// A DA vote arrived. `signature_valid` tells whether `vote.signature`
    /// verifies under `vote.signer` over `vote.signing_message()`.
    DaVoteRecv { vote: DAVote, signature_valid: bool },
    /// The node moved to `view` in `epoch`.
    ViewChange { view: u64, epoch: u64 },
    /// A block to propose for `view_number` (the leader path).
    BlockRecv { encoded_transactions: Vec<u8>, metadata: Vec<u8>, view_number: u64 },
}

/// Actions the DA task asks for.
#[derive(Debug, Clone)]
pub enum DaAction {
    /// Put `DaProposalValidated(proposal, sender)` on the event bus.
    ProposalValidated { proposal: Proposal, sender: Vec<u8> },
    /// Publish the proposal to the host application, at `view_number`.
    PublishProposal { view_number: u64, proposal: Proposal, sender: Vec<u8> },
    /// Compute the payload commitment of the proposal for a committee of
    /// `num_nodes`, append both to storage, then report `PayloadStored`.
    ComputePayloadCommitment { proposal: Proposal, num_nodes: usize },
    /// Sign `message` with this node's key and send the DA vote for
    /// `view_number` on `payload_commit`.
    SendVote { view_number: u64, payload_commit: Vec<u8>, message: Vec<u8> },
    /// Compute this node's VID share for `view_number` and broadcast it.
    ComputeVidShare { view_number: u64 },
    /// Send the certificate.
    SendCertificate { certificate: Certificate },
    /// Sign `digest` with this node's key and send the proposal.
    SendProposal { proposal: DaProposal, digest: Vec<u8> },
}

/// State of the DA task of one node.
pub struct DaTaskState {
    /// View number this node is executing in.
    pub cur_view: u64,
    /// Epoch number this node is executing in.
    pub cur_epoch: u64,
    /// Membership of the quorum and DA committees.
    pub membership: Membership,
    /// This node's public key.
    pub public_key: Vec<u8>,
    /// This state's ID.
    pub id: u64,
    /// How many views back state is kept.
    pub gc_window: u64,
    /// The payloads this node has promised, one per view, with their
    /// commitments.
    pub saved_payloads: Vec<SavedPayload>,
    /// One vote accumulator per view, on the leader.
    pub vote_collectors: Vec<VoteAccumulator>,
    /// Views for which a certificate has been sent.
    pub certified_views: Vec<u64>,
    /// Every view this node has asked to sign a DA vote for.
    pub signed_views: Ghost<Set<u64>>,
}

/// Whether some saved payload is for view `v`.
pub open spec fn has_payload(ps: Seq<SavedPayload>, v: u64) -> bool {
    exists|i: int| 0 <= i < ps.len() && #[trigger] ps[i].view_number == v
}

/// Whether some accumulator is for view `v`.
pub open spec fn has_collector(cs: Seq<VoteAccumulator>, v: u64) -> bool {
    exists|i: int| 0 <= i < cs.len() && #[trigger] cs[i].view_number == v
}

/// The accumulator for view `v`, if there is one.
pub open spec fn collector_of(cs: Seq<VoteAccumulator>, v: u64) -> Option<AccumulatorModel> {
    if has_collector(cs, v) {
        Some(cs[choose|i: int| 0 <= i < cs.len() && #[trigger] cs[i].view_number == v]@)
    } else {
        None
    }
}

/// No two elements are tied to the same view.
pub open spec fn views_distinct<T: ViewTagged>(s: Seq<T>) -> bool {
    forall|i: int, j: int|
        0 <= i < s.len() && 0 <= j < s.len() && i != j ==> #[trigger] s[i].tagged_view()
            != #[trigger] s[j].tagged_view()
}

/// Nothing in `s` lies behind the horizon.
pub open spec fn all_recent<T: ViewTagged>(s: Seq<T>, cur: u64, window: u64) -> bool {
    forall|i: int| 0 <= i < s.len() ==> !behind_horizon(cur, window, #[trigger] s[i].tagged_view())
}

/// A DA accumulator consistent with `table`.
pub open spec fn collector_ok(a: VoteAccumulator, table: Seq<crate::election::StakeEntry>) -> bool {
    accumulator_wf(a@, table) && a.kind == VoteKind::DA
}

/// Every accumulator is a DA accumulator consistent with `table`.
pub open spec fn collectors_ok(cs: Seq<VoteAccumulator>, table: Seq<crate::election::StakeEntry>) -> bool {
    forall|k: int| 0 <= k < cs.len() ==> #[trigger] collector_ok(cs[k], table)
}

/// Every view signed for that a proposal could still be accepted for has
/// its payload recorded, so that it is never signed for again.
pub open spec fn signed_recorded(signed: Set<u64>, cur: u64, window: u64, ps: Seq<SavedPayload>) -> bool {
    forall|w: u64|
        #[trigger] signed.contains(w) && !behind_horizon(cur, window, w) && !proposal_stale(cur, w)
            ==> has_payload(ps, w)
}

impl DaTaskState {
    /// No state is kept for a view behind the garbage-collection horizon.
    pub open spec fn collected(&self) -> bool {
        &&& all_recent(self.saved_payloads@, self.cur_view, self.gc_window)
        &&& all_recent(self.vote_collectors@, self.cur_view, self.gc_window)
        &&& all_recent(self.certified_views@, self.cur_view, self.gc_window)
    }

    /// The DA stake table.
    pub open spec fn da_table(&self) -> Seq<crate::election::StakeEntry> {
        self.membership.da_stake_table@
    }

    /// Stake a DA certificate needs.
    pub open spec fn da_threshold(&self) -> u64 {
        success_threshold_of(total_stake(self.da_table())) as u64
    }

    /// Invariant of the task state.
    pub open spec fn wf(&self) -> bool {
        &&& self.membership.wf()
        &&& self.collected()
        &&& views_distinct(self.saved_payloads@)
        &&& views_distinct(self.vote_collectors@)
        &&& collectors_ok(self.vote_collectors@, self.da_table())
        &&& signed_recorded(self.signed_views@, self.cur_view, self.gc_window, self.saved_payloads@)
    }

    /// A fresh task at view 0 and epoch 0.
    pub fn new(membership: Membership, public_key: Vec<u8>, gc_window: u64, id: u64) -> (r: DaTaskState)
        requires
            membership.wf(),
        ensures
            r.wf(),
            r.cur_view == 0,
            r.cur_epoch == 0,
            r.membership == membership,
            r.public_key == public_key,
            r.gc_window == gc_window,
            r.id == id,
            r.saved_payloads@.len() == 0,
            r.vote_collectors@.len() == 0,
            r.certified_views@.len() == 0,
            r.signed_views@ == Set::<u64>::empty(),
    {
        DaTaskState {
            cur_view: 0,
            cur_epoch: 0,
            membership,
            public_key,
            id,
            gc_window,
            saved_payloads: Vec::new(),
            vote_collectors: Vec::new(),
            certified_views: Vec::new(),
            signed_views: Ghost(Set::empty()),
        }
    }

    /// The effect of `ViewChange(view, epoch)`: the epoch only advances; a
    /// view change to a view not above the current one is dropped
    /// (`StaleView`); otherwise the view advances and everything behind the
    /// new horizon is discarded.
    pub open spec fn view_change_post(
        old: DaTaskState,
        view: u64,
        epoch: u64,
        new: DaTaskState,
        r: Result<Vec<DaAction>, ValidationError>,
    ) -> bool {
        &&& new.cur_epoch == if epoch > old.cur_epoch { epoch } else { old.cur_epoch }
        &&& new.membership == old.membership
        &&& new.public_key == old.public_key
        &&& new.id == old.id
        &&& new.gc_window == old.gc_window
        &&& new.signed_views == old.signed_views
        &&& if view <= old.cur_view {
            &&& r == Err::<Vec<DaAction>, ValidationError>(ValidationError::StaleView)
            &&& new.cur_view == old.cur_view
            &&& new.saved_payloads == old.saved_payloads
            &&& new.vote_collectors == old.vote_collectors
            &&& new.certified_views == old.certified_views
        } else {
            &&& r is Ok && r->Ok_0@.len() == 0
            &&& new.cur_view == view
            &&& new.saved_payloads@ == recent(old.saved_payloads@, view, old.gc_window)
            &&& new.vote_collectors@ == recent(old.vote_collectors@, view, old.gc_window)
            &&& new.certified_views@ == recent(old.certified_views@, view, old.gc_window)
        }
    }

    /// Handles `ViewChange(view, epoch)`.
    pub fn on_view_change(&mut self, view: u64, epoch: u64) -> (r: Result<Vec<DaAction>, ValidationError>)
        requires
            old(self).wf(),
        ensures
            final(self).wf(),
            final(self).collected(),
            Self::view_change_post(*old(self), view, epoch, *final(self), r),
    {
        if epoch > self.cur_epoch {
            self.cur_epoch = epoch;
        }
        if view <= self.cur_view {
            return Err(ValidationError::StaleView);
        }
        let ghost prev = *self;
        self.cur_view = view;
        retain_recent(&mut self.saved_payloads, view, self.gc_window);
        retain_recent(&mut self.vote_collectors, view, self.gc_window);
        retain_recent(&mut self.certified_views, view, self.gc_window);
        proof {
            lemma_recent_props(prev.saved_payloads@, view, self.gc_window);
            lemma_recent_props(prev.vote_collectors@, view, self.gc_window);
            lemma_recent_props(prev.certified_views@, view, self.gc_window);
            assert forall|k: int| 0 <= k < self.vote_collectors@.len() implies #[trigger] collector_ok(
                self.vote_collectors@[k],
                self.da_table(),
            ) by {
                let k0 = choose|k0: int|
                    0 <= k0 < prev.vote_collectors@.len() && #[trigger] recent(prev.vote_collectors@, view, self.gc_window)[k]
                        == prev.vote_collectors@[k0];
                assert(collector_ok(prev.vote_collectors@[k0], prev.da_table()));
            }
            assert forall|w: u64| #[trigger] self.signed_views@.contains(w) && !behind_horizon(
                self.cur_view,
                self.gc_window,
                w,
            ) && !proposal_stale(self.cur_view, w) implies has_payload(self.saved_payloads@, w) by {
                assert(has_payload(prev.saved_payloads@, w));
                let i = choose|i: int| 0 <= i < prev.saved_payloads@.len() && #[trigger] prev.saved_payloads@[i].view_number == w;
                assert(prev.saved_payloads@[i].tagged_view() == w);
                let i2 = choose|i2: int| 0 <= i2 < recent(prev.saved_payloads@, view, self.gc_window).len() && recent(prev.saved_payloads@, view, self.gc_window)[i2] == prev.saved_payloads@[i];
                assert(self.saved_payloads@[i2].view_number == w);
            }
        }
        Ok(Vec::new())
    }
}

/// What survives garbage collection is recent, came from the input, keeps
/// every recent element of the input, and keeps views distinct.
proof fn lemma_recent_props<T: ViewTagged>(s: Seq<T>, cur: u64, window: u64)
    ensures
        all_recent(recent(s, cur, window), cur, window),
        forall|i: int|
            0 <= i < recent(s, cur, window).len() ==> exists|j: int|
                0 <= j < s.len() && #[trigger] recent(s, cur, window)[i] == s[j],
        forall|j: int|
            0 <= j < s.len() && !behind_horizon(cur, window, #[trigger] s[j].tagged_view())
                ==> exists|i: int|
                0 <= i < recent(s, cur, window).len() && recent(s, cur, window)[i] == s[j],
        views_distinct(s) ==> views_distinct(recent(s, cur, window)),
    decreases s.len(),
{
    reveal(Seq::filter);
    if s.len() > 0 {
        let rest = s.drop_last();
        let last = s.last();
        lemma_recent_props(rest, cur, window);
        let rr = recent(rest, cur, window);
        let rs = recent(s, cur, window);
        let keep = !behind_horizon(cur, window, last.tagged_view());
        assert(rs == if keep { rr.push(last) } else { rr });
        assert forall|i: int| 0 <= i < rs.len() implies exists|j: int|
            0 <= j < s.len() && #[trigger] rs[i] == s[j] by {
            if i < rr.len() {
                let j = choose|j: int| 0 <= j < rest.len() && rr[i] == rest[j];
                assert(rs[i] == s[j]);
            } else {
                assert(rs[i] == s[s.len() - 1]);
            }
        }
        assert forall|j: int|
            0 <= j < s.len() && !behind_horizon(cur, window, #[trigger] s[j].tagged_view())
                implies exists|i: int| 0 <= i < rs.len() && rs[i] == s[j] by {
            if j < rest.len() {
                assert(rest[j] == s[j]);
                let i = choose|i: int| 0 <= i < rr.len() && rr[i] == rest[j];
                assert(rs[i] == s[j]);
            } else {
                assert(rs[rs.len() - 1] == s[j]);
            }
        }
        if views_distinct(s) {
            assert(views_distinct(rest)) by {
                assert forall|i: int, j: int|
                    0 <= i < rest.len() && 0 <= j < rest.len() && i != j implies
                    #[trigger] rest[i].tagged_view() != #[trigger] rest[j].tagged_view() by {
                    assert(rest[i] == s[i] && rest[j] == s[j]);
                }
            }
            if keep {
                assert forall|a: int, b: int|
                    0 <= a < rs.len() && 0 <= b < rs.len() && a != b implies
                    #[trigger] rs[a].tagged_view() != #[trigger] rs[b].tagged_view() by {
                    if a < rr.len() && b < rr.len() {
                        assert(rs[a] == rr[a] && rs[b] == rr[b]);
                    } else if a < rr.len() {
                        let j = choose|j: int| 0 <= j < rest.len() && rr[a] == rest[j];
                        assert(rest[j] == s[j]);
                        assert(s[s.len() - 1] == last);
                    } else {
                        let j = choose|j: int| 0 <= j < rest.len() && rr[b] == rest[j];
                        assert(rest[j] == s[j]);
                        assert(s[s.len() - 1] == last);
                    }
                }
            }
        }
        assert forall|i: int| 0 <= i < rs.len() implies !behind_horizon(
            cur,
            window,
            #[trigger] rs[i].tagged_view(),
        ) by {
            if i < rr.len() {
                assert(rs[i] == rr[i]);
            }
        }
    }
}

/// Why a received proposal is dropped, if it is.
pub open spec fn proposal_recv_error(
    s: DaTaskState,
    p: ProposalModel,
    sender: Seq<u8>,
    signature_valid: bool,
) -> Option<ValidationError> {
    let v = p.data.view_number;
    if proposal_stale(s.cur_view, v) {
        Some(ValidationError::StaleView)
    } else if has_payload(s.saved_payloads@, v) {
        Some(ValidationError::DuplicatePayload)
    } else if sender != s.membership.leader_spec(v) {
        Some(ValidationError::WrongLeader)
    } else if !signature_valid {
        Some(ValidationError::BadSignature)
    } else {
        None
    }
}

/// Why a stored payload is not voted on, if it is not.
pub open spec fn payload_stored_error(s: DaTaskState, v: u64) -> Option<ValidationError> {
    if proposal_stale(s.cur_view, v) || behind_horizon(s.cur_view, s.gc_window, v) {
        Some(ValidationError::StaleView)
    } else if !is_member(s.membership.da_stake_table@, s.public_key@) {
        Some(ValidationError::UnknownSigner)
    } else if has_payload(s.saved_payloads@, v) {
        Some(ValidationError::DuplicatePayload)
    } else {
        None
    }
}

/// Why a received vote is not given to an accumulator, if it is not.
pub open spec fn vote_recv_error(s: DaTaskState, v: u64) -> Option<ValidationError> {
    if s.public_key@ != s.membership.leader_spec(v) {
        Some(ValidationError::NotLeader)
    } else if behind_horizon(s.cur_view, s.gc_window, v) {
        Some(ValidationError::StaleView)
    } else {
        None
    }
}

/// The accumulator a vote for view `v` goes to.
pub open spec fn collector_for(s: DaTaskState, v: u64) -> AccumulatorModel {
    match collector_of(s.vote_collectors@, v) {
        Some(a) => a,
        None => empty_accumulator(v, VoteKind::DA, s.da_table().len()),
    }
}

/// The action that puts a validated proposal on the event bus.
pub open spec fn is_validated_action(a: DaAction, p: ProposalModel, sender: Seq<u8>) -> bool {
    match a {
        DaAction::ProposalValidated { proposal, sender: s } => proposal@ == p && s@ == sender,
        _ => false,
    }
}

/// The action that sends the DA vote for `v` on `c`.
pub open spec fn is_vote_action(a: DaAction, v: u64, c: Seq<u8>) -> bool {
    match a {
        DaAction::SendVote { view_number, payload_commit, message } => view_number == v
            && payload_commit@ == c && message@ == vote_commitment(VoteKind::DA, c),
        _ => false,
    }
}

/// Everything but the votes in progress and the certified views is as before.
pub open spec fn same_but_votes(old: DaTaskState, new: DaTaskState) -> bool {
    &&& new.cur_view == old.cur_view
    &&& new.cur_epoch == old.cur_epoch
    &&& new.membership == old.membership
    &&& new.public_key == old.public_key
    &&& new.id == old.id
    &&& new.gc_window == old.gc_window
    &&& new.saved_payloads == old.saved_payloads
    &&& new.signed_views == old.signed_views
}

impl DaTaskState {
    /// The effect of `DaProposalRecv(proposal, sender)`: nothing changes;
    /// a stale proposal, one for a view with a saved payload, one not sent by
    /// the view's leader and one whose signature does not verify are
    /// dropped, in that order; any other is validated.
    pub open spec fn proposal_recv_post(
        old: DaTaskState,
        p: ProposalModel,
        sender: Seq<u8>,
        signature_valid: bool,
        new: DaTaskState,
        r: Result<Vec<DaAction>, ValidationError>,
    ) -> bool {
        &&& new == old
        &&& match proposal_recv_error(old, p, sender, signature_valid) {
            Some(e) => r == Err::<Vec<DaAction>, ValidationError>(e),
            None => r is Ok && r->Ok_0@.len() == 1 && is_validated_action(r->Ok_0@[0], p, sender),
        }
    }

    /// Handles `DaProposalRecv`.
    pub fn on_proposal_recv(&self, proposal: Proposal, sender: Vec<u8>, signature_valid: bool) -> (r:
        Result<Vec<DaAction>, ValidationError>)
        requires
            self.wf(),
        ensures
            Self::proposal_recv_post(*self, proposal@, sender@, signature_valid, *self, r),
    {
        let view = proposal.data.view_number;
        if self.cur_view > 0 && view < self.cur_view - 1 {
            return Err(ValidationError::StaleView);
        }
        if self.find_payload(view) < self.saved_payloads.len() {
            return Err(ValidationError::DuplicatePayload);
        }
        if !bytes_eq(self.membership.leader(view, self.cur_epoch).as_slice(), sender.as_slice()) {
            return Err(ValidationError::WrongLeader);
        }
        if !signature_valid {
            return Err(ValidationError::BadSignature);
        }
        let mut actions: Vec<DaAction> = Vec::new();
        actions.push(DaAction::ProposalValidated { proposal, sender });
        Ok(actions)
    }

    /// Position of the saved payload for `v`, or the number of saved payloads.
    fn find_payload(&self, v: u64) -> (r: usize)
        ensures
            r <= self.saved_payloads@.len(),
            r < self.saved_payloads@.len() ==> self.saved_payloads@[r as int].view_number == v,
            r == self.saved_payloads@.len() <==> !has_payload(self.saved_payloads@, v),
    {
        let mut i: usize = 0;
        while i < self.saved_payloads.len()
            invariant
                i <= self.saved_payloads@.len(),
                forall|j: int| 0 <= j < i ==> (#[trigger] self.saved_payloads@[j]).view_number != v,
            decreases self.saved_payloads@.len() - i,
        {
            if self.saved_payloads[i].view_number == v {
                return i;
            }
            i = i + 1;
        }
        i
    }

    /// Position of the accumulator for `v`, or the number of accumulators.
    fn find_collector(&self, v: u64) -> (r: usize)
        requires
            views_distinct(self.vote_collectors@),
        ensures
            r <= self.vote_collectors@.len(),
            r < self.vote_collectors@.len() ==> self.vote_collectors@[r as int].view_number == v
                && collector_of(self.vote_collectors@, v) == Some(self.vote_collectors@[r as int]@),
            r == self.vote_collectors@.len() <==> !has_collector(self.vote_collectors@, v),
            r == self.vote_collectors@.len() ==> collector_of(self.vote_collectors@, v) is None,
    {
        let mut i: usize = 0;
        while i < self.vote_collectors.len()
            invariant
                views_distinct(self.vote_collectors@),
                i <= self.vote_collectors@.len(),
                forall|j: int| 0 <= j < i ==> (#[trigger] self.vote_collectors@[j]).view_number != v,
            decreases self.vote_collectors@.len() - i,
        {
            if self.vote_collectors[i].view_number == v {
                proof {
                    let cs = self.vote_collectors@;
                    let j = choose|j: int| 0 <= j < cs.len() && #[trigger] cs[j].view_number == v;
                    if j != i {
                        assert(cs[j].tagged_view() != cs[i as int].tagged_view());
                    }
                }
                return i;
            }
            i = i + 1;
        }
        i
    }

    /// Whether a certificate was sent for `v`.
    fn is_certified(&self, v: u64) -> (r: bool)
        ensures
            r == self.certified_views@.contains(v),
    {
        let mut i: usize = 0;
        while i < self.certified_views.len()
            invariant
                i <= self.certified_views@.len(),
                forall|j: int| 0 <= j < i ==> self.certified_views@[j] != v,
            decreases self.certified_views@.len() - i,
        {
            if self.certified_views[i] == v {
                assert(self.certified_views@[i as int] == v);
                return true;
            }
            i = i + 1;
        }
        false
    }

    /// The effect of `DaProposalValidated(proposal, sender)`: nothing
    /// changes; a proposal that has gone stale is dropped; otherwise it is
    /// published to the application and, where this node holds DA stake, its
    /// payload commitment is requested for a committee of the quorum's size.
    pub open spec fn proposal_validated_post(
        old: DaTaskState,
        p: ProposalModel,
        sender: Seq<u8>,
        new: DaTaskState,
        r: Result<Vec<DaAction>, ValidationError>,
    ) -> bool {
        &&& new == old
        &&& if proposal_stale(old.cur_view, p.data.view_number) {
            r == Err::<Vec<DaAction>, ValidationError>(ValidationError::StaleView)
        } else {
            &&& r is Ok
            &&& r->Ok_0@.len() == if is_member(old.da_table(), old.public_key@) { 2int } else { 1int }
            &&& match r->Ok_0@[0] {
                DaAction::PublishProposal { view_number, proposal, sender: s } => view_number
                    == old.cur_view && proposal@ == p && s@ == sender,
                _ => false,
            }
            &&& r->Ok_0@.len() == 2 ==> match r->Ok_0@[1] {
                DaAction::ComputePayloadCommitment { proposal, num_nodes } => proposal@ == p
                    && num_nodes == old.membership.stake_table@.len(),
                _ => false,
            }
        }
    }

    /// Handles `DaProposalValidated`.
    pub fn on_proposal_validated(&self, proposal: Proposal, sender: Vec<u8>) -> (r: Result<
        Vec<DaAction>,
        ValidationError,
    >)
        requires
            self.wf(),
        ensures
            Self::proposal_validated_post(*self, proposal@, sender@, *self, r),
    {
        let view = proposal.data.view_number;
        if self.cur_view > 0 && view < self.cur_view - 1 {
            return Err(ValidationError::StaleView);
        }
        let mut actions: Vec<DaAction> = Vec::new();
        let stake = self.membership.has_da_stake(self.public_key.as_slice(), self.cur_epoch);
        if stake {
            let copy = proposal.duplicate();
            actions.push(DaAction::PublishProposal { view_number: self.cur_view, proposal, sender });
            let num_nodes = self.membership.total_nodes(self.cur_epoch);
            actions.push(DaAction::ComputePayloadCommitment { proposal: copy, num_nodes });
        } else {
            actions.push(DaAction::PublishProposal { view_number: self.cur_view, proposal, sender });
        }
        Ok(actions)
    }

    /// The effect of `PayloadStored(proposal, commitment, primary_down)`:
    /// for a proposal that is stale or behind the horizon, where this node
    /// holds no DA stake, or for a view with a saved payload, nothing
    /// changes and the event is dropped. Otherwise the payload is saved
    /// with its commitment, the view is recorded as signed for (it never was
    /// before), a vote on the commitment is requested and, where the primary
    /// network is down, this node's VID share.
    pub open spec fn payload_stored_post(
        old: DaTaskState,
        p: ProposalModel,
        c: Seq<u8>,
        primary_down: bool,
        new: DaTaskState,
        r: Result<Vec<DaAction>, ValidationError>,
    ) -> bool {
        let v = p.data.view_number;
        match payload_stored_error(old, v) {
            Some(e) => r == Err::<Vec<DaAction>, ValidationError>(e) && new == old,
            None => {
                &&& !old.signed_views@.contains(v)
                &&& new.signed_views@ == old.signed_views@.insert(v)
                &&& new.saved_payloads@.len() == old.saved_payloads@.len() + 1
                &&& new.saved_payloads@.drop_last() == old.saved_payloads@
                &&& new.saved_payloads@.last().view_number == v
                &&& new.saved_payloads@.last().payload_commitment@ == c
                &&& new.saved_payloads@.last().encoded_transactions@ == p.data.encoded_transactions
                &&& new.cur_view == old.cur_view
                &&& new.cur_epoch == old.cur_epoch
                &&& new.membership == old.membership
                &&& new.public_key == old.public_key
                &&& new.id == old.id
                &&& new.gc_window == old.gc_window
                &&& new.vote_collectors == old.vote_collectors
                &&& new.certified_views == old.certified_views
                &&& r is Ok
                &&& r->Ok_0@.len() == if primary_down { 2int } else { 1int }
                &&& is_vote_action(r->Ok_0@[0], v, c)
                &&& primary_down ==> r->Ok_0@[1] == DaAction::ComputeVidShare { view_number: v }
            },
        }
    }

    /// Handles `PayloadStored`.
    pub fn on_payload_stored(
        &mut self,
        proposal: Proposal,
        payload_commitment: Vec<u8>,
        primary_network_down: bool,
    ) -> (r: Result<Vec<DaAction>, ValidationError>)
        requires
            old(self).wf(),
        ensures
            final(self).wf(),
            Self::payload_stored_post(
                *old(self),
                proposal@,
                payload_commitment@,
                primary_network_down,
                *final(self),
                r,
            ),
    {
        let view = proposal.data.view_number;
        if (self.cur_view > 0 && view < self.cur_view - 1) || is_behind_horizon(
            self.cur_view,
            self.gc_window,
            view,
        ) {
            return Err(ValidationError::StaleView);
        }
        if !self.membership.has_da_stake(self.public_key.as_slice(), self.cur_epoch) {
            return Err(ValidationError::UnknownSigner);
        }
        if self.find_payload(view) < self.saved_payloads.len() {
            return Err(ValidationError::DuplicatePayload);
        }
        let ghost prev = *self;
        let vote_data = VoteData::DA(copy_bytes(payload_commitment.as_slice()));
        let message = vote_data.commit();
        let commit_copy = copy_bytes(payload_commitment.as_slice());
        self.saved_payloads.push(
            SavedPayload {
                view_number: view,
                payload_commitment: commit_copy,
                encoded_transactions: proposal.data.encoded_transactions,
            },
        );
        self.signed_views = Ghost(self.signed_views@.insert(view));
        proof {
            assert(self.saved_payloads@.drop_last() =~= prev.saved_payloads@);
            assert forall|i: int, j: int|
                0 <= i < self.saved_payloads@.len() && 0 <= j < self.saved_payloads@.len() && i
                    != j implies #[trigger] self.saved_payloads@[i].tagged_view()
                != #[trigger] self.saved_payloads@[j].tagged_view() by {
                if i < prev.saved_payloads@.len() && j < prev.saved_payloads@.len() {
                    assert(prev.saved_payloads@[i].tagged_view() != prev.saved_payloads@[j].tagged_view());
                } else if i < prev.saved_payloads@.len() {
                    assert(prev.saved_payloads@[i].view_number != view);
                } else {
                    assert(prev.saved_payloads@[j].view_number != view);
                }
            }
            assert forall|i: int| 0 <= i < self.saved_payloads@.len() implies !behind_horizon(
                self.cur_view,
                self.gc_window,
                #[trigger] self.saved_payloads@[i].tagged_view(),
            ) by {
                if i < prev.saved_payloads@.len() {
                    assert(prev.saved_payloads@[i] == self.saved_payloads@[i]);
                }
            }
            assert forall|w: u64|
                #[trigger] self.signed_views@.contains(w) && !behind_horizon(
                    self.cur_view,
                    self.gc_window,
                    w,
                ) && !proposal_stale(self.cur_view, w) implies has_payload(
                self.saved_payloads@,
                w,
            ) by {
                if w == view {
                    assert(self.saved_payloads@[self.saved_payloads@.len() - 1].view_number == w);
                } else {
                    assert(has_payload(prev.saved_payloads@, w));
                    let i = choose|i: int|
                        0 <= i < prev.saved_payloads@.len()
                            && #[trigger] prev.saved_payloads@[i].view_number == w;
                    assert(self.saved_payloads@[i] == prev.saved_payloads@[i]);
                }
            }
            if prev.signed_views@.contains(view) {
                assert(has_payload(prev.saved_payloads@, view));
            }
        }
        let mut actions: Vec<DaAction> = Vec::new();
        actions.push(DaAction::SendVote { view_number: view, payload_commit: payload_commitment, message });
        if primary_network_down {
            actions.push(DaAction::ComputeVidShare { view_number: view });
        }
        Ok(actions)
    }
}

proof fn lemma_collector_at(cs: Seq<VoteAccumulator>, i: int)
    requires
        views_distinct(cs),
        0 <= i < cs.len(),
    ensures
        has_collector(cs, cs[i].view_number),
        collector_of(cs, cs[i].view_number) == Some(cs[i]@),
{
    let v = cs[i].view_number;
    assert(has_collector(cs, v));
    let j = choose|j: int| 0 <= j < cs.len() && #[trigger] cs[j].view_number == v;
    if j != i {
        assert(cs[j].tagged_view() != cs[i].tagged_view());
    }
}

/// Replacing the accumulator at `k` by one for the same view.
proof fn lemma_collectors_update(cs: Seq<VoteAccumulator>, k: int, acc: VoteAccumulator)
    requires
        views_distinct(cs),
        0 <= k < cs.len(),
        acc.view_number == cs[k].view_number,
    ensures
        views_distinct(cs.update(k, acc)),
        collector_of(cs.update(k, acc), acc.view_number) == Some(acc@),
        forall|w: u64|
            w != acc.view_number ==> #[trigger] collector_of(cs.update(k, acc), w) == collector_of(
                cs,
                w,
            ),
{
    let cs2 = cs.update(k, acc);
    assert forall|i: int, j: int| 0 <= i < cs2.len() && 0 <= j < cs2.len() && i != j implies #[trigger] cs2[i].tagged_view()
        != #[trigger] cs2[j].tagged_view() by {
        assert(cs[i].tagged_view() != cs[j].tagged_view());
    }
    lemma_collector_at(cs2, k);
    assert forall|w: u64| w != acc.view_number implies #[trigger] collector_of(cs2, w) == collector_of(cs, w) by {
        if has_collector(cs, w) {
            let i = choose|i: int| 0 <= i < cs.len() && #[trigger] cs[i].view_number == w;
            lemma_collector_at(cs, i);
            lemma_collector_at(cs2, i);
        } else {
            assert(!has_collector(cs2, w)) by {
                if has_collector(cs2, w) {
                    let i = choose|i: int| 0 <= i < cs2.len() && #[trigger] cs2[i].view_number == w;
                    assert(cs[i].view_number == w);
                }
            }
        }
    }
}

/// Removing the accumulator at `k`.
proof fn lemma_collectors_remove(cs: Seq<VoteAccumulator>, k: int)
    requires
        views_distinct(cs),
        0 <= k < cs.len(),
    ensures
        views_distinct(cs.remove(k)),
        collector_of(cs.remove(k), cs[k].view_number) is None,
        forall|w: u64|
            w != cs[k].view_number ==> #[trigger] collector_of(cs.remove(k), w) == collector_of(cs, w),
{
    let cs2 = cs.remove(k);
    let v = cs[k].view_number;
    assert forall|i: int| 0 <= i < cs2.len() implies #[trigger] cs2[i] == cs[if i < k { i } else { i + 1 }] by {}
    assert forall|i: int, j: int| 0 <= i < cs2.len() && 0 <= j < cs2.len() && i != j implies #[trigger] cs2[i].tagged_view()
        != #[trigger] cs2[j].tagged_view() by {
        let i0 = if i < k { i } else { i + 1 };
        let j0 = if j < k { j } else { j + 1 };
        assert(cs[i0].tagged_view() != cs[j0].tagged_view());
    }
    assert(!has_collector(cs2, v)) by {
        if has_collector(cs2, v) {
            let i = choose|i: int| 0 <= i < cs2.len() && #[trigger] cs2[i].view_number == v;
            let i0 = if i < k { i } else { i + 1 };
            assert(cs[i0].tagged_view() != cs[k].tagged_view());
        }
    }
    assert forall|w: u64| w != v implies #[trigger] collector_of(cs2, w) == collector_of(cs, w) by {
        if has_collector(cs, w) {
            let i = choose|i: int| 0 <= i < cs.len() && #[trigger] cs[i].view_number == w;
            lemma_collector_at(cs, i);
            let i2 = if i < k { i } else { i - 1 };
            assert(cs2[i2] == cs[i]);
            lemma_collector_at(cs2, i2);
        } else {
            assert(!has_collector(cs2, w)) by {
                if has_collector(cs2, w) {
                    let i = choose|i: int| 0 <= i < cs2.len() && #[trigger] cs2[i].view_number == w;
                    let i0 = if i < k { i } else { i + 1 };
                    assert(cs[i0].view_number == w);
                }
            }
        }
    }
}

/// Adding an accumulator for a view that has none.
proof fn lemma_collectors_push(cs: Seq<VoteAccumulator>, acc: VoteAccumulator)
    requires
        views_distinct(cs),
        !has_collector(cs, acc.view_number),
    ensures
        views_distinct(cs.push(acc)),
        collector_of(cs.push(acc), acc.view_number) == Some(acc@),
        forall|w: u64|
            w != acc.view_number ==> #[trigger] collector_of(cs.push(acc), w) == collector_of(cs, w),
{
    let cs2 = cs.push(acc);
    assert forall|i: int, j: int| 0 <= i < cs2.len() && 0 <= j < cs2.len() && i != j implies #[trigger] cs2[i].tagged_view()
        != #[trigger] cs2[j].tagged_view() by {
        if i < cs.len() && j < cs.len() {
            assert(cs[i].tagged_view() != cs[j].tagged_view());
        } else if i < cs.len() {
            assert(cs[i].view_number != acc.view_number);
        } else {
            assert(cs[j].view_number != acc.view_number);
        }
    }
    lemma_collector_at(cs2, cs.len() as int);
    assert forall|w: u64| w != acc.view_number implies #[trigger] collector_of(cs2, w) == collector_of(cs, w) by {
        if has_collector(cs, w) {
            let i = choose|i: int| 0 <= i < cs.len() && #[trigger] cs[i].view_number == w;
            lemma_collector_at(cs, i);
            assert(cs2[i] == cs[i]);
            lemma_collector_at(cs2, i);
        } else {
            assert(!has_collector(cs2, w)) by {
                if has_collector(cs2, w) {
                    let i = choose|i: int| 0 <= i < cs2.len() && #[trigger] cs2[i].view_number == w;
                    if i < cs.len() {
                        assert(cs[i].view_number == w);
                    }
                }
            }
        }
    }
}

impl DaTaskState {
    /// The effect of `DaVoteRecv(vote)`. A vote for a view this node does
    /// not lead (`NotLeader`) or behind the horizon (`StaleView`) is dropped;
    /// a vote for a view already certified changes nothing. Any other goes
    /// to the view's accumulator (a fresh one where there is none), weighed
    /// against the DA stake table at the DA success threshold: a rejected
    /// vote changes nothing; a counted one updates the accumulator; and a
    /// certificate is sent and the accumulator dropped once the threshold is
    /// reached. Accumulators of other views are left as they were.
    pub open spec fn vote_recv_post(
        old: DaTaskState,
        vote: DAVoteModel,
        signature_valid: bool,
        new: DaTaskState,
        r: Result<Vec<DaAction>, ValidationError>,
    ) -> bool {
        let v = vote.view_number;
        &&& same_but_votes(old, new)
        &&& match vote_recv_error(old, v) {
            Some(e) => r == Err::<Vec<DaAction>, ValidationError>(e) && new == old,
            None => if old.certified_views@.contains(v) {
                r is Ok && r->Ok_0@.len() == 0 && new == old
            } else {
                let (a2, out) = append_spec(
                    collector_for(old, v),
                    old.da_table(),
                    old.da_threshold(),
                    vote.signer,
                    vote.payload_commit,
                    vote.signature,
                    signature_valid,
                );
                &&& forall|w: u64|
                    w != v ==> #[trigger] collector_of(new.vote_collectors@, w) == collector_of(
                        old.vote_collectors@,
                        w,
                    )
                &&& match out {
                    AppendOutcomeModel::Rejected(e) => {
                        &&& r == Err::<Vec<DaAction>, ValidationError>(e)
                        &&& collector_of(new.vote_collectors@, v) == collector_of(old.vote_collectors@, v)
                        &&& new.certified_views == old.certified_views
                    },
                    AppendOutcomeModel::Pending => {
                        &&& r is Ok && r->Ok_0@.len() == 0
                        &&& collector_of(new.vote_collectors@, v) == Some(a2)
                        &&& new.certified_views == old.certified_views
                    },
                    AppendOutcomeModel::Certificate(cm) => {
                        &&& r is Ok && r->Ok_0@.len() == 1
                        &&& match r->Ok_0@[0] {
                            DaAction::SendCertificate { certificate } => certificate@ == cm,
                            _ => false,
                        }
                        &&& cert_valid_spec(old.da_table(), old.da_threshold(), cm, vote.payload_commit, true)
                        &&& collector_of(new.vote_collectors@, v) is None
                        &&& new.certified_views@ == old.certified_views@.push(v)
                    },
                }
            },
        }
    }

    /// Handles `DaVoteRecv`.
    pub fn on_vote_recv(&mut self, vote: DAVote, signature_valid: bool) -> (r: Result<Vec<DaAction>, ValidationError>)
        requires
            old(self).wf(),
        ensures
            final(self).wf(),
            Self::vote_recv_post(*old(self), vote@, signature_valid, *final(self), r),
    {
        let v = vote.view_number;
        if !self.membership.is_leader(self.public_key.as_slice(), v, self.cur_epoch) {
            return Err(ValidationError::NotLeader);
        }
        if is_behind_horizon(self.cur_view, self.gc_window, v) {
            return Err(ValidationError::StaleView);
        }
        if self.is_certified(v) {
            return Ok(Vec::new());
        }
        let ghost prev = *self;
        let th = self.membership.da_success_threshold(self.cur_epoch);
        let k = self.find_collector(v);
        proof {
            if k < self.vote_collectors.len() {
                assert(collector_ok(self.vote_collectors@[k as int], self.da_table()));
            } else {
                let e = empty_accumulator(v, VoteKind::DA, self.da_table().len());
                assert(e.tallies.len() == 0);
                assert(accumulator_wf(e, self.da_table()));
            }
            lemma_emitted_certificate_valid(
                collector_for(prev, v),
                prev.da_table(),
                th,
                vote.signer@,
                vote.payload_commit@,
                vote.signature@,
                signature_valid,
            );
            if k < self.vote_collectors.len() {
                assert(collector_ok(self.vote_collectors@[k as int], self.da_table()));
            }
        }
        if k < self.vote_collectors.len() {
            let out = self.vote_collectors[k].append(
                &self.membership.da_stake_table,
                th,
                vote.signer.as_slice(),
                vote.payload_commit.as_slice(),
                vote.signature.as_slice(),
                signature_valid,
            );
            let ghost acc = self.vote_collectors@[k as int];
            proof {
                assert(self.vote_collectors@ == prev.vote_collectors@.update(k as int, acc));
                lemma_collectors_update(prev.vote_collectors@, k as int, acc);
                assert forall|j: int| 0 <= j < self.vote_collectors@.len() implies #[trigger] collector_ok(
                    self.vote_collectors@[j],
                    self.da_table(),
                ) by {
                    if j != k {
                        assert(collector_ok(prev.vote_collectors@[j], prev.da_table()));
                    }
                }
                assert forall|j: int| 0 <= j < self.vote_collectors@.len() implies !behind_horizon(
                    self.cur_view,
                    self.gc_window,
                    #[trigger] self.vote_collectors@[j].tagged_view(),
                ) by {
                    assert(prev.vote_collectors@[j].tagged_view() == self.vote_collectors@[j].tagged_view());
                }
            }
            match out {
                AppendOutcome::Rejected(e) => Err(e),
                AppendOutcome::Pending => Ok(Vec::new()),
                AppendOutcome::Certificate(c) => {
                    let ghost cs1 = self.vote_collectors@;
                    self.vote_collectors.remove(k);
                    self.certified_views.push(v);
                    proof {
                        lemma_collectors_remove(cs1, k as int);
                        assert forall|j: int| 0 <= j < self.vote_collectors@.len() implies #[trigger] collector_ok(
                            self.vote_collectors@[j],
                            self.da_table(),
                        ) by {
                            let j0 = if j < k { j } else { j + 1 };
                            assert(self.vote_collectors@[j] == cs1[j0]);
                            assert(collector_ok(cs1[j0], self.da_table()));
                        }
                        assert forall|j: int| 0 <= j < self.vote_collectors@.len() implies !behind_horizon(
                            self.cur_view,
                            self.gc_window,
                            #[trigger] self.vote_collectors@[j].tagged_view(),
                        ) by {
                            let j0 = if j < k { j } else { j + 1 };
                            assert(self.vote_collectors@[j] == cs1[j0]);
                            assert(!behind_horizon(self.cur_view, self.gc_window, cs1[j0].tagged_view()));
                        }
                        assert forall|j: int| 0 <= j < self.certified_views@.len() implies !behind_horizon(
                            self.cur_view,
                            self.gc_window,
                            #[trigger] self.certified_views@[j].tagged_view(),
                        ) by {
                            if j < prev.certified_views@.len() {
                                assert(prev.certified_views@[j] == self.certified_views@[j]);
                            }
                        }
                    }
                    let mut actions: Vec<DaAction> = Vec::new();
                    actions.push(DaAction::SendCertificate { certificate: c });
                    Ok(actions)
                },
            }
        } else {
            let mut acc = VoteAccumulator::new(v, VoteKind::DA, &self.membership.da_stake_table);
            let out = acc.append(
                &self.membership.da_stake_table,
                th,
                vote.signer.as_slice(),
                vote.payload_commit.as_slice(),
                vote.signature.as_slice(),
                signature_valid,
            );
            match out {
                AppendOutcome::Rejected(e) => Err(e),
                AppendOutcome::Pending => {
                    self.vote_collectors.push(acc);
                    proof {
                        lemma_collectors_push(prev.vote_collectors@, acc);
                        assert forall|j: int| 0 <= j < self.vote_collectors@.len() implies #[trigger] collector_ok(
                            self.vote_collectors@[j],
                            self.da_table(),
                        ) by {
                            if j < prev.vote_collectors@.len() {
                                assert(collector_ok(prev.vote_collectors@[j], prev.da_table()));
                            }
                        }
                        assert forall|j: int| 0 <= j < self.vote_collectors@.len() implies !behind_horizon(
                            self.cur_view,
                            self.gc_window,
                            #[trigger] self.vote_collectors@[j].tagged_view(),
                        ) by {
                            if j < prev.vote_collectors@.len() {
                                assert(prev.vote_collectors@[j] == self.vote_collectors@[j]);
                            }
                        }
                    }
                    Ok(Vec::new())
                },
                AppendOutcome::Certificate(c) => {
                    self.certified_views.push(v);
                    proof {
                        assert forall|j: int| 0 <= j < self.certified_views@.len() implies !behind_horizon(
                            self.cur_view,
                            self.gc_window,
                            #[trigger] self.certified_views@[j].tagged_view(),
                        ) by {
                            if j < prev.certified_views@.len() {
                                assert(prev.certified_views@[j] == self.certified_views@[j]);
                            }
                        }
                    }
                    let mut actions: Vec<DaAction> = Vec::new();
                    actions.push(DaAction::SendCertificate { certificate: c });
                    Ok(actions)
                },
            }
        }
    }

    /// The effect of `BlockRecv(transactions, metadata, view)`: nothing
    /// changes, and the proposal of the block for the view is to be signed
    /// over the SHA-256 digest of the transactions and sent.
    pub open spec fn block_recv_post(
        old: DaTaskState,
        tx: Seq<u8>,
        metadata: Seq<u8>,
        view: u64,
        new: DaTaskState,
        r: Result<Vec<DaAction>, ValidationError>,
    ) -> bool {
        &&& new == old
        &&& r is Ok
        &&& r->Ok_0@.len() == 1
        &&& match r->Ok_0@[0] {
            DaAction::SendProposal { proposal, digest } => proposal@ == (DaProposalModel {
                view_number: view,
                encoded_transactions: tx,
                metadata,
            }) && digest@ == sha256_of(tx),
            _ => false,
        }
    }

    /// Handles `BlockRecv`.
    pub fn on_block_recv(&self, encoded_transactions: Vec<u8>, metadata: Vec<u8>, view_number: u64) -> (r:
        Result<Vec<DaAction>, ValidationError>)
        ensures
            Self::block_recv_post(*self, encoded_transactions@, metadata@, view_number, *self, r),
    {
        let proposal = DaProposal { view_number, encoded_transactions, metadata };
        let digest = proposal.payload_digest();
        let mut actions: Vec<DaAction> = Vec::new();
        actions.push(DaAction::SendProposal { proposal, digest });
        Ok(actions)
    }
}

/// Every saved payload of `old` that is not behind the horizon of `new` is
/// still saved, unchanged, in `new`.
pub open spec fn payloads_kept(old: DaTaskState, new: DaTaskState) -> bool {
    forall|i: int|
        0 <= i < old.saved_payloads@.len() && !behind_horizon(
            new.cur_view,
            new.gc_window,
            #[trigger] old.saved_payloads@[i].view_number,
        ) ==> exists|j: int|
            0 <= j < new.saved_payloads@.len() && new.saved_payloads@[j] == old.saved_payloads@[i]
}

/// The view an action asks a DA vote to be signed for, if it is a vote.
pub open spec fn vote_view_of(a: DaAction) -> Option<u64> {
    match a {
        DaAction::SendVote { view_number, .. } => Some(view_number),
        _ => None,
    }
}

/// Every vote that `r` asks for is for a view that had never been signed
/// for, and is recorded as signed for; the views signed for only grow.
pub open spec fn votes_fresh(
    old: DaTaskState,
    new: DaTaskState,
    r: Result<Vec<DaAction>, ValidationError>,
) -> bool {
    &&& old.signed_views@.subset_of(new.signed_views@)
    &&& r is Ok ==> forall|i: int|
        0 <= i < r->Ok_0@.len() && (#[trigger] vote_view_of(r->Ok_0@[i])) is Some ==> {
            let v = vote_view_of(r->Ok_0@[i])->Some_0;
            !old.signed_views@.contains(v) && new.signed_views@.contains(v)
        }
}

impl DaTaskState {
    /// Main event handler: each event is handled as its handler above says.
    /// Whatever the event, the task keeps one payload per view, keeps no state
    /// behind the horizon, and never asks twice for a DA vote for a view.
    pub fn handle(&mut self, event: DaEvent) -> (r: Result<Vec<DaAction>, ValidationError>)
        requires
            old(self).wf(),
        ensures
            final(self).wf(),
            views_distinct(final(self).saved_payloads@),
            final(self).collected(),
            payloads_kept(*old(self), *final(self)),
            votes_fresh(*old(self), *final(self), r),
            match event {
                DaEvent::DaProposalRecv { proposal, sender, signature_valid } => Self::proposal_recv_post(
                    *old(self),
                    proposal@,
                    sender@,
                    signature_valid,
                    *final(self),
                    r,
                ),
                DaEvent::DaProposalValidated { proposal, sender } => Self::proposal_validated_post(
                    *old(self),
                    proposal@,
                    sender@,
                    *final(self),
                    r,
                ),
                DaEvent::PayloadStored { proposal, payload_commitment, primary_network_down } =>
                    Self::payload_stored_post(
                    *old(self),
                    proposal@,
                    payload_commitment@,
                    primary_network_down,
                    *final(self),
                    r,
                ),
                DaEvent::DaVoteRecv { vote, signature_valid } => Self::vote_recv_post(
                    *old(self),
                    vote@,
                    signature_valid,
                    *final(self),
                    r,
                ),
                DaEvent::ViewChange { view, epoch } => Self::view_change_post(
                    *old(self),
                    view,
                    epoch,
                    *final(self),
                    r,
                ),
                DaEvent::BlockRecv { encoded_transactions, metadata, view_number } =>
                    Self::block_recv_post(
                    *old(self),
                    encoded_transactions@,
                    metadata@,
                    view_number,
                    *final(self),
                    r,
                ),
            },
    {
        let r = match event {
            DaEvent::DaProposalRecv { proposal, sender, signature_valid } => self.on_proposal_recv(
                proposal,
                sender,
                signature_valid,
            ),
            DaEvent::DaProposalValidated { proposal, sender } => self.on_proposal_validated(
                proposal,
                sender,
            ),
            DaEvent::PayloadStored { proposal, payload_commitment, primary_network_down } =>
                self.on_payload_stored(proposal, payload_commitment, primary_network_down),
            DaEvent::DaVoteRecv { vote, signature_valid } => self.on_vote_recv(vote, signature_valid),
            DaEvent::ViewChange { view, epoch } => self.on_view_change(view, epoch),
            DaEvent::BlockRecv { encoded_transactions, metadata, view_number } => self.on_block_recv(
                encoded_transactions,
                metadata,
                view_number,
            ),
        };
        proof {
            let o = *old(self);
            let n = *self;
            if event is ViewChange && r is Ok {
                lemma_recent_props(o.saved_payloads@, n.cur_view, n.gc_window);
                assert forall|i: int|
                    0 <= i < o.saved_payloads@.len() && !behind_horizon(
                        n.cur_view,
                        n.gc_window,
                        #[trigger] o.saved_payloads@[i].view_number,
                    ) implies exists|j: int|
                    0 <= j < n.saved_payloads@.len() && n.saved_payloads@[j] == o.saved_payloads@[i] by {
                    assert(o.saved_payloads@[i].tagged_view() == o.saved_payloads@[i].view_number);
                }
            } else {
                assert forall|i: int|
                    0 <= i < o.saved_payloads@.len() && !behind_horizon(
                        n.cur_view,
                        n.gc_window,
                        #[trigger] o.saved_payloads@[i].view_number,
                    ) implies exists|j: int|
                    0 <= j < n.saved_payloads@.len() && n.saved_payloads@[j] == o.saved_payloads@[i] by {
                    if n.saved_payloads@.len() > o.saved_payloads@.len() {
                        assert(n.saved_payloads@.drop_last()[i] == n.saved_payloads@[i]);
                    }
                    assert(n.saved_payloads@[i] == o.saved_payloads@[i]);
                }
            }
            if r is Ok {
                let acts = r->Ok_0@;
                assert forall|i: int|
                    0 <= i < acts.len() && (#[trigger] vote_view_of(acts[i])) is Some implies {
                    let v = vote_view_of(acts[i])->Some_0;
                    !old(self).signed_views@.contains(v) && self.signed_views@.contains(v)
                } by {
                    if !(event is PayloadStored) {
                        assert(vote_view_of(acts[i]) is None);
                    } else {
                        if i > 0 {
                            assert(vote_view_of(acts[i]) is None);
                        }
                    }
                }
            }
        }
        r
    }
}

/// Once a certificate for a view has been sent, a later vote for that view
/// (the same or another) changes nothing and sends no certificate.
pub proof fn lemma_certificate_sent_once(
    s0: DaTaskState,
    vote1: DAVoteModel,
    valid1: bool,
    s1: DaTaskState,
    r1: Result<Vec<DaAction>, ValidationError>,
    vote2: DAVoteModel,
    valid2: bool,
    s2: DaTaskState,
    r2: Result<Vec<DaAction>, ValidationError>,
)
    requires
        DaTaskState::vote_recv_post(s0, vote1, valid1, s1, r1),
        r1 is Ok && r1->Ok_0@.len() == 1 && r1->Ok_0@[0] is SendCertificate,
        DaTaskState::vote_recv_post(s1, vote2, valid2, s2, r2),
        vote2.view_number == vote1.view_number,
    ensures
        s2 == s1,
        r2 is Ok ==> r2->Ok_0@.len() == 0,
{
    let v = vote1.view_number;
    assert(vote_recv_error(s0, v) is None);
    assert(!s0.certified_views@.contains(v));
    assert(s1.certified_views@ == s0.certified_views@.push(v));
    assert(s1.certified_views@[s1.certified_views@.len() - 1] == v);
    assert(s1.certified_views@.contains(v));
}

/// A node asks at most once for a DA vote for a view: once an event has led
/// to a vote for view `v`, no later event does, whatever happened between
/// (every event only adds to the views signed for).
pub proof fn lemma_vote_once(
    s0: DaTaskState,
    s1: DaTaskState,
    r1: Result<Vec<DaAction>, ValidationError>,
    i: int,
    s_mid: DaTaskState,
    s2: DaTaskState,
    r2: Result<Vec<DaAction>, ValidationError>,
    j: int,
)
    requires
        votes_fresh(s0, s1, r1),
        r1 is Ok,
        0 <= i < r1->Ok_0@.len(),
        vote_view_of(r1->Ok_0@[i]) is Some,
        s1.signed_views@.subset_of(s_mid.signed_views@),
        votes_fresh(s_mid, s2, r2),
        r2 is Ok,
        0 <= j < r2->Ok_0@.len(),
    ensures
        vote_view_of(r2->Ok_0@[j]) != vote_view_of(r1->Ok_0@[i]),
{
    let v = vote_view_of(r1->Ok_0@[i])->Some_0;
    assert(s1.signed_views@.contains(v));
    assert(s_mid.signed_views@.contains(v));
}

/// A node keeps one payload per view: a payload saved before an event is,
/// after it, the payload saved for its view, unless the view fell behind the
/// horizon.
pub proof fn lemma_saved_payload_stays(old: DaTaskState, new: DaTaskState, i: int, j: int)
    requires
        payloads_kept(old, new),
        views_distinct(new.saved_payloads@),
        0 <= i < old.saved_payloads@.len(),
        !behind_horizon(new.cur_view, new.gc_window, old.saved_payloads@[i].view_number),
        0 <= j < new.saved_payloads@.len(),
        new.saved_payloads@[j].view_number == old.saved_payloads@[i].view_number,
    ensures
        new.saved_payloads@[j] == old.saved_payloads@[i],
{
    let k = choose|k: int|
        0 <= k < new.saved_payloads@.len() && new.saved_payloads@[k] == old.saved_payloads@[i];
    if k != j {
        assert(new.saved_payloads@[k].tagged_view() != new.saved_payloads@[j].tagged_view());
    }
}

/// A DA member that validates a fresh proposal for view `v` and is then
/// told its payload is stored with commitment `c` asks for exactly one vote,
/// for `v` on `c`, and saves the proposal's transactions for `v`.
pub proof fn lemma_member_votes_on_stored_payload(
    s0: DaTaskState,
    p: ProposalModel,
    sender: Seq<u8>,
    s1: DaTaskState,
    r1: Result<Vec<DaAction>, ValidationError>,
    c: Seq<u8>,
    primary_down: bool,
    s2: DaTaskState,
    r2: Result<Vec<DaAction>, ValidationError>,
)
    requires
        s0.wf(),
        DaTaskState::proposal_validated_post(s0, p, sender, s1, r1),
        DaTaskState::payload_stored_post(s1, p, c, primary_down, s2, r2),
        is_member(s0.da_table(), s0.public_key@),
        !proposal_stale(s0.cur_view, p.data.view_number),
        !behind_horizon(s0.cur_view, s0.gc_window, p.data.view_number),
        !has_payload(s0.saved_payloads@, p.data.view_number),
    ensures
        r1 is Ok && r1->Ok_0@.len() == 2,
        r1->Ok_0@[1] is ComputePayloadCommitment,
        r2 is Ok,
        is_vote_action(r2->Ok_0@[0], p.data.view_number, c),
        forall|i: int| 1 <= i < r2->Ok_0@.len() ==> vote_view_of(#[trigger] r2->Ok_0@[i]) is None,
        s2.saved_payloads@.last().view_number == p.data.view_number,
        s2.saved_payloads@.last().encoded_transactions@ == p.data.encoded_transactions,
        s2.saved_payloads@.last().payload_commitment@ == c,
{
}

} // verus!
