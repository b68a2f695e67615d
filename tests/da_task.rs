use hotshot_da::accumulator::{AppendOutcome, VoteAccumulator};
use hotshot_da::certificate::check_certificate;
use hotshot_da::da::{DaAction, DaEvent, DaTaskState};
use hotshot_da::election::{success_threshold_for, Membership, StakeEntry};
use hotshot_da::error::ValidationError;
use hotshot_da::exchange::{CommitteeExchange, ConsensusExchange};
use hotshot_da::message::{DaProposal, DAVote, Proposal};
use hotshot_da::storage::DaStorage;
use hotshot_da::vote::VoteKind;

fn key(i: u8) -> Vec<u8> {
    vec![i + 1; 8]
}

fn table(stakes: &[u64]) -> Vec<StakeEntry> {
    stakes
        .iter()
        .enumerate()
        .map(|(i, s)| StakeEntry { key: key(i as u8), stake: *s })
        .collect()
}

fn membership(stakes: &[u64]) -> Membership {
    Membership::create_election(table(stakes), table(stakes)).unwrap()
}

fn node(i: u8, stakes: &[u64], gc_window: u64) -> DaTaskState {
    DaTaskState::new(membership(stakes), key(i), gc_window, i as u64)
}

fn commitment() -> Vec<u8> {
    vec![7u8; 32]
}

fn signed_proposal(view: u64, tx: Vec<u8>) -> Proposal {
    Proposal {
        data: DaProposal { view_number: view, encoded_transactions: tx, metadata: vec![1] },
        signature: vec![9, 9],
    }
}

fn vote_from(i: u8, view: u64) -> DAVote {
    DAVote { view_number: view, payload_commit: commitment(), signer: key(i), signature: vec![i, 42] }
}

fn one_action(r: Result<Vec<DaAction>, ValidationError>) -> DaAction {
    let mut v = r.unwrap();
    assert_eq!(v.len(), 1);
    v.pop().unwrap()
}

#[test]
fn happy_path_certificate_after_third_vote() {
    let stakes = [1u64, 1, 1, 1];
    // member 1 leads view 1
    let mut leader = node(1, &stakes, 20);
    let tx = vec![0xAAu8, 0xBB];
    let block = leader.handle(DaEvent::BlockRecv {
        encoded_transactions: tx.clone(),
        metadata: vec![1],
        view_number: 1,
    });
    let (data, digest) = match one_action(block) {
        DaAction::SendProposal { proposal, digest } => (proposal, digest),
        _ => panic!("expected a proposal"),
    };
    assert_eq!(data.view_number, 1);
    assert_eq!(data.encoded_transactions, tx);
    assert_eq!(digest, data.payload_digest());
    let proposal = Proposal { data, signature: vec![9, 9] };

    let mut votes = Vec::new();
    for r in [0u8, 2, 3] {
        let mut replica = node(r, &stakes, 20);
        let validated = replica.handle(DaEvent::DaProposalRecv {
            proposal: proposal.clone(),
            sender: key(1),
            signature_valid: true,
        });
        let (p, s) = match one_action(validated) {
            DaAction::ProposalValidated { proposal, sender } => (proposal, sender),
            _ => panic!("expected validation"),
        };
        let acts = replica.handle(DaEvent::DaProposalValidated { proposal: p, sender: s }).unwrap();
        assert_eq!(acts.len(), 2);
        assert!(matches!(acts[0], DaAction::PublishProposal { view_number: 0, .. }));
        assert!(matches!(acts[1], DaAction::ComputePayloadCommitment { num_nodes: 4, .. }));
        let vote = replica.handle(DaEvent::PayloadStored {
            proposal: proposal.clone(),
            payload_commitment: commitment(),
            primary_network_down: false,
        });
        match one_action(vote) {
            DaAction::SendVote { view_number, payload_commit, message } => {
                assert_eq!(view_number, 1);
                assert_eq!(payload_commit, commitment());
                assert_eq!(message, vote_from(r, 1).signing_message());
            }
            _ => panic!("expected a vote"),
        }
        assert_eq!(replica.saved_payloads.len(), 1);
        votes.push(vote_from(r, 1));
    }

    let r1 = leader.handle(DaEvent::DaVoteRecv { vote: votes[0].clone(), signature_valid: true });
    assert_eq!(r1.unwrap().len(), 0);
    let r2 = leader.handle(DaEvent::DaVoteRecv { vote: votes[1].clone(), signature_valid: true });
    assert_eq!(r2.unwrap().len(), 0);
    let r3 = leader.handle(DaEvent::DaVoteRecv { vote: votes[2].clone(), signature_valid: true });
    let cert = match one_action(r3) {
        DaAction::SendCertificate { certificate } => certificate,
        _ => panic!("expected a certificate"),
    };
    assert_eq!(cert.view_number, 1);
    assert_eq!(cert.signers, vec![true, false, true, true]);
    assert_eq!(cert.signers.iter().filter(|b| **b).count(), 3);
    assert_eq!(cert.vote_data.kind(), VoteKind::DA);
    assert_eq!(cert.leaf_commitment(), &commitment());
    assert!(leader.vote_collectors.is_empty());

    // the emitted certificate passes the certificate check
    let exchange = CommitteeExchange::create(membership(&stakes), key(1));
    assert!(exchange.is_valid_cert(&cert, &commitment(), true));
    assert!(!exchange.is_valid_cert(&cert, &vec![8u8; 32], true));
    assert!(!exchange.is_valid_cert(&cert, &commitment(), false));
}

#[test]
fn wrong_leader_is_rejected() {
    let stakes = [1u64, 1, 1, 1];
    let replica = node(0, &stakes, 20);
    let mut replica = replica;
    let r = replica.handle(DaEvent::DaProposalRecv {
        proposal: signed_proposal(1, vec![0xAA, 0xBB]),
        sender: key(2),
        signature_valid: true,
    });
    assert_eq!(r.unwrap_err(), ValidationError::WrongLeader);
}

#[test]
fn bad_signature_is_rejected() {
    let mut replica = node(0, &[1, 1, 1, 1], 20);
    let r = replica.handle(DaEvent::DaProposalRecv {
        proposal: signed_proposal(1, vec![0xAA]),
        sender: key(1),
        signature_valid: false,
    });
    assert_eq!(r.unwrap_err(), ValidationError::BadSignature);
}

#[test]
fn stale_proposal_off_by_one() {
    let mut replica = node(0, &[1, 1, 1, 1], 20);
    assert_eq!(replica.handle(DaEvent::ViewChange { view: 10, epoch: 0 }).unwrap().len(), 0);
    assert_eq!(replica.cur_view, 10);
    let old = replica.handle(DaEvent::DaProposalRecv {
        proposal: signed_proposal(8, vec![1]),
        sender: key(0),
        signature_valid: true,
    });
    assert_eq!(old.unwrap_err(), ValidationError::StaleView);
    // leader of view 9 is member 9 mod 4 = 1
    let recent = replica.handle(DaEvent::DaProposalRecv {
        proposal: signed_proposal(9, vec![1]),
        sender: key(1),
        signature_valid: true,
    });
    assert!(matches!(one_action(recent), DaAction::ProposalValidated { .. }));
}

#[test]
fn duplicate_vote_advances_stake_once() {
    let t = table(&[1, 1, 1, 1]);
    let mut acc = VoteAccumulator::new(1, VoteKind::DA, &t);
    let th = success_threshold_for(4);
    assert_eq!(acc.stake_for(&commitment()), 0);
    let v = vote_from(0, 1);
    let first = acc.append(&t, th, &v.signer, &v.payload_commit, &v.signature, true);
    assert!(matches!(first, AppendOutcome::Pending));
    assert_eq!(acc.stake_for(&commitment()), 1);
    let second = acc.append(&t, th, &v.signer, &v.payload_commit, &v.signature, true);
    assert!(matches!(second, AppendOutcome::Rejected(ValidationError::DuplicateSigner)));
    assert_eq!(acc.stake_for(&commitment()), 1);
}

#[test]
fn threshold_edge_weighted_stakes() {
    let t = table(&[2, 2, 2, 1]);
    let th = success_threshold_for(7);
    assert_eq!(th, 5);
    let mut acc = VoteAccumulator::new(3, VoteKind::DA, &t);
    for i in [0u8, 1] {
        let v = vote_from(i, 3);
        let out = acc.append(&t, th, &v.signer, &v.payload_commit, &v.signature, true);
        assert!(matches!(out, AppendOutcome::Pending));
    }
    assert_eq!(acc.stake_for(&commitment()), 4);
    let v = vote_from(3, 3);
    match acc.append(&t, th, &v.signer, &v.payload_commit, &v.signature, true) {
        AppendOutcome::Certificate(cert) => {
            assert_eq!(cert.signers, vec![true, true, false, true]);
            assert_eq!(cert.signatures[3], vec![3u8, 42]);
            assert!(cert.signatures[2].is_empty());
            assert!(check_certificate(&t, th, &cert, &commitment(), true));
        }
        _ => panic!("expected a certificate"),
    }
    assert_eq!(acc.stake_for(&commitment()), 5);
}

#[test]
fn view_gc_drops_old_vote() {
    // member 2 leads view 70 (70 mod 4 = 2)
    let mut leader = node(2, &[1, 1, 1, 1], 20);
    assert!(leader.handle(DaEvent::ViewChange { view: 100, epoch: 0 }).is_ok());
    let r = leader.handle(DaEvent::DaVoteRecv { vote: vote_from(0, 70), signature_valid: true });
    assert_eq!(r.unwrap_err(), ValidationError::StaleView);
    assert!(leader.vote_collectors.is_empty());
    assert_eq!(leader.cur_view, 100);
}

#[test]
fn one_payload_and_one_vote_per_view() {
    let mut replica = node(0, &[1, 1, 1, 1], 20);
    let p = signed_proposal(1, vec![5, 6]);
    let first = replica.handle(DaEvent::PayloadStored {
        proposal: p.clone(),
        payload_commitment: commitment(),
        primary_network_down: true,
    });
    let acts = first.unwrap();
    assert_eq!(acts.len(), 2);
    assert!(matches!(acts[0], DaAction::SendVote { view_number: 1, .. }));
    assert!(matches!(acts[1], DaAction::ComputeVidShare { view_number: 1 }));
    let other = signed_proposal(1, vec![7, 7, 7]);
    let second = replica.handle(DaEvent::PayloadStored {
        proposal: other.clone(),
        payload_commitment: vec![1u8; 32],
        primary_network_down: false,
    });
    assert_eq!(second.unwrap_err(), ValidationError::DuplicatePayload);
    assert_eq!(replica.saved_payloads.len(), 1);
    assert_eq!(replica.saved_payloads[0].encoded_transactions, vec![5, 6]);
    // a proposal for a view with a saved payload is dropped
    let recv = replica.handle(DaEvent::DaProposalRecv {
        proposal: other,
        sender: key(1),
        signature_valid: true,
    });
    assert_eq!(recv.unwrap_err(), ValidationError::DuplicatePayload);
}

#[test]
fn no_vote_without_da_stake() {
    let m = Membership::create_election(table(&[1, 1, 1, 1]), table(&[1, 1])).unwrap();
    let mut outsider = DaTaskState::new(m, key(3), 20, 3);
    let acts = outsider
        .handle(DaEvent::DaProposalValidated { proposal: signed_proposal(1, vec![1]), sender: key(1) })
        .unwrap();
    assert_eq!(acts.len(), 1);
    let r = outsider.handle(DaEvent::PayloadStored {
        proposal: signed_proposal(1, vec![1]),
        payload_commitment: commitment(),
        primary_network_down: false,
    });
    assert_eq!(r.unwrap_err(), ValidationError::UnknownSigner);
}

#[test]
fn view_change_collects_old_state() {
    let mut replica = node(0, &[1, 1, 1, 1], 20);
    for v in [1u64, 30, 45] {
        if v > 1 {
            assert!(replica.handle(DaEvent::ViewChange { view: v, epoch: 0 }).is_ok());
        }
        assert!(replica
            .handle(DaEvent::PayloadStored {
                proposal: signed_proposal(v, vec![v as u8]),
                payload_commitment: commitment(),
                primary_network_down: false,
            })
            .is_ok());
    }
    // view 1 went when the node moved to view 30
    assert_eq!(replica.saved_payloads.len(), 2);
    assert!(replica.handle(DaEvent::ViewChange { view: 51, epoch: 2 }).is_ok());
    let views: Vec<u64> = replica.saved_payloads.iter().map(|p| p.view_number).collect();
    assert_eq!(views, vec![45]);
    assert_eq!(replica.cur_epoch, 2);
    // an older view change is dropped, the epoch never goes back
    assert_eq!(
        replica.handle(DaEvent::ViewChange { view: 40, epoch: 1 }).unwrap_err(),
        ValidationError::StaleView
    );
    assert_eq!(replica.cur_view, 51);
    assert_eq!(replica.cur_epoch, 2);
    // a stored payload for a stale view gets no vote
    let r = replica.handle(DaEvent::PayloadStored {
        proposal: signed_proposal(49, vec![1]),
        payload_commitment: commitment(),
        primary_network_down: false,
    });
    assert_eq!(r.unwrap_err(), ValidationError::StaleView);
}

#[test]
fn certificate_is_sent_once() {
    let mut leader = node(1, &[1, 1, 1, 1], 20);
    for i in [0u8, 2, 3] {
        let _ = leader.handle(DaEvent::DaVoteRecv { vote: vote_from(i, 1), signature_valid: true });
    }
    assert_eq!(leader.certified_views, vec![1]);
    let again = leader.handle(DaEvent::DaVoteRecv { vote: vote_from(1, 1), signature_valid: true });
    assert_eq!(again.unwrap().len(), 0);
    assert!(leader.vote_collectors.is_empty());
}

#[test]
fn vote_errors() {
    let mut replica = node(0, &[1, 1, 1, 1], 20);
    // member 0 does not lead view 1
    let r = replica.handle(DaEvent::DaVoteRecv { vote: vote_from(2, 1), signature_valid: true });
    assert_eq!(r.unwrap_err(), ValidationError::NotLeader);
    // member 0 leads view 4
    let unknown = DAVote { view_number: 4, payload_commit: commitment(), signer: vec![99], signature: vec![] };
    let r = replica.handle(DaEvent::DaVoteRecv { vote: unknown, signature_valid: true });
    assert_eq!(r.unwrap_err(), ValidationError::UnknownSigner);
    assert!(replica.vote_collectors.is_empty());
    let r = replica.handle(DaEvent::DaVoteRecv { vote: vote_from(2, 4), signature_valid: false });
    assert_eq!(r.unwrap_err(), ValidationError::InvalidSignature);
    assert!(replica.vote_collectors.is_empty());
    let r = replica.handle(DaEvent::DaVoteRecv { vote: vote_from(2, 4), signature_valid: true });
    assert_eq!(r.unwrap().len(), 0);
    assert_eq!(replica.vote_collectors.len(), 1);
    let r = replica.handle(DaEvent::DaVoteRecv { vote: vote_from(2, 4), signature_valid: true });
    assert_eq!(r.unwrap_err(), ValidationError::DuplicateSigner);
}

#[test]
fn stale_validated_proposal_is_dropped() {
    let mut replica = node(0, &[1, 1, 1, 1], 20);
    assert!(replica.handle(DaEvent::ViewChange { view: 5, epoch: 0 }).is_ok());
    let r = replica.handle(DaEvent::DaProposalValidated { proposal: signed_proposal(3, vec![1]), sender: key(3) });
    assert_eq!(r.unwrap_err(), ValidationError::StaleView);
}

#[test]
fn storage_append_is_idempotent_per_view() {
    let mut store = DaStorage::new();
    let p = signed_proposal(4, vec![1, 2, 3]);
    assert!(store.append_da(&p, &commitment()));
    assert!(!store.append_da(&p, &commitment()));
    assert_eq!(store.len(), 1);
    assert!(!store.append_da(&signed_proposal(4, vec![9]), &vec![0u8; 32]));
    assert_eq!(store.len(), 1);
    assert_eq!(store.records[0].proposal.data.encoded_transactions, vec![1, 2, 3]);
    assert!(store.append_da(&signed_proposal(5, vec![9]), &vec![0u8; 32]));
    assert_eq!(store.len(), 2);
}
