use hotshot_da::election::{
    failure_threshold_for, success_threshold_for, Checked, ElectionError, Membership, StakeEntry,
    VoteToken,
};
use hotshot_da::exchange::{
    view_sync_data_commit, CommitteeExchange, ConsensusExchange, QuorumExchange, ViewSyncCertificate,
    ViewSyncExchange,
};
use hotshot_da::message::{
    Certificate, ConsensusMessage, DAVote, DaProposal, DataMessage, InternalTrigger, Message,
    MessageKind, ProcessedConsensusMessage, Proposal, TimeoutVote, Vote, YesOrNoVote,
};
use hotshot_da::vote::{labelled_commitment, VoteData, VoteKind};
use sha3::{Digest, Keccak256};

fn key(i: u8) -> Vec<u8> {
    vec![i + 1; 8]
}

fn table(stakes: &[u64]) -> Vec<StakeEntry> {
    stakes
        .iter()
        .enumerate()
        .map(|(i, s)| StakeEntry { key: key(i as u8), stake: *s })
        .collect()
}

fn membership(stakes: &[u64]) -> Membership {
    Membership::create_election(table(stakes), table(stakes)).unwrap()
}

#[test]
fn thresholds_follow_total_stake() {
    assert_eq!(success_threshold_for(4), 3);
    assert_eq!(success_threshold_for(7), 5);
    assert_eq!(success_threshold_for(0), 1);
    assert_eq!(success_threshold_for(u64::MAX), 12297829382473034411);
    assert_eq!(failure_threshold_for(4), 2);
    assert_eq!(failure_threshold_for(7), 3);
    let m = membership(&[2, 2, 2, 1]);
    assert_eq!(m.total_stake(), 7);
    assert_eq!(m.success_threshold(0), 5);
    assert_eq!(m.failure_threshold(0), 3);
    assert_eq!(m.da_success_threshold(0), 5);
    assert_eq!(m.total_nodes(0), 4);
}

#[test]
fn leader_is_view_mod_committee_size() {
    let m = membership(&[1, 1, 1, 1]);
    assert_eq!(m.leader(1, 0), &key(1));
    assert_eq!(m.leader(5, 3), &key(1));
    assert_eq!(m.leader(70, 0), &key(2));
    assert!(m.is_leader(&key(3), 7, 0));
    assert!(!m.is_leader(&key(0), 7, 0));
    assert!(m.has_stake(&key(2), 0));
    assert!(!m.has_stake(&[0u8], 0));
    assert!(m.has_da_stake(&key(3), 0));
}

#[test]
fn election_rejects_unusable_tables() {
    let err = |r: Result<Membership, ElectionError>| match r {
        Ok(_) => panic!("expected an error"),
        Err(e) => e,
    };
    assert_eq!(err(Membership::create_election(vec![], table(&[1]))), ElectionError::StubError);
    assert_eq!(err(Membership::create_election(table(&[1, 0]), table(&[1]))), ElectionError::StubError);
    let dup = vec![StakeEntry { key: key(0), stake: 1 }, StakeEntry { key: key(0), stake: 2 }];
    assert_eq!(err(Membership::create_election(dup, table(&[1]))), ElectionError::StubError);
    assert_eq!(
        err(Membership::create_election(table(&[u64::MAX, 1]), table(&[1]))),
        ElectionError::MathError
    );
    assert!(Membership::create_election(table(&[u64::MAX - 1, 1]), table(&[1])).is_ok());
}

#[test]
fn payload_digest_is_sha256() {
    let p = DaProposal { view_number: 1, encoded_transactions: b"abc".to_vec(), metadata: vec![] };
    let expected: Vec<u8> = vec![
        0xba, 0x78, 0x16, 0xbf, 0x8f, 0x01, 0xcf, 0xea, 0x41, 0x41, 0x40, 0xde, 0x5d, 0xae, 0x22,
        0x23, 0xb0, 0x03, 0x61, 0xa3, 0x96, 0x17, 0x7a, 0x9c, 0xb4, 0x10, 0xff, 0x61, 0xf2, 0x00,
        0x15, 0xad,
    ];
    assert_eq!(p.payload_digest(), expected);
}

#[test]
fn vote_commitments_are_domain_separated() {
    let c = vec![3u8; 32];
    let mut pre = b"DA Block Commit".to_vec();
    pre.extend_from_slice(&[0xC0, 0x7F]);
    pre.extend_from_slice(b"block_commitment");
    pre.extend_from_slice(&[0xC0, 0x7F]);
    pre.extend_from_slice(&c);
    let expected = Keccak256::digest(&pre).to_vec();
    let da = VoteData::DA(c.clone()).commit();
    assert_eq!(da, expected);
    assert_eq!(labelled_commitment(b"DA Block Commit", b"block_commitment", &c), expected);
    let yes = VoteData::Yes(c.clone()).commit();
    let no = VoteData::No(c.clone()).commit();
    assert_ne!(da, yes);
    assert_ne!(yes, no);
    assert_ne!(da, c);
    assert_eq!(VoteData::DA(c.clone()).commit(), da);
    let vote = DAVote { view_number: 2, payload_commit: c.clone(), signer: key(0), signature: vec![] };
    assert_eq!(vote.signing_message(), da);
    assert_eq!(VoteData::tag(), "VOTE_DATA_COMMIT".to_string());
}

#[test]
fn vote_commitment_is_keccak256() {
    // Keccak-256 of the empty string
    let empty: Vec<u8> = vec![
        0xc5, 0xd2, 0x46, 0x01, 0x86, 0xf7, 0x23, 0x3c, 0x92, 0x7e, 0x7d, 0xb2, 0xdc, 0xc7, 0x03,
        0xc0, 0xe5, 0x00, 0xb6, 0x53, 0xca, 0x82, 0x27, 0x3b, 0x7b, 0xfa, 0xd8, 0x04, 0x5d, 0x85,
        0xa4, 0x70,
    ];
    assert_eq!(labelled_commitment(b"", b"", b""), Keccak256::digest([0xC0u8, 0x7F, 0xC0, 0x7F]).to_vec());
    assert_eq!(Keccak256::digest(b"").to_vec(), empty);
}

#[test]
fn vote_data_encoding() {
    assert_eq!(
        VoteData::DA(vec![1, 2]).as_bytes(),
        vec![0, 0, 0, 0, 2, 0, 0, 0, 0, 0, 0, 0, 1, 2]
    );
    assert_eq!(
        VoteData::ViewSyncFinalize(vec![]).as_bytes(),
        vec![6, 0, 0, 0, 0, 0, 0, 0, 0, 0, 0, 0]
    );
    assert_eq!(VoteData::new(VoteKind::Timeout, vec![5]).kind(), VoteKind::Timeout);
}

#[test]
fn message_view_numbers() {
    let p = Proposal {
        data: DaProposal { view_number: 11, encoded_transactions: vec![], metadata: vec![] },
        signature: vec![],
    };
    assert_eq!(ConsensusMessage::Proposal(p.clone()).view_number(), 11);
    let da = DAVote { view_number: 12, payload_commit: vec![], signer: vec![], signature: vec![] };
    assert_eq!(ConsensusMessage::Vote(Vote::DA(da)).view_number(), 12);
    let yes = YesOrNoVote {
        justify_qc_commitment: vec![],
        signer: vec![],
        signature: vec![],
        leaf_commitment: vec![],
        current_view: 13,
    };
    assert_eq!(ConsensusMessage::Vote(Vote::No(yes)).view_number(), 13);
    let timeout = TimeoutVote { justify_qc: Certificate::genesis(), signer: vec![], signature: vec![], current_view: 14 };
    assert_eq!(ConsensusMessage::Vote(Vote::Timeout(timeout)).view_number(), 14);
    assert_eq!(ConsensusMessage::InternalTrigger(InternalTrigger::Timeout(15)).view_number(), 15);

    let processed = ProcessedConsensusMessage::new(ConsensusMessage::Proposal(p), key(2));
    match &processed {
        ProcessedConsensusMessage::Proposal(q, s) => {
            assert_eq!(q.data.view_number, 11);
            assert_eq!(s, &key(2));
        }
        _ => panic!("expected a proposal"),
    }
    let back: ConsensusMessage = processed.into();
    assert_eq!(back.view_number(), 11);
    let trig = ProcessedConsensusMessage::new(ConsensusMessage::InternalTrigger(InternalTrigger::Timeout(3)), key(0));
    assert!(matches!(trig, ProcessedConsensusMessage::InternalTrigger(InternalTrigger::Timeout(3))));
}

#[test]
fn checked_validity() {
    assert!(Checked::Valid(1u8).is_valid());
    assert!(!Checked::Inval(1u8).is_valid());
    assert!(!Checked::Unchecked(1u8).is_valid());
}

#[test]
fn genesis_certificate_is_valid() {
    let q = QuorumExchange::create(membership(&[1, 1, 1, 1]), key(0));
    assert!(q.is_valid_cert(&Certificate::genesis(), &[1, 2, 3], false));
}

#[test]
fn quorum_exchange_votes_and_certificates() {
    let q = QuorumExchange::create(membership(&[1, 1, 1, 1]), key(0));
    assert!(q.is_leader(4));
    assert!(!q.is_leader(5));
    assert_eq!(q.success_threshold(), 3);
    assert_eq!(q.failure_threshold(), 2);
    let leaf = vec![4u8; 32];
    let req = q.create_yes_message(&leaf, 9);
    assert_eq!(req.view_number, 9);
    assert_eq!(req.signer, key(0));
    assert_eq!(req.message, VoteData::Yes(leaf.clone()).commit());
    assert_eq!(q.create_no_message(&leaf, 9).message, VoteData::No(leaf.clone()).commit());
    assert_eq!(q.create_timeout_message(&leaf, 9).message, VoteData::Timeout(leaf.clone()).commit());
    assert!(q.is_valid_vote(&key(3), true));
    assert!(!q.is_valid_vote(&key(3), false));
    assert!(!q.is_valid_vote(&[0u8], true));

    let cert = Certificate {
        view_number: 9,
        vote_data: VoteData::Yes(leaf.clone()),
        signers: vec![true, true, false, true],
        signatures: vec![vec![1], vec![2], vec![], vec![4]],
        genesis: false,
    };
    assert!(q.is_valid_cert(&cert, &leaf, true));
    let short = Certificate { signers: vec![true, true, false, false], ..cert.clone() };
    assert!(!q.is_valid_cert(&short, &leaf, true));
    let view_sync = Certificate { vote_data: VoteData::ViewSyncCommit(leaf.clone()), ..cert };
    assert!(!q.is_valid_cert(&view_sync, &leaf, true));
}

#[test]
fn view_sync_messages_and_certificates() {
    let vs = ViewSyncExchange::create(membership(&[1, 1, 1, 1]), key(0));
    let req = vs.create_precommit_message(3, 1);
    // relay: leader of view 4, member 0
    assert_eq!(req.relay_pub_key, key(0));
    let data = view_sync_data_commit(&key(0), 3);
    assert_eq!(req.message, VoteData::ViewSyncPreCommit(data.clone()).commit());
    assert_ne!(vs.create_commit_message(3, 1).message, req.message);
    assert_ne!(vs.create_finalize_message(3, 1).message, req.message);
    assert_ne!(view_sync_data_commit(&key(0), 4), data);

    let cert = ViewSyncCertificate {
        relay: 1,
        certificate: Certificate {
            view_number: 3,
            vote_data: VoteData::ViewSyncPreCommit(data.clone()),
            signers: vec![true, true, true, false],
            signatures: vec![vec![1], vec![2], vec![3], vec![]],
            genesis: false,
        },
    };
    assert!(vs.is_valid_view_sync_cert(&cert, 3, true));
    assert!(!vs.is_valid_view_sync_cert(&cert, 4, true));
    assert!(!vs.is_valid_view_sync_cert(&cert, 3, false));
    let not_view_sync = ViewSyncCertificate {
        relay: 1,
        certificate: Certificate { vote_data: VoteData::Yes(data), ..cert.certificate.clone() },
    };
    assert!(!vs.is_valid_view_sync_cert(&not_view_sync, 3, true));
}

#[test]
fn committee_exchange_vote_request() {
    let m = Membership::create_election(table(&[1, 1, 1, 1]), table(&[3, 1])).unwrap();
    let da = CommitteeExchange::create(m, key(1));
    assert_eq!(da.total_nodes(), 2);
    assert_eq!(da.success_threshold(), 3);
    assert!(da.is_leader(1));
    assert_eq!(da.get_leader(2), &key(2));
    let c = vec![6u8; 32];
    let req = da.create_da_message(&c, 8);
    assert_eq!(req.view_number, 8);
    assert_eq!(req.signer, key(1));
    assert_eq!(req.message, VoteData::DA(c.clone()).commit());
    assert!(matches!(da.vote_data(c.clone()), VoteData::DA(_)));
    // member 2 is in the quorum but not in the DA committee
    assert!(!da.is_valid_vote(&key(2), true));
    assert!(da.is_valid_vote(&key(0), true));
}

#[test]
fn stake_tables_and_tokens() {
    let m = Membership::create_election(table(&[1, 2]), table(&[5])).unwrap();
    assert_eq!(m.get_stake_table(0).len(), 2);
    assert_eq!(m.get_da_stake_table(0)[0].stake, 5);
    assert_eq!(m.da_total_nodes(0), 1);
    assert_eq!(m.get_stake_table(0)[1].vote_count(), 2);
}

#[test]
fn message_kinds() {
    let kind: MessageKind = DataMessage::SubmitTransaction(vec![1, 2]).into();
    assert!(matches!(kind, MessageKind::Data(DataMessage::SubmitTransaction(_))));
    let kind: MessageKind = ConsensusMessage::InternalTrigger(InternalTrigger::Timeout(2)).into();
    let msg = Message { sender: key(0), kind };
    match msg.kind {
        MessageKind::Consensus(c) => assert_eq!(c.view_number(), 2),
        _ => panic!("expected a consensus message"),
    }
}

#[test]
fn certificate_builders() {
    let mut cert = Certificate::from_signatures_and_commitment(
        4,
        VoteKind::Yes,
        vec![true, false],
        vec![vec![1], vec![]],
        vec![2u8; 32],
    );
    assert_eq!(cert.view_number(), 4);
    assert!(!cert.is_genesis());
    assert_eq!(cert.leaf_commitment(), &vec![2u8; 32]);
    cert.set_leaf_commitment(vec![3u8; 32]);
    assert_eq!(cert.leaf_commitment(), &vec![3u8; 32]);
    assert_eq!(cert.vote_data.kind(), VoteKind::Yes);
    assert_eq!(cert.signing_message(), VoteData::Yes(vec![3u8; 32]).commit());
}
