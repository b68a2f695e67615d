//! Stake-weighted vote accumulation: the votes of one view and kind are
//! folded, signer by signer, into a tally per committed value until one
//! tally's stake reaches the success threshold.

use vstd::prelude::*;

use crate::bytes::{byte_strings, bytes_eq, copy_bits, copy_byte_strings, copy_bytes};
use crate::election::{
    find_member, is_member, keys_distinct, lemma_selected_le_total, lemma_selected_none,
    lemma_selected_set_bit, selected_stake, table_wf, StakeEntry,
};
use crate::error::ValidationError;
use crate::certificate::cert_valid_spec;
use crate::message::{Certificate, CertificateModel};
use crate::vote::{VoteData, VoteKind};

verus! {

/// The votes gathered for one committed value.
#[derive(Debug, Clone)]
pub struct Tally {
    /// The value voted for.
    pub commitment: Vec<u8>,
    /// Which members of the stake table voted for it.
    pub signers: Vec<bool>,
    /// Their signatures, at their positions in the stake table.
    pub signatures: Vec<Vec<u8>>,
    /// Their total stake.
    pub stake: u64,
}

/// Mathematical value of a `Tally`.
pub struct TallyModel {
    pub commitment: Seq<u8>,
    pub signers: Seq<bool>,
    pub signatures: Seq<Seq<u8>>,
    pub stake: u64,
}

impl View for Tally {
    type V = TallyModel;

    open spec fn view(&self) -> TallyModel {
        TallyModel {
            commitment: self.commitment@,
            signers: self.signers@,
            signatures: byte_strings(self.signatures@),
            stake: self.stake,
        }
    }
}

/// The accumulator of one view and vote kind.
#[derive(Debug, Clone)]
pub struct VoteAccumulator {
    /// The view the votes are for.
    pub view_number: u64,
    /// The kind of the votes.
    pub kind: VoteKind,
    /// Which members have voted, for any value.
    pub seen: Vec<bool>,
    /// One tally per value voted for.
    pub tallies: Vec<Tally>,
}

/// Mathematical value of a `VoteAccumulator`.
pub struct AccumulatorModel {
    pub view_number: u64,
    pub kind: VoteKind,
    pub seen: Seq<bool>,
    pub tallies: Seq<TallyModel>,
}

impl View for VoteAccumulator {
    type V = AccumulatorModel;

    open spec fn view(&self) -> AccumulatorModel {
        AccumulatorModel {
            view_number: self.view_number,
            kind: self.kind,
            seen: self.seen@,
            tallies: self.tallies@.map_values(|t: Tally| t@),
        }
    }
}

/// What appending a vote led to.
#[derive(Debug, Clone)]
pub enum AppendOutcome {
    /// The vote was counted; no value has reached the threshold yet.
    Pending,
    /// The vote was counted and its value reached the threshold.
    Certificate(Certificate),
    /// The vote was not counted.
    Rejected(ValidationError),
}

/// Mathematical value of an `AppendOutcome`.
pub enum AppendOutcomeModel {
    Pending,
    Certificate(CertificateModel),
    Rejected(ValidationError),
}

impl View for AppendOutcome {
    type V = AppendOutcomeModel;

    open spec fn view(&self) -> AppendOutcomeModel {
        match self {
            AppendOutcome::Pending => AppendOutcomeModel::Pending,
            AppendOutcome::Certificate(c) => AppendOutcomeModel::Certificate(c@),
            AppendOutcome::Rejected(e) => AppendOutcomeModel::Rejected(*e),
        }
    }
}

/// A tally is consistent with the table: aligned with it, its stake is the
/// stake of its signers, and its signers have all been seen.
pub open spec fn tally_wf(table: Seq<StakeEntry>, seen: Seq<bool>, t: TallyModel) -> bool {
    &&& t.signers.len() == table.len()
    &&& t.signatures.len() == table.len()
    &&& t.stake == selected_stake(table, t.signers)
    &&& forall|i: int| 0 <= i < t.signers.len() && #[trigger] t.signers[i] ==> seen[i]
}

/// Invariant of an accumulator that weighs votes against `table`.
pub open spec fn accumulator_wf(a: AccumulatorModel, table: Seq<StakeEntry>) -> bool {
    &&& table_wf(table)
    &&& a.seen.len() == table.len()
    &&& forall|k: int| 0 <= k < a.tallies.len() ==> #[trigger] tally_wf(table, a.seen, a.tallies[k])
    &&& tallies_distinct(a)
}

/// No two tallies are for the same value.
pub open spec fn tallies_distinct(a: AccumulatorModel) -> bool {
    forall|k1: int, k2: int|
        0 <= k1 < a.tallies.len() && 0 <= k2 < a.tallies.len() && k1 != k2
            ==> #[trigger] a.tallies[k1].commitment != #[trigger] a.tallies[k2].commitment
}

/// Position of `key` in `table`.
pub open spec fn member_index(table: Seq<StakeEntry>, key: Seq<u8>) -> int {
    choose|i: int| 0 <= i < table.len() && #[trigger] table[i].key@ == key
}

/// Whether some tally is for `c`.
pub open spec fn has_tally(tallies: Seq<TallyModel>, c: Seq<u8>) -> bool {
    exists|k: int| 0 <= k < tallies.len() && #[trigger] tallies[k].commitment == c
}

/// Position of the tally for `c`, or the number of tallies where there is none.
pub open spec fn tally_index(tallies: Seq<TallyModel>, c: Seq<u8>) -> int {
    if has_tally(tallies, c) {
        choose|k: int| 0 <= k < tallies.len() && #[trigger] tallies[k].commitment == c
    } else {
        tallies.len() as int
    }
}

/// A tally for `c` that nobody has voted in yet.
pub open spec fn empty_tally(c: Seq<u8>, n: nat) -> TallyModel {
    TallyModel {
        commitment: c,
        signers: Seq::new(n, |i: int| false),
        signatures: Seq::new(n, |i: int| Seq::<u8>::empty()),
        stake: 0,
    }
}

/// An accumulator for `view_number` and `kind` with no vote yet, over a
/// table of `n` members.
pub open spec fn empty_accumulator(view_number: u64, kind: VoteKind, n: nat) -> AccumulatorModel {
    AccumulatorModel {
        view_number,
        kind,
        seen: Seq::new(n, |i: int| false),
        tallies: Seq::empty(),
    }
}

/// Stake tallied for `c` (zero where nobody voted for it).
pub open spec fn tallied_stake(a: AccumulatorModel, c: Seq<u8>) -> u64 {
    if has_tally(a.tallies, c) {
        a.tallies[tally_index(a.tallies, c)].stake
    } else {
        0
    }
}

/// The effect of appending the vote of `signer` for `c` with `signature`,
/// weighed against `table` with a certificate at `threshold`, where `valid`
/// tells whether the signature verifies under the signer's key over the
/// commitment of the vote data: the next state and the outcome.
pub open spec fn append_spec(
    a: AccumulatorModel,
    table: Seq<StakeEntry>,
    threshold: u64,
    signer: Seq<u8>,
    c: Seq<u8>,
    signature: Seq<u8>,
    valid: bool,
) -> (AccumulatorModel, AppendOutcomeModel) {
    if !is_member(table, signer) {
        (a, AppendOutcomeModel::Rejected(ValidationError::UnknownSigner))
    } else {
        let i = member_index(table, signer);
        if a.seen[i] {
            (a, AppendOutcomeModel::Rejected(ValidationError::DuplicateSigner))
        } else if !valid {
            (a, AppendOutcomeModel::Rejected(ValidationError::InvalidSignature))
        } else {
            let k = tally_index(a.tallies, c);
            let t = if has_tally(a.tallies, c) {
                a.tallies[k]
            } else {
                empty_tally(c, table.len())
            };
            let t2 = TallyModel {
                commitment: c,
                signers: t.signers.update(i, true),
                signatures: t.signatures.update(i, signature),
                stake: (t.stake + table[i].stake) as u64,
            };
            let tallies2 = if has_tally(a.tallies, c) {
                a.tallies.update(k, t2)
            } else {
                a.tallies.push(t2)
            };
            let a2 = AccumulatorModel { seen: a.seen.update(i, true), tallies: tallies2, ..a };
            let out = if t2.stake >= threshold {
                AppendOutcomeModel::Certificate(
                    CertificateModel {
                        view_number: a.view_number,
                        vote_data: (a.kind, c),
                        signers: t2.signers,
                        signatures: t2.signatures,
                        genesis: false,
                    },
                )
            } else {
                AppendOutcomeModel::Pending
            };
            (a2, out)
        }
    }
}

/// Appending a vote keeps an accumulator consistent with its table.
pub proof fn lemma_append_keeps_wf(
    a: AccumulatorModel,
    table: Seq<StakeEntry>,
    threshold: u64,
    signer: Seq<u8>,
    c: Seq<u8>,
    signature: Seq<u8>,
    valid: bool,
)
    requires
        accumulator_wf(a, table),
    ensures
        accumulator_wf(append_spec(a, table, threshold, signer, c, signature, valid).0, table),
{
    if is_member(table, signer) {
        let i = member_index(table, signer);
        if !a.seen[i] && valid {
            let n = table.len();
            let k = tally_index(a.tallies, c);
            let t = if has_tally(a.tallies, c) {
                a.tallies[k]
            } else {
                empty_tally(c, n)
            };
            if !has_tally(a.tallies, c) {
                lemma_selected_none(table, t.signers, n as int);
            }
            assert(tally_wf(table, a.seen, t));
            lemma_selected_set_bit(table, t.signers, i, n as int);
            lemma_selected_le_total(table, t.signers.update(i, true), n as int);
            let a2 = append_spec(a, table, threshold, signer, c, signature, valid).0;
            assert forall|j: int| 0 <= j < a2.tallies.len() implies #[trigger] tally_wf(
                table,
                a2.seen,
                a2.tallies[j],
            ) by {
                if j < a.tallies.len() && a2.tallies[j] == a.tallies[j] {
                    assert(tally_wf(table, a.seen, a.tallies[j]));
                }
            }
            assert forall|k1: int, k2: int|
                0 <= k1 < a2.tallies.len() && 0 <= k2 < a2.tallies.len() && k1 != k2 implies
                #[trigger] a2.tallies[k1].commitment != #[trigger] a2.tallies[k2].commitment by {
                if k1 < a.tallies.len() && k2 < a.tallies.len() {
                    if has_tally(a.tallies, c) {
                        if k1 == k {
                            assert(a.tallies[k].commitment == c);
                        } else if k2 == k {
                            assert(a.tallies[k].commitment == c);
                        }
                        assert(a.tallies[k1].commitment != a.tallies[k2].commitment);
                    }
                }
            }
        }
    }
}

/// A certificate that comes out of an accumulator holds: it is for the
/// value voted on, aligned with the table, and the members it selects carry
/// at least the threshold stake; with every counted signature valid, it
/// passes `cert_valid_spec`.
pub proof fn lemma_emitted_certificate_valid(
    a: AccumulatorModel,
    table: Seq<StakeEntry>,
    threshold: u64,
    signer: Seq<u8>,
    c: Seq<u8>,
    signature: Seq<u8>,
    valid: bool,
)
    requires
        accumulator_wf(a, table),
    ensures
        append_spec(a, table, threshold, signer, c, signature, valid).1 is Certificate ==> {
            let cert = append_spec(a, table, threshold, signer, c, signature, valid).1->Certificate_0;
            &&& cert.view_number == a.view_number
            &&& cert.vote_data == (a.kind, c)
            &&& !cert.genesis
            &&& selected_stake(table, cert.signers) >= threshold
            &&& cert_valid_spec(table, threshold, cert, c, true)
        },
{
    lemma_append_keeps_wf(a, table, threshold, signer, c, signature, valid);
    let (a2, out) = append_spec(a, table, threshold, signer, c, signature, valid);
    if out is Certificate {
        let k = tally_index(a.tallies, c);
        let kk = if has_tally(a.tallies, c) { k } else { a.tallies.len() as int };
        assert(a2.tallies[kk].commitment == c);
        assert(tally_wf(table, a2.seen, a2.tallies[kk]));
    }
}

/// Feeding the same vote to an accumulator twice: the second append is not
/// counted and leaves the accumulator as the first left it, so the tallied
/// stake does not advance.
pub proof fn lemma_same_vote_twice(
    a: AccumulatorModel,
    table: Seq<StakeEntry>,
    threshold: u64,
    signer: Seq<u8>,
    c: Seq<u8>,
    signature: Seq<u8>,
    valid: bool,
)
    requires
        accumulator_wf(a, table),
    ensures
        ({
            let a1 = append_spec(a, table, threshold, signer, c, signature, valid).0;
            let (a2, r2) = append_spec(a1, table, threshold, signer, c, signature, valid);
            &&& a2 == a1
            &&& r2 is Rejected
            &&& forall|v: Seq<u8>| #[trigger] tallied_stake(a2, v) == tallied_stake(a1, v)
        }),
{
}

proof fn lemma_member_index(table: Seq<StakeEntry>, key: Seq<u8>, i: int)
    requires
        keys_distinct(table),
        0 <= i < table.len(),
        table[i].key@ == key,
    ensures
        is_member(table, key),
        member_index(table, key) == i,
{
    assert(is_member(table, key));
    let j = member_index(table, key);
    assert(table[j].key@ == key);
}

fn new_tally(c: &[u8], n: usize) -> (r: Tally)
    ensures
        r@ == empty_tally(c@, n as nat),
{
    let mut signers: Vec<bool> = Vec::new();
    let mut signatures: Vec<Vec<u8>> = Vec::new();
    let mut i: usize = 0;
    while i < n
        invariant
            i <= n,
            signers@ == Seq::new(i as nat, |j: int| false),
            signatures@.len() == i,
            forall|j: int| 0 <= j < i ==> (#[trigger] signatures@[j])@ == Seq::<u8>::empty(),
        decreases n - i,
    {
        signers.push(false);
        signatures.push(Vec::new());
        i = i + 1;
        assert(signers@ =~= Seq::new(i as nat, |j: int| false));
    }
    assert(byte_strings(signatures@) =~= Seq::new(n as nat, |j: int| Seq::<u8>::empty()));
    Tally { commitment: copy_bytes(c), signers, signatures, stake: 0 }
}

impl VoteAccumulator {
    /// Invariant, for votes weighed against `table`.
    pub open spec fn wf(&self, table: Seq<StakeEntry>) -> bool {
        accumulator_wf(self@, table)
    }

    /// An accumulator with no vote yet, for `view_number` and `kind`, whose
    /// votes are weighed against `stake_table`.
    pub fn new(view_number: u64, kind: VoteKind, stake_table: &Vec<StakeEntry>) -> (r:
        VoteAccumulator)
        requires
            table_wf(stake_table@),
        ensures
            r.wf(stake_table@),
            r@ == empty_accumulator(view_number, kind, stake_table@.len()),
    {
        let n = stake_table.len();
        let mut seen: Vec<bool> = Vec::new();
        let mut i: usize = 0;
        while i < n
            invariant
                i <= n,
                seen@ == Seq::new(i as nat, |j: int| false),
            decreases n - i,
        {
            seen.push(false);
            i = i + 1;
            assert(seen@ =~= Seq::new(i as nat, |j: int| false));
        }
        let r = VoteAccumulator {
            view_number,
            kind,
            seen,
            tallies: Vec::new(),
        };
        assert(r@.tallies =~= Seq::<TallyModel>::empty());
        r
    }

    /// Position of the tally for `c`, or the number of tallies.
    fn find_tally(&self, c: &[u8]) -> (r: usize)
        requires
            tallies_distinct(self@),
        ensures
            r == tally_index(self@.tallies, c@),
    {
        let mut k: usize = 0;
        while k < self.tallies.len()
            invariant
                tallies_distinct(self@),
                k <= self.tallies@.len(),
                forall|j: int| 0 <= j < k ==> (#[trigger] self.tallies@[j]).commitment@ != c@,
            decreases self.tallies@.len() - k,
        {
            if bytes_eq(self.tallies[k].commitment.as_slice(), c) {
                proof {
                    let ts = self@.tallies;
                    assert(ts[k as int].commitment == c@);
                    assert(has_tally(ts, c@));
                    let j = tally_index(ts, c@);
                    assert(ts[j].commitment == c@);
                    if j != k {
                        assert(ts[j].commitment != ts[k as int].commitment);
                    }
                }
                return k;
            }
            k = k + 1;
        }
        proof {
            let ts = self@.tallies;
            assert forall|j: int| 0 <= j < ts.len() implies #[trigger] ts[j].commitment != c@ by {
                assert(self.tallies@[j].commitment@ != c@);
            }
        }
        k
    }

    /// Stake tallied so far for the value `c`.
    pub fn stake_for(&self, c: &[u8]) -> (r: u64)
        requires
            tallies_distinct(self@),
        ensures
            r == tallied_stake(self@, c@),
    {
        let k = self.find_tally(c);
        if k < self.tallies.len() {
            self.tallies[k].stake
        } else {
            0
        }
    }

    /// Appends the vote of `signer` for the value `commitment`, weighed
    /// against `stake_table`, with a certificate at `threshold`.
    /// `signature_valid` tells whether `signature` verifies under `signer`
    /// over the commitment of the vote data of this accumulator's kind on
    /// `commitment`.
    ///
    /// A signer outside the stake table, a signer that has already voted in
    /// this view (for any value) and an invalid signature are rejected and
    /// leave the accumulator as it was. Otherwise the signer's stake is added
    /// to the tally of the value, and a certificate for the value comes out
    /// once that tally reaches the threshold.
    pub fn append(
        &mut self,
        stake_table: &Vec<StakeEntry>,
        threshold: u64,
        signer: &[u8],
        commitment: &[u8],
        signature: &[u8],
        signature_valid: bool,
    ) -> (r: AppendOutcome)
        requires
            old(self).wf(stake_table@),
        ensures
            final(self).wf(stake_table@),
            (final(self)@, r@) == append_spec(
                old(self)@,
                stake_table@,
                threshold,
                signer@,
                commitment@,
                signature@,
                signature_valid,
            ),
    {
        let ghost a = self@;
        let idx = match find_member(stake_table, signer) {
            None => {
                return AppendOutcome::Rejected(ValidationError::UnknownSigner);
            },
            Some(i) => i,
        };
        proof {
            lemma_member_index(stake_table@, signer@, idx as int);
        }
        if self.seen[idx] {
            return AppendOutcome::Rejected(ValidationError::DuplicateSigner);
        }
        if !signature_valid {
            return AppendOutcome::Rejected(ValidationError::InvalidSignature);
        }
        let n = stake_table.len();
        let k0 = self.find_tally(commitment);
        let k: usize;
        if k0 == self.tallies.len() {
            let t = new_tally(commitment, n);
            proof {
                lemma_selected_none(stake_table@, t.signers@, n as int);
            }
            self.tallies.push(t);
            k = k0;
            proof {
                assert(self@.tallies =~= a.tallies.push(empty_tally(commitment@, n as nat)));
                assert forall|j: int| 0 <= j < self@.tallies.len() implies #[trigger] tally_wf(
                    stake_table@,
                    self@.seen,
                    self@.tallies[j],
                ) by {
                    if j < a.tallies.len() {
                        assert(tally_wf(stake_table@, a.seen, a.tallies[j]));
                    }
                }
            }
        } else {
            k = k0;
        }
        let ghost t0 = self@.tallies[k as int];
        let stake_i = stake_table[idx].stake;
        proof {
            assert(tally_wf(stake_table@, self@.seen, t0));
            lemma_selected_set_bit(stake_table@, t0.signers, idx as int, n as int);
            lemma_selected_le_total(stake_table@, t0.signers.update(idx as int, true), n as int);
        }
        let sig = copy_bytes(signature);
        {
            let t = &mut self.tallies[k];
            t.signers.set(idx, true);
            t.signatures.set(idx, sig);
            t.stake = t.stake + stake_i;
        }
        self.seen.set(idx, true);
        let ghost t2 = TallyModel {
            commitment: commitment@,
            signers: t0.signers.update(idx as int, true),
            signatures: t0.signatures.update(idx as int, signature@),
            stake: (t0.stake + stake_i) as u64,
        };
        proof {
            assert(self.tallies@[k as int]@.signatures =~= t2.signatures);
            assert(self.tallies@[k as int]@.signers =~= t2.signers);
            assert(self@.tallies =~= (if k < a.tallies.len() { a.tallies } else { a.tallies.push(
                empty_tally(commitment@, n as nat)) }).update(k as int, t2));
            assert forall|j: int| 0 <= j < self@.tallies.len() implies #[trigger] tally_wf(
                stake_table@,
                self@.seen,
                self@.tallies[j],
            ) by {
                if j != k {
                    if j < a.tallies.len() {
                        assert(tally_wf(stake_table@, a.seen, a.tallies[j]));
                    }
                }
            }
        }
        proof {
            let tallies2 = if k < a.tallies.len() {
                a.tallies.update(k as int, t2)
            } else {
                a.tallies.push(t2)
            };
            assert(self@.tallies =~= tallies2);
            assert(self@.seen =~= a.seen.update(idx as int, true));
            assert(self@ == AccumulatorModel { seen: a.seen.update(idx as int, true), tallies: tallies2, ..a });
        }
        let tk = &self.tallies[k];
        if tk.stake >= threshold {
            let cert = Certificate {
                view_number: self.view_number,
                vote_data: VoteData::new(self.kind, copy_bytes(commitment)),
                signers: copy_bits(&tk.signers),
                signatures: copy_byte_strings(&tk.signatures),
                genesis: false,
            };
            AppendOutcome::Certificate(cert)
        } else {
            AppendOutcome::Pending
        }
    }
}

} // verus!
