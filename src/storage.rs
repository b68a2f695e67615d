//! An in-memory store of DA proposals and their payload commitments, keyed
//! by view: a second append for a view leaves the store as it was.

use vstd::prelude::*;

use crate::bytes::copy_bytes;
use crate::message::{Proposal, ProposalModel};

verus! {

/// A stored DA proposal with its payload commitment.
#[derive(Debug, Clone)]
pub struct DaRecord {
    pub proposal: Proposal,
    pub payload_commitment: Vec<u8>,
}

/// Mathematical value of a `DaRecord`.
pub struct DaRecordModel {
    pub proposal: ProposalModel,
    pub payload_commitment: Seq<u8>,
}

impl View for DaRecord {
    type V = DaRecordModel;

    open spec fn view(&self) -> DaRecordModel {
        DaRecordModel { proposal: self.proposal@, payload_commitment: self.payload_commitment@ }
    }
}

/// The stored DA proposals, at most one per view, in the order they came.
#[derive(Debug, Clone)]
pub struct DaStorage {
    pub records: Vec<DaRecord>,
}

/// Whether some record is for view `v`.
pub open spec fn has_record(rs: Seq<DaRecordModel>, v: u64) -> bool {
    exists|i: int| 0 <= i < rs.len() && #[trigger] rs[i].proposal.data.view_number == v
}

/// The records after appending `p` with commitment `c`: unchanged where a
/// record for the proposal's view exists, else one more record at the end.
pub open spec fn append_da_spec(rs: Seq<DaRecordModel>, p: ProposalModel, c: Seq<u8>) -> Seq<DaRecordModel> {
    if has_record(rs, p.data.view_number) {
        rs
    } else {
        rs.push(DaRecordModel { proposal: p, payload_commitment: c })
    }
}

/// No two records are for the same view.
pub open spec fn records_distinct(rs: Seq<DaRecordModel>) -> bool {
    forall|i: int, j: int|
        0 <= i < rs.len() && 0 <= j < rs.len() && i != j ==> #[trigger] rs[i].proposal.data.view_number
            != #[trigger] rs[j].proposal.data.view_number
}

impl DaStorage {
    /// The records, as values.
    pub open spec fn records_model(&self) -> Seq<DaRecordModel> {
        self.records@.map_values(|r: DaRecord| r@)
    }

    /// An empty store.
    pub fn new() -> (r: DaStorage)
        ensures
            r.records_model().len() == 0,
    {
        DaStorage { records: Vec::new() }
    }

    /// Appends `proposal` with `payload_commitment`, unless a record for the
    /// proposal's view is already stored. Returns whether it was added.
    pub fn append_da(&mut self, proposal: &Proposal, payload_commitment: &[u8]) -> (r: bool)
        ensures
            final(self).records_model() == append_da_spec(
                old(self).records_model(),
                proposal@,
                payload_commitment@,
            ),
            r == !has_record(old(self).records_model(), proposal.data.view_number),
    {
        let ghost rs = self.records_model();
        let v = proposal.data.view_number;
        let mut i: usize = 0;
        let mut found = false;
        while i < self.records.len() && !found
            invariant
                rs == self.records_model(),
                i <= self.records@.len(),
                found ==> has_record(rs, v),
                !found ==> forall|j: int| 0 <= j < i ==> rs[j].proposal.data.view_number != v,
            decreases self.records@.len() - i,
        {
            if self.records[i].proposal.data.view_number == v {
                assert(self.records@[i as int]@ == rs[i as int]);
                assert(rs[i as int].proposal.data.view_number == v);
                found = true;
            }
            i = i + 1;
        }
        if found {
            return false;
        }
        self.records.push(
            DaRecord { proposal: proposal.duplicate(), payload_commitment: copy_bytes(payload_commitment) },
        );
        assert(self.records_model() =~= append_da_spec(rs, proposal@, payload_commitment@));
        true
    }

    /// Number of stored records.
    pub fn len(&self) -> (r: usize)
        ensures
            r == self.records_model().len(),
    {
        self.records.len()
    }
}

/// Appending keeps at most one record per view.
pub proof fn lemma_append_da_distinct(rs: Seq<DaRecordModel>, p: ProposalModel, c: Seq<u8>)
    requires
        records_distinct(rs),
    ensures
        records_distinct(append_da_spec(rs, p, c)),
        has_record(append_da_spec(rs, p, c), p.data.view_number),
{
    let rs2 = append_da_spec(rs, p, c);
    if !has_record(rs, p.data.view_number) {
        assert forall|i: int, j: int|
            0 <= i < rs2.len() && 0 <= j < rs2.len() && i != j implies #[trigger] rs2[i].proposal.data.view_number
            != #[trigger] rs2[j].proposal.data.view_number by {
            if i < rs.len() && j < rs.len() {
                assert(rs[i].proposal.data.view_number != rs[j].proposal.data.view_number);
            }
        }
        assert(rs2[rs.len() as int].proposal.data.view_number == p.data.view_number);
    }
}

/// Appending the same proposal twice yields one record for its view: the
/// second append changes nothing.
pub proof fn lemma_append_da_twice(rs: Seq<DaRecordModel>, p: ProposalModel, c: Seq<u8>)
    requires
        records_distinct(rs),
    ensures
        append_da_spec(append_da_spec(rs, p, c), p, c) == append_da_spec(rs, p, c),
        records_distinct(append_da_spec(rs, p, c)),
        has_record(append_da_spec(rs, p, c), p.data.view_number),
        forall|i: int, j: int|
            0 <= i < append_da_spec(rs, p, c).len() && 0 <= j < append_da_spec(rs, p, c).len()
                && #[trigger] append_da_spec(rs, p, c)[i].proposal.data.view_number == p.data.view_number
                && #[trigger] append_da_spec(rs, p, c)[j].proposal.data.view_number == p.data.view_number
                ==> i == j,
{
    lemma_append_da_distinct(rs, p, c);
}

} // verus!
