//! Domain-separated vote data: what a vote of each kind signs, its labelled
//! commitment, and its canonical byte encoding.

use vstd::prelude::*;
use vstd::bytes::{spec_u32_to_le_bytes, spec_u64_to_le_bytes, u32_to_le_bytes, u64_to_le_bytes};
use vstd::string::StringSliceAdditionalSpecFns;

use crate::bytes::{append_bytes, keccak256, keccak256_of};

verus! {

/// The sub-protocol vote that a value is signed for.
#[derive(Debug, Clone, Copy, PartialEq, Eq, Structural)]
pub enum VoteKind {
    DA,
    Yes,
    No,
    Timeout,
    ViewSyncPreCommit,
    ViewSyncCommit,
    ViewSyncFinalize,
}

/// Data to vote on for the different kinds of votes: a commitment wrapped
/// in the tag of its kind.
#[derive(Debug, Clone)]
pub enum VoteData {
    /// Vote to provide availability for a block.
    DA(Vec<u8>),
    /// Vote to append a leaf to the log.
    Yes(Vec<u8>),
    /// Vote to reject a leaf from the log.
    No(Vec<u8>),
    /// Vote to time out and proceed to the next view.
    Timeout(Vec<u8>),
    /// View-sync pre-commit vote.
    ViewSyncPreCommit(Vec<u8>),
    /// View-sync commit vote.
    ViewSyncCommit(Vec<u8>),
    /// View-sync finalize vote.
    ViewSyncFinalize(Vec<u8>),
}

/// Separator written after each string of a labelled commitment: two bytes
/// that never occur in UTF-8 text.
pub open spec fn label_separator() -> Seq<u8> {
    seq![0xC0u8, 0x7Fu8]
}

/// The bytes hashed into a labelled commitment: the tag, the field name and
/// the field's bytes, each string followed by the separator.
pub open spec fn labelled_preimage(tag: Seq<u8>, field: Seq<u8>, value: Seq<u8>) -> Seq<u8> {
    tag + label_separator() + field + label_separator() + value
}

/// The tag of each kind of vote data.
pub open spec fn kind_tag(k: VoteKind) -> Seq<u8> {
    match k {
        VoteKind::DA => "DA Block Commit".spec_bytes(),
        VoteKind::Yes => "Yes Vote Commit".spec_bytes(),
        VoteKind::No => "No Vote Commit".spec_bytes(),
        VoteKind::Timeout => "Timeout View Number Commit".spec_bytes(),
        VoteKind::ViewSyncPreCommit => "ViewSyncPreCommit".spec_bytes(),
        VoteKind::ViewSyncCommit => "ViewSyncCommit".spec_bytes(),
        VoteKind::ViewSyncFinalize => "ViewSyncFinalize".spec_bytes(),
    }
}

/// The field name under which each kind of vote data commits its value.
pub open spec fn kind_field(k: VoteKind) -> Seq<u8> {
    match k {
        VoteKind::DA => "block_commitment".spec_bytes(),
        VoteKind::Yes => "leaf_commitment".spec_bytes(),
        VoteKind::No => "leaf_commitment".spec_bytes(),
        VoteKind::Timeout => "view_number_commitment".spec_bytes(),
        _ => "commitment".spec_bytes(),
    }
}

/// Position of each kind in the encoding.
pub open spec fn kind_index(k: VoteKind) -> u32 {
    match k {
        VoteKind::DA => 0,
        VoteKind::Yes => 1,
        VoteKind::No => 2,
        VoteKind::Timeout => 3,
        VoteKind::ViewSyncPreCommit => 4,
        VoteKind::ViewSyncCommit => 5,
        VoteKind::ViewSyncFinalize => 6,
    }
}

/// The commitment that a vote of kind `k` on `value` signs: the Keccak-256
/// digest of the labelled layout.
pub open spec fn vote_commitment(k: VoteKind, value: Seq<u8>) -> Seq<u8> {
    keccak256_of(labelled_preimage(kind_tag(k), kind_field(k), value))
}

/// Canonical encoding: the kind's index as a little-endian `u32`, the
/// value's length as a little-endian `u64`, then the value.
pub open spec fn vote_data_encoding(k: VoteKind, value: Seq<u8>) -> Seq<u8> {
    spec_u32_to_le_bytes(kind_index(k)) + spec_u64_to_le_bytes(value.len() as u64) + value
}

/// Tag and field name of a kind, as text.
fn labels(k: VoteKind) -> (r: (&'static str, &'static str))
    ensures
        r.0.spec_bytes() == kind_tag(k),
        r.1.spec_bytes() == kind_field(k),
{
    match k {
        VoteKind::DA => ("DA Block Commit", "block_commitment"),
        VoteKind::Yes => ("Yes Vote Commit", "leaf_commitment"),
        VoteKind::No => ("No Vote Commit", "leaf_commitment"),
        VoteKind::Timeout => ("Timeout View Number Commit", "view_number_commitment"),
        VoteKind::ViewSyncPreCommit => ("ViewSyncPreCommit", "commitment"),
        VoteKind::ViewSyncCommit => ("ViewSyncCommit", "commitment"),
        VoteKind::ViewSyncFinalize => ("ViewSyncFinalize", "commitment"),
    }
}

/// The labelled commitment of `value` under `tag` and `field`.
pub fn labelled_commitment(tag: &[u8], field: &[u8], value: &[u8]) -> (r: Vec<u8>)
    ensures
        r@ == keccak256_of(labelled_preimage(tag@, field@, value@)),
        r@.len() == 32,
{
    let mut pre: Vec<u8> = Vec::new();
    let sep: [u8; 2] = [0xC0u8, 0x7Fu8];
    append_bytes(&mut pre, tag);
    append_bytes(&mut pre, sep.as_slice());
    append_bytes(&mut pre, field);
    append_bytes(&mut pre, sep.as_slice());
    append_bytes(&mut pre, value);
    assert(sep@ =~= label_separator());
    assert(pre@ =~= labelled_preimage(tag@, field@, value@));
    keccak256(pre.as_slice())
}

impl View for VoteData {
    type V = (VoteKind, Seq<u8>);

    open spec fn view(&self) -> (VoteKind, Seq<u8>) {
        match self {
            VoteData::DA(c) => (VoteKind::DA, c@),
            VoteData::Yes(c) => (VoteKind::Yes, c@),
            VoteData::No(c) => (VoteKind::No, c@),
            VoteData::Timeout(c) => (VoteKind::Timeout, c@),
            VoteData::ViewSyncPreCommit(c) => (VoteKind::ViewSyncPreCommit, c@),
            VoteData::ViewSyncCommit(c) => (VoteKind::ViewSyncCommit, c@),
            VoteData::ViewSyncFinalize(c) => (VoteKind::ViewSyncFinalize, c@),
        }
    }
}

impl VoteData {
    /// Wraps `value` in the tag of kind `k`.
    pub fn new(k: VoteKind, value: Vec<u8>) -> (r: VoteData)
        ensures
            r@ == (k, value@),
    {
        match k {
            VoteKind::DA => VoteData::DA(value),
            VoteKind::Yes => VoteData::Yes(value),
            VoteKind::No => VoteData::No(value),
            VoteKind::Timeout => VoteData::Timeout(value),
            VoteKind::ViewSyncPreCommit => VoteData::ViewSyncPreCommit(value),
            VoteKind::ViewSyncCommit => VoteData::ViewSyncCommit(value),
            VoteKind::ViewSyncFinalize => VoteData::ViewSyncFinalize(value),
        }
    }

    /// The kind of vote this data is for.
    pub fn kind(&self) -> (r: VoteKind)
        ensures
            r == self@.0,
    {
        match self {
            VoteData::DA(_) => VoteKind::DA,
            VoteData::Yes(_) => VoteKind::Yes,
            VoteData::No(_) => VoteKind::No,
            VoteData::Timeout(_) => VoteKind::Timeout,
            VoteData::ViewSyncPreCommit(_) => VoteKind::ViewSyncPreCommit,
            VoteData::ViewSyncCommit(_) => VoteKind::ViewSyncCommit,
            VoteData::ViewSyncFinalize(_) => VoteKind::ViewSyncFinalize,
        }
    }

    /// The commitment wrapped in this data.
    pub fn value(&self) -> (r: &Vec<u8>)
        ensures
            r@ == self@.1,
    {
        match self {
            VoteData::DA(c) => c,
            VoteData::Yes(c) => c,
            VoteData::No(c) => c,
            VoteData::Timeout(c) => c,
            VoteData::ViewSyncPreCommit(c) => c,
            VoteData::ViewSyncCommit(c) => c,
            VoteData::ViewSyncFinalize(c) => c,
        }
    }

    /// A copy with the same kind and value.
    pub fn duplicate(&self) -> (r: VoteData)
        ensures
            r@ == self@,
    {
        let v = self.value().clone();
        VoteData::new(self.kind(), v)
    }

    /// The labelled commitment of this data, which is what a vote signs.
    pub fn commit(&self) -> (r: Vec<u8>)
        ensures
            r@ == vote_commitment(self@.0, self@.1),
            r@.len() == 32,
    {
        let (tag, field) = labels(self.kind());
        labelled_commitment(tag.as_bytes(), field.as_bytes(), self.value().as_slice())
    }

    /// Tag used when a commitment to vote data is written as text.
    pub fn tag() -> (r: String)
        ensures
            r@ == "VOTE_DATA_COMMIT"@,
    {
        "VOTE_DATA_COMMIT".to_owned()
    }

    /// Canonical bytes of this data.
    pub fn as_bytes(&self) -> (r: Vec<u8>)
        ensures
            r@ == vote_data_encoding(self@.0, self@.1),
    {
        let k = self.kind();
        let idx: u32 = match k {
            VoteKind::DA => 0,
            VoteKind::Yes => 1,
            VoteKind::No => 2,
            VoteKind::Timeout => 3,
            VoteKind::ViewSyncPreCommit => 4,
            VoteKind::ViewSyncCommit => 5,
            VoteKind::ViewSyncFinalize => 6,
        };
        let v = self.value();
        let mut out = u32_to_le_bytes(idx);
        let len_bytes = u64_to_le_bytes(v.len() as u64);
        append_bytes(&mut out, len_bytes.as_slice());
        append_bytes(&mut out, v.as_slice());
        out
    }
}

} // verus!
