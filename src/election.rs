//! Committee membership: the ordered stake tables, leader selection and the
//! stake thresholds that certificates are measured against.

use vstd::prelude::*;

use crate::bytes::bytes_eq;

verus! {

/// Error for election problems.
#[derive(Debug, Clone, Copy, PartialEq, Eq, Structural)]
pub enum ElectionError {
    /// A committee that cannot be used (no member, a member without stake, or
    /// a key that appears twice).
    StubError,
    /// The stake of the committee does not fit in 64 bits.
    MathError,
}

/// For items that always have the same validity outcome once checked: valid,
/// invalid, or not checked yet.
pub enum Checked<T> {
    /// This item has been checked, and is valid
    Valid(T),
    /// This item has been checked, and is not valid
    Inval(T),
    /// This item has not been checked
    Unchecked(T),
}

impl<T> Checked<T> {
    /// Whether the item was checked and found valid.
    pub fn is_valid(&self) -> (r: bool)
        ensures
            r == (self is Valid),
    {
        match self {
            Checked::Valid(_) => true,
            _ => false,
        }
    }
}

/// A committee member: its public verification key and its voting weight.
#[derive(Debug, Clone)]
pub struct StakeEntry {
    pub key: Vec<u8>,
    pub stake: u64,
}

/// Sum of the stakes of the first `n` entries of `table`.
pub open spec fn stake_prefix(table: Seq<StakeEntry>, n: int) -> nat
    decreases n,
{
    if n <= 0 || table.len() == 0 {
        0
    } else {
        stake_prefix(table, n - 1) + if n - 1 < table.len() { table[n - 1].stake as nat } else { 0 }
    }
}

/// Total stake of a stake table.
pub open spec fn total_stake(table: Seq<StakeEntry>) -> nat {
    stake_prefix(table, table.len() as int)
}

/// Sum of the stakes of the entries among the first `n` whose bit is set.
pub open spec fn selected_prefix(table: Seq<StakeEntry>, bits: Seq<bool>, n: int) -> nat
    decreases n,
{
    if n <= 0 {
        0
    } else {
        selected_prefix(table, bits, n - 1) + if n - 1 < table.len() && n - 1 < bits.len()
            && bits[n - 1] {
            table[n - 1].stake as nat
        } else {
            0
        }
    }
}

/// Stake of the members of `table` that `bits` selects, position by position.
pub open spec fn selected_stake(table: Seq<StakeEntry>, bits: Seq<bool>) -> nat {
    selected_prefix(table, bits, table.len() as int)
}

/// Whether no key occurs twice in `table`.
pub open spec fn keys_distinct(table: Seq<StakeEntry>) -> bool {
    forall|i: int, j: int|
        0 <= i < table.len() && 0 <= j < table.len() && i != j ==> #[trigger] table[i].key@
            != #[trigger] table[j].key@
}

/// A usable stake table: not empty, every stake positive, keys distinct, and
/// a total stake that fits in 64 bits.
pub open spec fn table_wf(table: Seq<StakeEntry>) -> bool {
    &&& table.len() > 0
    &&& forall|i: int| 0 <= i < table.len() ==> #[trigger] table[i].stake > 0
    &&& keys_distinct(table)
    &&& total_stake(table) <= u64::MAX
}

/// Whether `key` is a member of `table`.
pub open spec fn is_member(table: Seq<StakeEntry>, key: Seq<u8>) -> bool {
    exists|i: int| 0 <= i < table.len() && #[trigger] table[i].key@ == key
}

/// Smallest stake that implies a Byzantine quorum out of `total`.
pub open spec fn success_threshold_of(total: nat) -> nat {
    2 * total / 3 + 1
}

/// Smallest stake that proves a quorum out of `total` impossible.
pub open spec fn failure_threshold_of(total: nat) -> nat {
    total / 3 + 1
}

pub proof fn lemma_stake_prefix_mono(table: Seq<StakeEntry>, m: int, n: int)
    requires
        m <= n,
    ensures
        stake_prefix(table, m) <= stake_prefix(table, n),
    decreases n - m,
{
    if m < n {
        lemma_stake_prefix_mono(table, m, n - 1);
    }
}

pub proof fn lemma_selected_le_total(table: Seq<StakeEntry>, bits: Seq<bool>, n: int)
    ensures
        selected_prefix(table, bits, n) <= stake_prefix(table, n),
    decreases n,
{
    if n > 0 {
        lemma_selected_le_total(table, bits, n - 1);
    }
}

/// Setting a clear bit at `i` adds the stake of entry `i`, for every prefix
/// that covers `i`.
pub proof fn lemma_selected_set_bit(table: Seq<StakeEntry>, bits: Seq<bool>, i: int, n: int)
    requires
        0 <= i < table.len(),
        i < bits.len(),
        !bits[i],
    ensures
        selected_prefix(table, bits.update(i, true), n) == selected_prefix(table, bits, n) + if i
            < n {
            table[i].stake as nat
        } else {
            0
        },
    decreases n,
{
    if n > 0 {
        lemma_selected_set_bit(table, bits, i, n - 1);
    }
}

/// No set bit, no stake.
pub proof fn lemma_selected_none(table: Seq<StakeEntry>, bits: Seq<bool>, n: int)
    requires
        forall|j: int| 0 <= j < bits.len() ==> !bits[j],
    ensures
        selected_prefix(table, bits, n) == 0,
    decreases n,
{
    if n > 0 {
        lemma_selected_none(table, bits, n - 1);
    }
}

/// Position of `key` in `table`, if it is a member.
pub fn find_member(table: &Vec<StakeEntry>, key: &[u8]) -> (r: Option<usize>)
    requires
        keys_distinct(table@),
    ensures
        match r {
            Some(i) => i < table@.len() && table@[i as int].key@ == key@,
            None => !is_member(table@, key@),
        },
{
    let mut i: usize = 0;
    while i < table.len()
        invariant
            i <= table@.len(),
            forall|j: int| 0 <= j < i ==> #[trigger] table@[j].key@ != key@,
        decreases table@.len() - i,
    {
        if bytes_eq(table[i].key.as_slice(), key) {
            return Some(i);
        }
        i = i + 1;
    }
    None
}

/// Total stake of `table`, or `None` where it does not fit in 64 bits.
pub fn sum_stake(table: &Vec<StakeEntry>) -> (r: Option<u64>)
    ensures
        match r {
            Some(t) => t == total_stake(table@),
            None => total_stake(table@) > u64::MAX,
        },
{
    let mut total: u64 = 0;
    let mut i: usize = 0;
    while i < table.len()
        invariant
            i <= table@.len(),
            total == stake_prefix(table@, i as int),
        decreases table@.len() - i,
    {
        let s = table[i].stake;
        if s > u64::MAX - total {
            proof {
                lemma_stake_prefix_mono(table@, i + 1, table@.len() as int);
            }
            return None;
        }
        total = total + s;
        i = i + 1;
    }
    Some(total)
}

/// Whether the keys of `table` are pairwise distinct.
fn check_keys_distinct(table: &Vec<StakeEntry>) -> (r: bool)
    ensures
        r == keys_distinct(table@),
{
    let n = table.len();
    let mut i: usize = 0;
    while i < n
        invariant
            n == table@.len(),
            i <= n,
            forall|a: int, b: int|
                0 <= a < i && 0 <= b < n && a != b ==> #[trigger] table@[a].key@
                    != #[trigger] table@[b].key@,
        decreases n - i,
    {
        let mut j: usize = 0;
        while j < n
            invariant
                n == table@.len(),
                i < n,
                j <= n,
                forall|a: int, b: int|
                    0 <= a < i && 0 <= b < n && a != b ==> #[trigger] table@[a].key@
                        != #[trigger] table@[b].key@,
                forall|b: int| 0 <= b < j && b != i ==> table@[i as int].key@ != #[trigger] table@[b].key@,
            decreases n - j,
        {
            if j != i && bytes_eq(table[i].key.as_slice(), table[j].key.as_slice()) {
                return false;
            }
            j = j + 1;
        }
        i = i + 1;
    }
    true
}

/// Whether `table` is a usable stake table.
pub fn check_table(table: &Vec<StakeEntry>) -> (r: bool)
    ensures
        r == table_wf(table@),
{
    if table.len() == 0 {
        return false;
    }
    let mut i: usize = 0;
    while i < table.len()
        invariant
            i <= table@.len(),
            forall|j: int| 0 <= j < i ==> #[trigger] table@[j].stake > 0,
        decreases table@.len() - i,
    {
        if table[i].stake == 0 {
            return false;
        }
        i = i + 1;
    }
    if !check_keys_distinct(table) {
        return false;
    }
    match sum_stake(table) {
        Some(_) => true,
        None => false,
    }
}

/// `2 * total / 3 + 1`, computed without overflow.
pub fn success_threshold_for(total: u64) -> (r: u64)
    ensures
        r == success_threshold_of(total as nat),
{
    let t = total as u128;
    let r = t * 2 / 3 + 1;
    assert(r <= u64::MAX) by (nonlinear_arith)
        requires
            r == t * 2 / 3 + 1,
            t <= u64::MAX,
    ;
    r as u64
}

/// `total / 3 + 1`.
pub fn failure_threshold_for(total: u64) -> (r: u64)
    ensures
        r == failure_threshold_of(total as nat),
{
    total / 3 + 1
}

/// The committee of a node: the ordered quorum stake table and the ordered
/// stake table of the data-availability committee. The same committee serves
/// every epoch, so every answer below depends on the epoch only through it.
#[derive(Debug, Clone)]
pub struct Membership {
    pub stake_table: Vec<StakeEntry>,
    pub da_stake_table: Vec<StakeEntry>,
}

impl Membership {
    /// Both stake tables are usable.
    pub open spec fn wf(&self) -> bool {
        table_wf(self.stake_table@) && table_wf(self.da_stake_table@)
    }

    /// Key of the leader of `view`: the member at position `view mod n` of the
    /// quorum stake table.
    pub open spec fn leader_spec(&self, view: u64) -> Seq<u8> {
        self.stake_table@[(view as int) % (self.stake_table@.len() as int)].key@
    }

    /// Builds a membership from two stake tables; fails where one of them is
    /// empty, holds a member without stake or a key twice
    /// (`ElectionError::StubError`), or where its total stake overflows
    /// (`ElectionError::MathError`).
    pub fn create_election(stake_table: Vec<StakeEntry>, da_stake_table: Vec<StakeEntry>) -> (r:
        Result<Membership, ElectionError>)
        ensures
            match r {
                Ok(m) => m.wf() && m.stake_table@ == stake_table@ && m.da_stake_table@
                    == da_stake_table@,
                Err(e) => !(table_wf(stake_table@) && table_wf(da_stake_table@)) && (e
                    == ElectionError::MathError <==> (total_stake(stake_table@) > u64::MAX
                    || total_stake(da_stake_table@) > u64::MAX)),
            },
    {
        let a = sum_stake(&stake_table);
        let b = sum_stake(&da_stake_table);
        if a.is_none() || b.is_none() {
            return Err(ElectionError::MathError);
        }
        if !check_table(&stake_table) || !check_table(&da_stake_table) {
            return Err(ElectionError::StubError);
        }
        Ok(Membership { stake_table, da_stake_table })
    }

    /// The leader of the committee for `view` in `epoch`.
    pub fn leader(&self, view: u64, epoch: u64) -> (r: &Vec<u8>)
        requires
            self.wf(),
        ensures
            r@ == self.leader_spec(view),
    {
        let n = self.stake_table.len() as u64;
        let i = (view % n) as usize;
        &self.stake_table[i].key
    }

    /// Whether `key` is the leader for `view` in `epoch`.
    pub fn is_leader(&self, key: &[u8], view: u64, epoch: u64) -> (r: bool)
        requires
            self.wf(),
        ensures
            r == (key@ == self.leader_spec(view)),
    {
        bytes_eq(self.leader(view, epoch).as_slice(), key)
    }

    /// Whether `key` holds stake in the quorum committee of `epoch`.
    pub fn has_stake(&self, key: &[u8], epoch: u64) -> (r: bool)
        requires
            self.wf(),
        ensures
            r == is_member(self.stake_table@, key@),
    {
        find_member(&self.stake_table, key).is_some()
    }

    /// Whether `key` holds stake in the data-availability committee of `epoch`.
    pub fn has_da_stake(&self, key: &[u8], epoch: u64) -> (r: bool)
        requires
            self.wf(),
        ensures
            r == is_member(self.da_stake_table@, key@),
    {
        find_member(&self.da_stake_table, key).is_some()
    }

    /// Number of members of the quorum committee of `epoch`.
    pub fn total_nodes(&self, epoch: u64) -> (r: usize)
        ensures
            r == self.stake_table@.len(),
    {
        self.stake_table.len()
    }

    /// Number of members of the data-availability committee of `epoch`.
    pub fn da_total_nodes(&self, epoch: u64) -> (r: usize)
        ensures
            r == self.da_stake_table@.len(),
    {
        self.da_stake_table.len()
    }

    /// Total stake of the quorum committee.
    pub fn total_stake(&self) -> (r: u64)
        requires
            self.wf(),
        ensures
            r == total_stake(self.stake_table@),
    {
        match sum_stake(&self.stake_table) {
            Some(t) => t,
            None => 0,
        }
    }

    /// Total stake of the data-availability committee.
    pub fn da_total_stake(&self) -> (r: u64)
        requires
            self.wf(),
        ensures
            r == total_stake(self.da_stake_table@),
    {
        match sum_stake(&self.da_stake_table) {
            Some(t) => t,
            None => 0,
        }
    }

    /// Smallest quorum stake that proves success in `epoch`.
    pub fn success_threshold(&self, epoch: u64) -> (r: u64)
        requires
            self.wf(),
        ensures
            r == success_threshold_of(total_stake(self.stake_table@)),
    {
        success_threshold_for(self.total_stake())
    }

    /// Smallest quorum stake that proves success impossible in `epoch`.
    pub fn failure_threshold(&self, epoch: u64) -> (r: u64)
        requires
            self.wf(),
        ensures
            r == failure_threshold_of(total_stake(self.stake_table@)),
    {
        failure_threshold_for(self.total_stake())
    }

    /// Smallest data-availability stake that proves success in `epoch`.
    pub fn da_success_threshold(&self, epoch: u64) -> (r: u64)
        requires
            self.wf(),
        ensures
            r == success_threshold_of(total_stake(self.da_stake_table@)),
    {
        success_threshold_for(self.da_total_stake())
    }

    /// The ordered quorum stake table of `epoch`.
    pub fn get_stake_table(&self, epoch: u64) -> (r: &Vec<StakeEntry>)
        ensures
            r@ == self.stake_table@,
    {
        &self.stake_table
    }

    /// The ordered data-availability stake table of `epoch`.
    pub fn get_da_stake_table(&self, epoch: u64) -> (r: &Vec<StakeEntry>)
        ensures
            r@ == self.da_stake_table@,
    {
        &self.da_stake_table
    }
}

/// Proof of an entity's right to vote, and of the weight of its votes.
pub trait VoteToken {
    /// The weight the token proves.
    spec fn spec_vote_count(&self) -> nat;

    /// The weight, which validation confirms.
    fn vote_count(&self) -> (r: u64)
        ensures
            r == self.spec_vote_count(),
    ;
}

/// A stake-table entry proves its member's right to vote with its stake.
impl VoteToken for StakeEntry {
    open spec fn spec_vote_count(&self) -> nat {
        self.stake as nat
    }

    fn vote_count(&self) -> (r: u64) {
        self.stake
    }
}

} // verus!
