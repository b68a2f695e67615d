//! Certificate checks: a certificate holds when the members it selects carry
//! the threshold stake and their signatures verify over its vote data.

use vstd::prelude::*;

use crate::bytes::bytes_eq;
use crate::election::{
    lemma_selected_le_total, lemma_stake_prefix_mono, selected_prefix, selected_stake, table_wf,
    StakeEntry,
};
use crate::message::{Certificate, CertificateModel};

verus! {

/// Whether `cert` is a valid certificate for the value `expected`, against
/// `table` at `threshold`. `signatures_valid` tells whether each signature
/// at a set bit verifies under the key at that position of `table` over the
/// commitment of the certificate's vote data.
pub open spec fn cert_valid_spec(
    table: Seq<StakeEntry>,
    threshold: u64,
    cert: CertificateModel,
    expected: Seq<u8>,
    signatures_valid: bool,
) -> bool {
    if cert.genesis && cert.view_number == 0 {
        true
    } else {
        &&& cert.vote_data.1 == expected
        &&& cert.signers.len() == table.len()
        &&& cert.signatures.len() == table.len()
        &&& selected_stake(table, cert.signers) >= threshold
        &&& signatures_valid
    }
}

/// Stake of the members of `table` that `bits` selects.
pub fn selected_stake_of(table: &Vec<StakeEntry>, bits: &Vec<bool>) -> (r: u64)
    requires
        table_wf(table@),
    ensures
        r == selected_stake(table@, bits@),
{
    let n = table.len();
    let mut sum: u64 = 0;
    let mut i: usize = 0;
    while i < n
        invariant
            n == table@.len(),
            table_wf(table@),
            i <= n,
            sum == selected_prefix(table@, bits@, i as int),
        decreases n - i,
    {
        proof {
            lemma_selected_le_total(table@, bits@, i + 1);
            lemma_stake_prefix_mono(table@, i + 1, n as int);
        }
        if i < bits.len() && bits[i] {
            sum = sum + table[i].stake;
        }
        i = i + 1;
    }
    sum
}

/// Checks `cert` for the value `expected` against `table` at `threshold`:
/// the genesis certificate holds; any other holds where it is for
/// `expected`, its bitset and signatures are aligned with `table`, the
/// members it selects carry at least `threshold` stake, and
/// `signatures_valid` (see `cert_valid_spec`).
pub fn check_certificate(
    table: &Vec<StakeEntry>,
    threshold: u64,
    cert: &Certificate,
    expected: &[u8],
    signatures_valid: bool,
) -> (r: bool)
    requires
        table_wf(table@),
    ensures
        r == cert_valid_spec(table@, threshold, cert@, expected@, signatures_valid),
{
    if cert.is_genesis() && cert.view_number() == 0 {
        return true;
    }
    if !bytes_eq(cert.leaf_commitment().as_slice(), expected) {
        return false;
    }
    if cert.signers.len() != table.len() || cert.signatures.len() != table.len() {
        return false;
    }
    if selected_stake_of(table, &cert.signers) < threshold {
        return false;
    }
    signatures_valid
}

} // verus!
