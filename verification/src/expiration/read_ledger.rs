//! Reading a contract instance's time to live from the ledger.

use vstd::prelude::*;

verus! {

/// One ledger entry as the RPC returns it, reduced to its TTL.
#[derive(Debug, Clone, Copy, PartialEq, Eq)]
pub struct FullLedgerEntry {
    pub live_until_ledger_seq: u32,
}

/// The RPC's answer to a ledger entries request: the latest ledger it has
/// seen and the entries asked for, in the order of the keys.
#[derive(Debug)]
pub struct FullLedgerEntries {
    pub latest_ledger: i64,
    pub entries: Vec<FullLedgerEntry>,
}

/// The latest ledger and the ledger until which the contract instance
/// lives; the answer for the instance key holds exactly one entry (an
/// empty answer stops the service).
pub fn read_ledger_ttl(answer: &FullLedgerEntries) -> (r: (i64, u32))
    requires
        answer.entries@.len() > 0,
    ensures
        r == (answer.latest_ledger, answer.entries@[0].live_until_ledger_seq),
{
    (answer.latest_ledger, answer.entries[0].live_until_ledger_seq)
}

} // verus!
