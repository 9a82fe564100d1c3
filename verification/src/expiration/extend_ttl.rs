//! Extending a contract instance's time to live.

use vstd::prelude::*;
use crate::text::{decimal_text, lemma_decimal_text_injective, u32_to_decimal};

verus! {

/// The number of ledgers an instance still lives for, as reported after an
/// extension: the live-until ledger minus the latest ledger (cut to 32 bits).
pub open spec fn remaining_ledgers(latest_ledger: i64, live_until_ledger_seq: u32) -> nat {
    (live_until_ledger_seq - (latest_ledger as u32)) as nat
}

/// The answer to an extension: the instance's new time to live, in
/// decimal, worked out from the ledger read after the extension.
///
/// The latest ledger (cut to 32 bits) must not be past the live-until
/// ledger: the subtraction would overflow.
pub fn bump_contract_instance(ttl: (i64, u32)) -> (r: String)
    requires
        (ttl.0 as u32) <= ttl.1,
    ensures
        r@ == decimal_text(remaining_ledgers(ttl.0, ttl.1)),
{
    let (latest_ledger, live_until_ledger_seq) = ttl;
    let new_ttl = live_until_ledger_seq - latest_ledger as u32;
    u32_to_decimal(new_ttl)
}

/// The reported time to live, added to the latest ledger (cut to 32 bits),
/// gives the live-until ledger: the number whose decimal text is the
/// answer is exactly the distance between the two.
pub proof fn lemma_reported_ttl_reaches_live_until(latest_ledger: i64, live_until_ledger_seq: u32, reported: nat)
    requires
        (latest_ledger as u32) <= live_until_ledger_seq,
        decimal_text(reported) == decimal_text(remaining_ledgers(latest_ledger, live_until_ledger_seq)),
    ensures
        reported + (latest_ledger as u32) == live_until_ledger_seq,
{
    lemma_decimal_text_injective(reported, remaining_ledgers(latest_ledger, live_until_ledger_seq));
}

} // verus!
