//! The quality filter: the pure decision that ends one pipeline pass.

use crate::enrich::EnrichmentResult;
use vstd::prelude::*;

verus! {

/// The acceptance threshold on the fee payer's spend: half a SOL, in
/// lamports. The boundary is inclusive.
pub const ACCEPT_THRESHOLD_LAMPORTS: u64 = 500_000_000;

/// The terminal artifact of one pipeline pass: either discarded (rejected)
/// or handed to the notifier (accepted), with the facts that decided it.
#[derive(Debug, Clone, PartialEq)]
pub struct Decision {
    pub accepted: bool,
    pub result: EnrichmentResult,
}

/// Single-threshold quality rule: accepted exactly when the fee payer's
/// spend reaches half a SOL; the enrichment facts ride along unchanged.
pub fn decide(result: EnrichmentResult) -> (d: Decision)
    ensures
        d.accepted == (result.spend_lamports >= ACCEPT_THRESHOLD_LAMPORTS),
        d.result == result,
{
    let accepted = result.spend_lamports >= ACCEPT_THRESHOLD_LAMPORTS;
    Decision { accepted, result }
}

} // verus!
