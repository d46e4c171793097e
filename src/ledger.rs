//! What the protocol reads from mined transactions, and the gas budget it
//! attaches to the calls it sends.

use vstd::prelude::*;

verus! {

/// Gas attached to a job acceptance when the node cannot estimate it.
pub const ACCEPT_GAS_FALLBACK: u64 = 800_000;

/// Gas attached to a proof submission when the node cannot estimate it; proof
/// verification on the ledger costs more than an acceptance.
pub const SUBMIT_GAS_FALLBACK: u64 = 3_000_000;

/// One event log of a mined transaction: the emitting contract and the
/// indexed topics, the first of which is the event's signature.
#[derive(Debug, Clone)]
pub struct LogEntry {
    pub address: [u8; 20],
    pub topics: Vec<[u8; 32]>,
}

/// A mined transaction succeeded exactly when its status is 1.
pub fn tx_succeeded(status: Option<u64>) -> (r: bool)
    ensures
        r == (status == Some(1u64)),
{
    match status {
        Some(s) => s == 1,
        None => false,
    }
}

/// The gas budget for a call: the estimate plus a margin of one fifth
/// (rounded down), or the fixed fallback when no estimate could be had.
pub open spec fn gas_budget_spec(estimate: Option<u64>, fallback: u64) -> int {
    match estimate {
        Some(g) => g * 12 / 10,
        None => fallback as int,
    }
}

pub fn gas_budget(estimate: Option<u64>, fallback: u64) -> (r: u128)
    ensures
        r == gas_budget_spec(estimate, fallback),
{
    match estimate {
        Some(g) => g as u128 * 12 / 10,
        None => fallback as u128,
    }
}

/// Gas budget for accepting a job.
pub fn accept_gas_budget(estimate: Option<u64>) -> (r: u128)
    ensures
        r == gas_budget_spec(estimate, ACCEPT_GAS_FALLBACK),
        estimate is None ==> r > 0,
{
    gas_budget(estimate, ACCEPT_GAS_FALLBACK)
}

/// Gas budget for submitting a proof.
pub fn submit_gas_budget(estimate: Option<u64>) -> (r: u128)
    ensures
        r == gas_budget_spec(estimate, SUBMIT_GAS_FALLBACK),
        estimate is None ==> r > 0,
{
    gas_budget(estimate, SUBMIT_GAS_FALLBACK)
}

/// A failed estimate never stops a call: the budget is then the fixed,
/// non-zero fallback, for acceptances and for submissions alike.
pub proof fn lemma_estimate_failure_falls_back()
    ensures
        gas_budget_spec(None, ACCEPT_GAS_FALLBACK) == ACCEPT_GAS_FALLBACK,
        gas_budget_spec(None, SUBMIT_GAS_FALLBACK) == SUBMIT_GAS_FALLBACK,
        ACCEPT_GAS_FALLBACK > 0,
        SUBMIT_GAS_FALLBACK > ACCEPT_GAS_FALLBACK,
{
}

} // verus!
