//! Settlement: the outcome of a proof submission and the reconciliation of
//! the provider's balance afterwards.

use vstd::prelude::*;
use crate::word::Word256;

verus! {

/// A mined proof submission.
#[derive(Debug, Clone, Copy, PartialEq, Eq)]
pub struct SubmissionReceipt {
    pub transaction_hash: [u8; 32],
    pub success: bool,
    pub gas_used: u64,
}

/// Why a submission failed.
#[derive(Debug, Clone, Copy, PartialEq, Eq, Structural)]
pub enum SettlementError {
    /// The submission reverted: the ledger's verifier rejected the proof, or
    /// the job was no longer in a state to be settled.
    SettlementReverted,
}

/// What the balance says after a successful submission. A missing reward is
/// a warning, not an error: the proof was accepted all the same.
#[derive(Debug, Clone, Copy, PartialEq, Eq, Structural)]
pub enum Reconciliation {
    RewardReceived,
    RewardNotReceived,
}

/// A mined submission settles the job exactly when it succeeded.
pub fn settlement_outcome(receipt: SubmissionReceipt) -> (r: Result<SubmissionReceipt, SettlementError>)
    ensures
        r == (if receipt.success {
            Ok::<SubmissionReceipt, SettlementError>(receipt)
        } else {
            Err(SettlementError::SettlementReverted)
        }),
{
    if receipt.success {
        Ok(receipt)
    } else {
        Err(SettlementError::SettlementReverted)
    }
}

/// Compares the provider's balance before the submission with the balance
/// read after it settled: only an increase counts as the reward.
pub fn reconcile(before: &Word256, after: &Word256) -> (r: Reconciliation)
    ensures
        r == (if after.value() > before.value() {
            Reconciliation::RewardReceived
        } else {
            Reconciliation::RewardNotReceived
        }),
{
    if before.lt(after) {
        Reconciliation::RewardReceived
    } else {
        Reconciliation::RewardNotReceived
    }
}

} // verus!
