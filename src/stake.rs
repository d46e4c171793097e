//! Stake enforcement: a provider must hold enough collateral on the stake
//! registry before it may claim jobs.

use vstd::prelude::*;
use crate::ledger::tx_succeeded;
use crate::word::Word256;

verus! {

/// A provider's entry on the stake registry.
#[derive(Debug, Clone, Copy, PartialEq, Eq, Structural)]
pub struct StakeRecord {
    pub stake_amount: Word256,
    pub exists: bool,
}

/// Why staking could not be brought up to the required amount.
#[derive(Debug, Clone, Copy, PartialEq, Eq, Structural)]
pub enum StakeError {
    /// The provider's token balance is below the required stake.
    InsufficientBalance,
    /// The allowance grant or the stake transaction reverted.
    StakeTransactionReverted,
    /// After staking and waiting, the registry still shows too little stake.
    StakeStillInsufficient,
}

/// What to do about stake once balance and record have been read.
#[derive(Debug, Clone, Copy, PartialEq, Eq, Structural)]
pub enum StakePlan {
    /// The record already meets the requirement: no transaction is needed.
    AlreadySufficient,
    /// Grant the registry an allowance of this amount, then stake it.
    Stake(Word256),
}

/// The record lets the provider claim jobs that require `required`.
pub open spec fn stake_meets(record: StakeRecord, required: Word256) -> bool {
    record.exists && record.stake_amount.value() >= required.value()
}

pub open spec fn stake_plan(balance: Word256, record: StakeRecord, required: Word256) -> Result<
    StakePlan,
    StakeError,
> {
    if balance.value() < required.value() {
        Err(StakeError::InsufficientBalance)
    } else if stake_meets(record, required) {
        Ok(StakePlan::AlreadySufficient)
    } else {
        Ok(StakePlan::Stake(required))
    }
}

/// A plan that sends transactions to the ledger.
pub open spec fn sends_transactions(plan: Result<StakePlan, StakeError>) -> bool {
    match plan {
        Ok(StakePlan::Stake(_)) => true,
        _ => false,
    }
}

/// Decides, from a fresh balance and a fresh stake record, whether staking is
/// needed. A balance below the requirement is fatal even when the stake is
/// already sufficient: the provider is never funded automatically.
pub fn plan_stake(balance: &Word256, record: &StakeRecord, required: &Word256) -> (r: Result<
    StakePlan,
    StakeError,
>)
    ensures
        r == stake_plan(*balance, *record, *required),
{
    if balance.lt(required) {
        Err(StakeError::InsufficientBalance)
    } else if record.exists && !record.stake_amount.lt(required) {
        Ok(StakePlan::AlreadySufficient)
    } else {
        Ok(StakePlan::Stake(*required))
    }
}

/// The outcome of a mined allowance or stake transaction.
pub fn stake_tx_outcome(status: Option<u64>) -> (r: Result<(), StakeError>)
    ensures
        r == (if status == Some(1u64) {
            Ok::<(), StakeError>(())
        } else {
            Err(StakeError::StakeTransactionReverted)
        }),
{
    if tx_succeeded(status) {
        Ok(())
    } else {
        Err(StakeError::StakeTransactionReverted)
    }
}

pub open spec fn stake_confirmation(after: StakeRecord, required: Word256) -> Result<
    StakeRecord,
    StakeError,
> {
    if stake_meets(after, required) {
        Ok(after)
    } else {
        Err(StakeError::StakeStillInsufficient)
    }
}

/// Checks the record read again after staking and the settle delay.
pub fn confirm_stake(after: &StakeRecord, required: &Word256) -> (r: Result<StakeRecord, StakeError>)
    ensures
        r == stake_confirmation(*after, *required),
{
    if after.exists && !after.stake_amount.lt(required) {
        Ok(*after)
    } else {
        Err(StakeError::StakeStillInsufficient)
    }
}

/// Ensuring stake is idempotent: once a first run has ended with the stake
/// confirmed (found sufficient, or staked and confirmed), a second run for
/// the same requirement that reads that record sends no transaction, whatever
/// balance it reads.
pub proof fn lemma_ensure_stake_idempotent(
    first_balance: Word256,
    second_balance: Word256,
    record: StakeRecord,
    required: Word256,
)
    requires
        stake_plan(first_balance, record, required) == Ok::<StakePlan, StakeError>(
            StakePlan::AlreadySufficient,
        ) || stake_confirmation(record, required) == Ok::<StakeRecord, StakeError>(record),
    ensures
        !sends_transactions(stake_plan(second_balance, record, required)),
{
}

} // verus!
