//! Waiting for the ledger to catch up: poll a condition until it holds or a
//! time limit runs out, with growing pauses in between.

use vstd::prelude::*;

verus! {

/// Settle delay after staking before the stake record is trusted.
pub const STAKE_SETTLE_SECS: u64 = 15;

/// Settle delay after a job was accepted.
pub const ACCEPT_SETTLE_SECS: u64 = 30;

/// Settle delay after a settlement before the balance is read again.
pub const REWARD_SETTLE_SECS: u64 = 10;

/// How long to keep polling, and how the pause between polls grows.
#[derive(Debug, Clone, Copy, PartialEq, Eq, Structural)]
pub struct PollPolicy {
    pub max_wait_secs: u64,
    pub first_delay_secs: u64,
    pub max_delay_secs: u64,
}

/// Where one poll leaves a wait.
#[derive(Debug, Clone, Copy, PartialEq, Eq, Structural)]
pub enum PollStep {
    /// The condition holds: stop waiting.
    Ready,
    /// Pause this many seconds, then poll again.
    WaitFor(u64),
    /// The time limit is spent and the condition still does not hold.
    TimedOut,
}

impl PollPolicy {
    pub open spec fn well_formed(self) -> bool {
        &&& self.first_delay_secs > 0
        &&& self.first_delay_secs <= self.max_delay_secs
    }

    /// A policy that waits once, for a fixed settle delay, and then at most
    /// as long again (capped at the largest `u64`), polling every `settle_secs` seconds.
    pub fn settle(settle_secs: u64) -> (r: PollPolicy)
        requires
            settle_secs > 0,
        ensures
            r.well_formed(),
            r.first_delay_secs == settle_secs,
            r.max_delay_secs == settle_secs,
            r.max_wait_secs == min(2 * settle_secs, u64::MAX as int),
    {
        let max_wait_secs = if settle_secs > u64::MAX / 2 {
            u64::MAX
        } else {
            2 * settle_secs
        };
        PollPolicy {
            max_wait_secs,
            first_delay_secs: settle_secs,
            max_delay_secs: settle_secs,
        }
    }
}

pub open spec fn min(a: int, b: int) -> int {
    if a <= b {
        a
    } else {
        b
    }
}

pub open spec fn poll_step_spec(policy: PollPolicy, elapsed: u64, delay: u64, condition_met: bool) -> PollStep {
    if condition_met {
        PollStep::Ready
    } else if elapsed >= policy.max_wait_secs {
        PollStep::TimedOut
    } else {
        PollStep::WaitFor(min(delay as int, policy.max_wait_secs - elapsed) as u64)
    }
}

/// Decides after one poll: `elapsed` seconds have been spent waiting so far
/// and `delay` is the pause due now. The pause never runs past the limit.
pub fn poll_step(policy: &PollPolicy, elapsed: u64, delay: u64, condition_met: bool) -> (r: PollStep)
    ensures
        r == poll_step_spec(*policy, elapsed, delay, condition_met),
{
    if condition_met {
        PollStep::Ready
    } else if elapsed >= policy.max_wait_secs {
        PollStep::TimedOut
    } else {
        let left = policy.max_wait_secs - elapsed;
        if delay <= left {
            PollStep::WaitFor(delay)
        } else {
            PollStep::WaitFor(left)
        }
    }
}

/// The pause after `delay`: doubled, but never beyond the policy's maximum
/// nor below its first pause.
pub fn next_delay(policy: &PollPolicy, delay: u64) -> (r: u64)
    requires
        policy.well_formed(),
    ensures
        r == (if delay < policy.first_delay_secs {
            policy.first_delay_secs as int
        } else {
            min(2 * delay, policy.max_delay_secs as int)
        }),
        r > 0,
{
    if delay < policy.first_delay_secs {
        policy.first_delay_secs
    } else if delay > policy.max_delay_secs / 2 {
        policy.max_delay_secs
    } else {
        2 * delay
    }
}

/// Waiting never hangs: while the condition fails, every poll either times
/// out or orders a pause that is positive and stays within the limit, so a
/// wait ends after at most `max_wait_secs` seconds of pauses.
pub proof fn lemma_poll_bounded(policy: PollPolicy, elapsed: u64, delay: u64)
    requires
        policy.well_formed(),
        delay > 0,
    ensures
        match poll_step_spec(policy, elapsed, delay, false) {
            PollStep::WaitFor(d) => d > 0 && elapsed + d <= policy.max_wait_secs,
            PollStep::TimedOut => elapsed >= policy.max_wait_secs,
            PollStep::Ready => false,
        },
{
}

} // verus!
