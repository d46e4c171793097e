//! Decision logic for a proof-settled compute-job marketplace: staking checks,
//! job registry bookkeeping, seal extraction and settlement reconciliation,
//! together with the hash pipeline that the proven computation commits to.

pub mod word;
pub mod digest;
pub mod finality;
pub mod guest;
pub mod ledger;
pub mod job;
pub mod receipt;
pub mod session;
pub mod settle;
pub mod stake;
