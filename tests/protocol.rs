use resnet_hasher::guest::{compute_outputs, JobInputs};
use resnet_hasher::job::{
    accept_outcome, check_acceptable, create_job_request, deadline_after, find_job_id, JobError,
    JobStatus, OnChainJob, ONE_DAY_IN_SECONDS,
};
use resnet_hasher::ledger::{
    accept_gas_budget, gas_budget, submit_gas_budget, tx_succeeded, LogEntry, ACCEPT_GAS_FALLBACK,
    SUBMIT_GAS_FALLBACK,
};
use resnet_hasher::receipt::{verify_locally, ProofArtifact, ProofError, ProofVariant};
use resnet_hasher::settle::{reconcile, settlement_outcome, Reconciliation, SettlementError, SubmissionReceipt};
use resnet_hasher::stake::{confirm_stake, plan_stake, stake_tx_outcome, StakeError, StakePlan, StakeRecord};
use resnet_hasher::word::Word256;

const ETHER: u128 = 1_000_000_000_000_000_000;

fn tokens(n: u128) -> Word256 {
    Word256::from_u128(n * ETHER)
}

fn topic(last: u8) -> [u8; 32] {
    let mut t = [0u8; 32];
    t[31] = last;
    t
}

#[test]
fn word_order_uses_both_halves() {
    let small = Word256 { hi: 0, lo: u128::MAX };
    let big = Word256 { hi: 1, lo: 0 };
    assert!(small.lt(&big));
    assert!(!big.lt(&small));
    assert!(!big.lt(&big));
    assert!(Word256::from_u128(3).lt(&Word256::from_u128(4)));
}

#[test]
fn word_from_big_endian_bytes() {
    let mut b = [0u8; 32];
    b[15] = 1;
    b[31] = 0x2a;
    assert_eq!(Word256::from_be_bytes(&b), Word256 { hi: 1, lo: 0x2a });
    b[0] = 0x80;
    assert_eq!(Word256::from_be_bytes(&b).hi, (0x80u128 << 120) | 1);
}

#[test]
fn stake_insufficient_balance_is_fatal() {
    let rec = StakeRecord { stake_amount: tokens(100), exists: true };
    assert_eq!(plan_stake(&tokens(4), &rec, &tokens(5)), Err(StakeError::InsufficientBalance));
}

#[test]
fn stake_needed_when_absent_or_short() {
    let absent = StakeRecord { stake_amount: tokens(0), exists: false };
    assert_eq!(plan_stake(&tokens(5), &absent, &tokens(5)), Ok(StakePlan::Stake(tokens(5))));
    let short = StakeRecord { stake_amount: tokens(4), exists: true };
    assert_eq!(plan_stake(&tokens(50), &short, &tokens(5)), Ok(StakePlan::Stake(tokens(5))));
    let ghost = StakeRecord { stake_amount: tokens(9), exists: false };
    assert_eq!(plan_stake(&tokens(50), &ghost, &tokens(5)), Ok(StakePlan::Stake(tokens(5))));
}

#[test]
fn stake_idempotent_second_call_sends_nothing() {
    let after = StakeRecord { stake_amount: tokens(5), exists: true };
    assert_eq!(stake_tx_outcome(Some(1)), Ok(()));
    assert_eq!(confirm_stake(&after, &tokens(5)), Ok(after));
    assert_eq!(plan_stake(&tokens(20), &after, &tokens(5)), Ok(StakePlan::AlreadySufficient));
    assert_eq!(plan_stake(&tokens(20), &after, &tokens(5)), Ok(StakePlan::AlreadySufficient));
}

#[test]
fn stake_errors_after_staking() {
    assert_eq!(stake_tx_outcome(Some(0)), Err(StakeError::StakeTransactionReverted));
    assert_eq!(stake_tx_outcome(None), Err(StakeError::StakeTransactionReverted));
    let after = StakeRecord { stake_amount: tokens(4), exists: true };
    assert_eq!(confirm_stake(&after, &tokens(5)), Err(StakeError::StakeStillInsufficient));
}

#[test]
fn job_id_from_creation_logs() {
    let registry = [7u8; 20];
    let signature = [0xabu8; 32];
    let logs = vec![
        LogEntry { address: [1u8; 20], topics: vec![signature, topic(1)] },
        LogEntry { address: registry, topics: vec![signature] },
        LogEntry { address: registry, topics: vec![[0u8; 32], topic(2)] },
        LogEntry { address: registry, topics: vec![signature, topic(42)] },
        LogEntry { address: registry, topics: vec![signature, topic(43)] },
    ];
    assert_eq!(find_job_id(&logs, &registry, &signature), Ok(Word256::from_u128(42)));
}

#[test]
fn job_id_missing_is_fatal() {
    let registry = [7u8; 20];
    let signature = [0xabu8; 32];
    assert_eq!(find_job_id(&vec![], &registry, &signature), Err(JobError::JobIdNotFound));
    let logs = vec![LogEntry { address: registry, topics: vec![signature] }];
    assert_eq!(find_job_id(&logs, &registry, &signature), Err(JobError::JobIdNotFound));
}

#[test]
fn accept_rejects_claimed_job() {
    let mut provider = [0u8; 20];
    provider[19] = 5;
    let job = OnChainJob { client: [1u8; 20], provider, status: 0 };
    assert_eq!(check_acceptable(&job), Err(JobError::JobAlreadyClaimed));
    let job = OnChainJob { client: [1u8; 20], provider, status: 1 };
    assert_eq!(check_acceptable(&job), Err(JobError::JobAlreadyClaimed));
}

#[test]
fn accept_rejects_wrong_status_and_reverts() {
    let job = OnChainJob { client: [1u8; 20], provider: [0u8; 20], status: 4 };
    assert_eq!(check_acceptable(&job), Err(JobError::JobNotAcceptable));
    let job = OnChainJob { client: [1u8; 20], provider: [0u8; 20], status: 0 };
    assert_eq!(check_acceptable(&job), Ok(()));
    assert_eq!(accept_outcome(Some(1)), Ok(()));
    assert_eq!(accept_outcome(Some(0)), Err(JobError::AcceptRejected));
}

#[test]
fn status_codes() {
    assert_eq!(JobStatus::from_code(0), Some(JobStatus::Created));
    assert_eq!(JobStatus::from_code(3), Some(JobStatus::Paid));
    assert_eq!(JobStatus::from_code(5), None);
}

#[test]
fn gas_fallback_on_estimation_failure() {
    assert_eq!(accept_gas_budget(None), ACCEPT_GAS_FALLBACK as u128);
    assert_eq!(submit_gas_budget(None), SUBMIT_GAS_FALLBACK as u128);
    assert_eq!(accept_gas_budget(None), 800_000);
    assert_eq!(submit_gas_budget(None), 3_000_000);
    assert!(accept_gas_budget(None) > 0);
}

#[test]
fn gas_margin_over_estimate() {
    assert_eq!(accept_gas_budget(Some(100_000)), 120_000);
    assert_eq!(submit_gas_budget(Some(15)), 18);
    assert_eq!(gas_budget(Some(u64::MAX), 1), (u64::MAX as u128) * 12 / 10);
    assert!(tx_succeeded(Some(1)));
    assert!(!tx_succeeded(Some(2)));
}

#[test]
fn deadline_equal_to_now_is_accepted() {
    let now = 1_700_000_000u64;
    let req = create_job_request(
        "QmJob".to_string(),
        tokens(10),
        Word256::from_u128(now as u128),
        &[1, 0, 0, 0, 0, 0, 0, 0],
    );
    assert_eq!(req.deadline, Word256::from_u128(now as u128));
    assert_eq!(req.method_commitment[0], 1);
    assert_eq!(deadline_after(now, ONE_DAY_IN_SECONDS), Word256::from_u128(now as u128 + 86_400));
    assert_eq!(deadline_after(u64::MAX, 1), Word256::from_u128(u64::MAX as u128 + 1));
}

#[test]
fn local_verification_rejects_other_method() {
    let inputs = JobInputs { image_batch_data: vec![1u8; 4], model_weights_data: vec![2u8; 4] };
    let outputs = compute_outputs(&inputs);
    let expected = [1u32, 2, 3, 4, 5, 6, 7, 8];
    let good = ProofArtifact { variant: ProofVariant::Fake, journal: vec![], claimed_method_id: expected };
    assert_eq!(verify_locally(&good, &expected, true, &outputs), Ok(()));
    assert_eq!(verify_locally(&good, &expected, false, &outputs), Err(ProofError::LocalVerificationFailed));
    let mut tampered = expected;
    tampered[7] = 9;
    let bad = ProofArtifact { variant: ProofVariant::Fake, journal: vec![], claimed_method_id: tampered };
    assert_eq!(verify_locally(&bad, &expected, true, &outputs), Err(ProofError::LocalVerificationFailed));
    let mut wrong = outputs.clone();
    wrong.image_batch_hash[3] ^= 0x10;
    assert_eq!(verify_locally(&good, &expected, true, &wrong), Err(ProofError::LocalVerificationFailed));
}

#[test]
fn settlement_and_reconciliation() {
    let ok = SubmissionReceipt { transaction_hash: [3u8; 32], success: true, gas_used: 250_000 };
    assert_eq!(settlement_outcome(ok), Ok(ok));
    let bad = SubmissionReceipt { success: false, ..ok };
    assert_eq!(settlement_outcome(bad), Err(SettlementError::SettlementReverted));
    assert_eq!(reconcile(&tokens(1), &tokens(11)), Reconciliation::RewardReceived);
    assert_eq!(reconcile(&tokens(11), &tokens(11)), Reconciliation::RewardNotReceived);
    assert_eq!(reconcile(&tokens(11), &tokens(10)), Reconciliation::RewardNotReceived);
}

#[test]
fn end_to_end_job_settles() {
    let now = 1_700_000_000u64;
    let reward = tokens(10);
    let required = tokens(5);
    let staked = StakeRecord { stake_amount: tokens(5), exists: true };
    assert_eq!(plan_stake(&tokens(100), &staked, &required), Ok(StakePlan::AlreadySufficient));

    let method_id = [11u32, 22, 33, 44, 55, 66, 77, 88];
    let req = create_job_request("QmJob".to_string(), reward, deadline_after(now, ONE_DAY_IN_SECONDS), &method_id);
    assert_eq!(req.reward, reward);
    let registry = [9u8; 20];
    let signature = [0x5cu8; 32];
    let logs = vec![LogEntry { address: registry, topics: vec![signature, topic(1)] }];
    let job_id = find_job_id(&logs, &registry, &signature).unwrap();
    assert_eq!(job_id, Word256::from_u128(1));

    let job = OnChainJob { client: [1u8; 20], provider: [0u8; 20], status: 0 };
    assert_eq!(check_acceptable(&job), Ok(()));
    assert_eq!(accept_outcome(Some(1)), Ok(()));

    let inputs = JobInputs { image_batch_data: vec![1u8; 1024], model_weights_data: vec![2u8; 2048] };
    let outputs = compute_outputs(&inputs);
    let mut chained_input = outputs.image_batch_hash.to_vec();
    chained_input.extend_from_slice(&outputs.model_weights_hash);
    let again = compute_outputs(&JobInputs { image_batch_data: chained_input, model_weights_data: vec![] });
    assert_eq!(outputs.computation_output_hash, again.image_batch_hash);

    let artifact = ProofArtifact {
        variant: ProofVariant::Groth16 { seal: vec![1, 2, 3, 4] },
        journal: vec![0u8; 384],
        claimed_method_id: method_id,
    };
    assert_eq!(verify_locally(&artifact, &method_id, true, &outputs), Ok(()));
    let sealed = resnet_hasher::receipt::extract_seal(artifact).unwrap();
    assert_eq!(sealed.seal, vec![1, 2, 3, 4]);

    let before = tokens(95);
    let receipt = SubmissionReceipt { transaction_hash: [4u8; 32], success: true, gas_used: 300_000 };
    assert_eq!(settlement_outcome(receipt), Ok(receipt));
    let after = tokens(105);
    assert_eq!(reconcile(&before, &after), Reconciliation::RewardReceived);
    assert_eq!(after.lo - before.lo, reward.lo);
    let job_after = OnChainJob { client: [1u8; 20], provider: [2u8; 20], status: 3 };
    assert_eq!(JobStatus::from_code(job_after.status), Some(JobStatus::Paid));
}
