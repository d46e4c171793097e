//! The job registry as this client sees it: the create-job payload, the
//! job-creation event, and the checks made before claiming a job.

use vstd::prelude::*;
use crate::digest::bytes_equal;
use crate::ledger::LogEntry;
use crate::word::{be_value, pow256, Word256};

verus! {

/// Seconds in a day: the default time a requester gives a provider.
pub const ONE_DAY_IN_SECONDS: u64 = 86_400;

/// Why a job could not be registered or claimed.
#[derive(Debug, Clone, Copy, PartialEq, Eq, Structural)]
pub enum JobError {
    /// No job-creation event was found in the creation receipt.
    JobIdNotFound,
    /// Another provider already holds the job.
    JobAlreadyClaimed,
    /// The job is not waiting to be claimed.
    JobNotAcceptable,
    /// The acceptance transaction was mined and reverted.
    AcceptRejected,
}

/// The stages of a job on the registry, in the registry's numbering.
#[derive(Debug, Clone, Copy, PartialEq, Eq, Structural)]
pub enum JobStatus {
    Created,
    Accepted,
    Proven,
    Paid,
    Expired,
}

pub open spec fn status_code(s: JobStatus) -> u8 {
    match s {
        JobStatus::Created => 0,
        JobStatus::Accepted => 1,
        JobStatus::Proven => 2,
        JobStatus::Paid => 3,
        JobStatus::Expired => 4,
    }
}

impl JobStatus {
    /// The status that a registry code stands for, if any.
    pub fn from_code(code: u8) -> (r: Option<JobStatus>)
        ensures
            match r {
                Some(s) => status_code(s) == code,
                None => code > 4,
            },
    {
        match code {
            0 => Some(JobStatus::Created),
            1 => Some(JobStatus::Accepted),
            2 => Some(JobStatus::Proven),
            3 => Some(JobStatus::Paid),
            4 => Some(JobStatus::Expired),
            _ => None,
        }
    }
}

/// A job as read from the registry just before claiming it. The address of
/// nobody is twenty zero bytes.
#[derive(Debug, Clone, Copy)]
pub struct OnChainJob {
    pub client: [u8; 20],
    pub provider: [u8; 20],
    pub status: u8,
}

/// The arguments of a create-job call, in the registry's order.
#[derive(Debug, Clone)]
pub struct CreateJobRequest {
    pub content_id: String,
    pub reward: Word256,
    pub deadline: Word256,
    pub method_commitment: [u8; 32],
}

pub open spec fn is_zero_address(a: Seq<u8>) -> bool {
    forall|k: int| 0 <= k < a.len() ==> a[k] == 0u8
}

/// Byte `j` (least significant first) of a 32-bit word.
pub open spec fn le_byte(w: u32, j: nat) -> u8 {
    ((w as nat / pow256(j)) % 256) as u8
}

/// Words laid out as consecutive little-endian bytes.
pub open spec fn words_le_bytes(words: Seq<u32>) -> Seq<u8> {
    Seq::new(4 * words.len(), |k: int| le_byte(words[k / 4], (k % 4) as nat))
}

/// The 32-byte commitment to a method identifier of eight words: each word in
/// little-endian byte order.
pub fn method_id_to_bytes_array(method_id: &[u32; 8]) -> (r: [u8; 32])
    ensures
        r@ == words_le_bytes(method_id@),
{
    proof {
        reveal_with_fuel(pow256, 4);
    }
    let mut bytes = [0u8; 32];
    let mut i: usize = 0;
    while i < 8
        invariant
            i <= 8,
            method_id@.len() == 8,
            bytes@.len() == 32,
            pow256(1) == 256 && pow256(2) == 65536 && pow256(3) == 16777216,
            forall|k: int| 0 <= k < 4 * i ==> bytes@[k] == le_byte(method_id@[k / 4], (k % 4) as nat),
        decreases 8 - i,
    {
        let w = method_id[i];
        bytes.set(4 * i, (w % 256) as u8);
        bytes.set(4 * i + 1, ((w / 256) % 256) as u8);
        bytes.set(4 * i + 2, ((w / 65536) % 256) as u8);
        bytes.set(4 * i + 3, ((w / 16777216) % 256) as u8);
        proof {
            assert(pow256(0) == 1);
            assert(bytes@[4 * i] == le_byte(w, 0));
            assert(bytes@[4 * i + 1] == le_byte(w, 1));
            assert(bytes@[4 * i + 2] == le_byte(w, 2));
            assert(bytes@[4 * i + 3] == le_byte(w, 3));
            assert forall|k: int| 4 * i <= k < 4 * i + 4 implies bytes@[k] == le_byte(
                method_id@[k / 4],
                (k % 4) as nat,
            ) by {
                assert(k / 4 == i as int);
                assert(k % 4 == k - 4 * i);
            }
        }
        i = i + 1;
    }
    assert(bytes@ =~= words_le_bytes(method_id@));
    bytes
}

/// A deadline a given number of seconds after `now`.
pub fn deadline_after(now: u64, seconds: u64) -> (r: Word256)
    ensures
        r.value() == now + seconds,
{
    Word256::from_u128(now as u128 + seconds as u128)
}

/// Assembles a create-job call. Any deadline is accepted here, the current
/// time included: the registry checks deadlines when a job is claimed or
/// settled, not when it is created.
pub fn create_job_request(
    content_id: String,
    reward: Word256,
    deadline: Word256,
    method_id: &[u32; 8],
) -> (r: CreateJobRequest)
    ensures
        r.content_id@ == content_id@,
        r.reward == reward,
        r.deadline == deadline,
        r.method_commitment@ == words_le_bytes(method_id@),
{
    CreateJobRequest {
        content_id,
        reward,
        deadline,
        method_commitment: method_id_to_bytes_array(method_id),
    }
}

/// A log announces the creation of a job: the registry emitted it, its first
/// topic is the creation event's signature, and a second topic carries the id.
pub open spec fn announces_job(log: LogEntry, registry: Seq<u8>, signature: Seq<u8>) -> bool {
    &&& log.address@ == registry
    &&& log.topics@.len() > 1
    &&& log.topics@[0]@ == signature
}

/// The id topic of the first log that announces a job.
pub open spec fn first_job_topic(logs: Seq<LogEntry>, registry: Seq<u8>, signature: Seq<u8>) -> Option<Seq<u8>>
    decreases logs.len(),
{
    if logs.len() == 0 {
        None
    } else if announces_job(logs[0], registry, signature) {
        Some(logs[0].topics@[1]@)
    } else {
        first_job_topic(logs.drop_first(), registry, signature)
    }
}

/// Finds the id of the job created by a transaction among its logs: the
/// second topic of the first log that announces a job, read big-endian.
pub fn find_job_id(logs: &Vec<LogEntry>, registry: &[u8; 20], signature: &[u8; 32]) -> (r: Result<
    Word256,
    JobError,
>)
    ensures
        match first_job_topic(logs@, registry@, signature@) {
            Some(t) => r is Ok && r->Ok_0.value() == be_value(t),
            None => r == Err::<Word256, JobError>(JobError::JobIdNotFound),
        },
{
    let mut i: usize = 0;
    assert(logs@.skip(0) =~= logs@);
    while i < logs.len()
        invariant
            i <= logs@.len(),
            first_job_topic(logs@, registry@, signature@) == first_job_topic(
                logs@.skip(i as int),
                registry@,
                signature@,
            ),
        decreases logs@.len() - i,
    {
        let log = &logs[i];
        proof {
            assert(logs@.skip(i as int)[0] == logs@[i as int]);
            assert(logs@.skip(i as int).drop_first() =~= logs@.skip(i + 1));
        }
        if log.topics.len() > 1 && bytes_equal(&log.address, registry) && bytes_equal(
            &log.topics[0],
            signature,
        ) {
            return Ok(Word256::from_be_bytes(&log.topics[1]));
        }
        i = i + 1;
    }
    Err(JobError::JobIdNotFound)
}

/// What the registry's current record of a job says about claiming it.
pub open spec fn acceptance_check(job: OnChainJob) -> Result<(), JobError> {
    if !is_zero_address(job.provider@) {
        Err(JobError::JobAlreadyClaimed)
    } else if job.status != status_code(JobStatus::Created) {
        Err(JobError::JobNotAcceptable)
    } else {
        Ok(())
    }
}

/// Checks a freshly read job before claiming it: it must have no provider
/// yet and still be in the created stage.
pub fn check_acceptable(job: &OnChainJob) -> (r: Result<(), JobError>)
    ensures
        r == acceptance_check(*job),
{
    let mut i: usize = 0;
    while i < 20
        invariant
            i <= 20,
            job.provider@.len() == 20,
            forall|k: int| 0 <= k < i ==> job.provider@[k] == 0u8,
        decreases 20 - i,
    {
        if job.provider[i] != 0 {
            return Err(JobError::JobAlreadyClaimed);
        }
        i = i + 1;
    }
    if job.status != 0 {
        return Err(JobError::JobNotAcceptable);
    }
    Ok(())
}

/// The outcome of a mined acceptance transaction.
pub fn accept_outcome(status: Option<u64>) -> (r: Result<(), JobError>)
    ensures
        r == (if status == Some(1u64) {
            Ok::<(), JobError>(())
        } else {
            Err(JobError::AcceptRejected)
        }),
{
    if crate::ledger::tx_succeeded(status) {
        Ok(())
    } else {
        Err(JobError::AcceptRejected)
    }
}

/// A job that some provider already holds can never be claimed again: the
/// check fails with `JobAlreadyClaimed`, whatever its status says.
pub proof fn lemma_claimed_job_rejected(job: OnChainJob)
    requires
        !is_zero_address(job.provider@),
    ensures
        acceptance_check(job) == Err::<(), JobError>(JobError::JobAlreadyClaimed),
{
}

} // verus!
