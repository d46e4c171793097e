//! Proof artifacts: local verification before release, and reduction to the
//! seal and journal commitment that the ledger's verifier checks.

use vstd::prelude::*;
use crate::digest::{keccak256, keccak256_of};
use crate::guest::{outputs_consistent, outputs_well_formed, JobOutputs};

verus! {

/// The form of the proof that the prover produced. Only the SNARK-wrapped
/// form carries a seal that the ledger can verify.
#[derive(Debug, Clone)]
pub enum ProofVariant {
    Composite,
    Succinct,
    Groth16 { seal: Vec<u8> },
    Fake,
}

/// A proof as produced for one job: its form, the committed journal bytes,
/// and the method identifier the proof claims to be about.
#[derive(Debug, Clone)]
pub struct ProofArtifact {
    pub variant: ProofVariant,
    pub journal: Vec<u8>,
    pub claimed_method_id: [u32; 8],
}

/// What the ledger's verifier needs: the seal, and the hash of the journal.
#[derive(Debug, Clone)]
pub struct SealedProof {
    pub seal: Vec<u8>,
    pub journal_commitment: [u8; 32],
}

/// Why no proof could be released.
#[derive(Debug, Clone, Copy, PartialEq, Eq, Structural)]
pub enum ProofError {
    /// The prover produced no proof.
    ProvingFailed,
    /// The proof did not pass the local check.
    LocalVerificationFailed,
}

/// Why no seal could be extracted.
#[derive(Debug, Clone, Copy, PartialEq, Eq, Structural)]
pub enum SealError {
    /// The proof is not in the SNARK-wrapped form.
    UnexpectedProofVariant,
}

pub open spec fn passes_local_check(
    claimed: Seq<u32>,
    expected: Seq<u32>,
    receipt_verified: bool,
    outputs: JobOutputs,
) -> bool {
    &&& claimed == expected
    &&& receipt_verified
    &&& outputs_well_formed(outputs)
}

/// The local check made right after proving: the proof must be about the
/// expected method, the proof system must have accepted the receipt, and the
/// decoded outputs must hash together as the computation does.
pub fn verify_locally(
    artifact: &ProofArtifact,
    expected_method_id: &[u32; 8],
    receipt_verified: bool,
    outputs: &JobOutputs,
) -> (r: Result<(), ProofError>)
    ensures
        r is Ok <==> passes_local_check(
            artifact.claimed_method_id@,
            expected_method_id@,
            receipt_verified,
            *outputs,
        ),
        r is Err ==> r == Err::<(), ProofError>(ProofError::LocalVerificationFailed),
{
    let mut i: usize = 0;
    while i < 8
        invariant
            i <= 8,
            artifact.claimed_method_id@.len() == 8,
            expected_method_id@.len() == 8,
            forall|k: int| 0 <= k < i ==> artifact.claimed_method_id@[k] == expected_method_id@[k],
        decreases 8 - i,
    {
        if artifact.claimed_method_id[i] != expected_method_id[i] {
            return Err(ProofError::LocalVerificationFailed);
        }
        i = i + 1;
    }
    assert(artifact.claimed_method_id@ =~= expected_method_id@);
    if !receipt_verified || !outputs_consistent(outputs) {
        return Err(ProofError::LocalVerificationFailed);
    }
    Ok(())
}

/// Reduces a proof to its seal and the Keccak-256 commitment of its journal.
/// Only the SNARK-wrapped form has a seal the ledger can check.
pub fn extract_seal(artifact: ProofArtifact) -> (r: Result<SealedProof, SealError>)
    ensures
        match artifact.variant {
            ProofVariant::Groth16 { seal } => r is Ok && r->Ok_0.seal@ == seal@
                && r->Ok_0.journal_commitment@ == keccak256_of(artifact.journal@),
            _ => r == Err::<SealedProof, SealError>(SealError::UnexpectedProofVariant),
        },
{
    match artifact.variant {
        ProofVariant::Groth16 { seal } => {
            let journal_commitment = keccak256(artifact.journal.as_slice());
            Ok(SealedProof { seal, journal_commitment })
        },
        _ => Err(SealError::UnexpectedProofVariant),
    }
}

/// A proof about any other method than the expected one never passes the
/// local check, whatever the proof system and the outputs say.
pub proof fn lemma_wrong_method_rejected(
    claimed: Seq<u32>,
    expected: Seq<u32>,
    receipt_verified: bool,
    outputs: JobOutputs,
)
    requires
        claimed != expected,
    ensures
        !passes_local_check(claimed, expected, receipt_verified, outputs),
{
}

} // verus!
