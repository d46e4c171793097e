//! The proven computation: a fixed hash pipeline over an image batch and a
//! set of model weights.

use vstd::prelude::*;
use crate::digest::{bytes_equal, sha256, sha256_of};

verus! {

/// What the requester hands to the computation.
#[derive(Debug, Clone)]
pub struct JobInputs {
    pub image_batch_data: Vec<u8>,
    pub model_weights_data: Vec<u8>,
}

/// What the computation commits to publicly.
#[derive(Debug, Clone, PartialEq, Eq)]
pub struct JobOutputs {
    pub image_batch_hash: [u8; 32],
    pub model_weights_hash: [u8; 32],
    pub computation_output_hash: [u8; 32],
}

/// `Hash(a || b)`.
pub open spec fn hash_pair(a: Seq<u8>, b: Seq<u8>) -> Seq<u8> {
    sha256_of(a + b)
}

/// `Hash(Hash(image) || Hash(weights))`.
pub open spec fn chained_hash(image: Seq<u8>, weights: Seq<u8>) -> Seq<u8> {
    hash_pair(sha256_of(image), sha256_of(weights))
}

/// The committed hashes are tied together: the output hash is the hash of the
/// two input hashes, concatenated.
pub open spec fn outputs_well_formed(o: JobOutputs) -> bool {
    o.computation_output_hash@ == hash_pair(o.image_batch_hash@, o.model_weights_hash@)
}

/// The outputs that the computation commits for given inputs.
pub open spec fn expected_outputs(image: Seq<u8>, weights: Seq<u8>, o: JobOutputs) -> bool {
    &&& o.image_batch_hash@ == sha256_of(image)
    &&& o.model_weights_hash@ == sha256_of(weights)
    &&& o.computation_output_hash@ == chained_hash(image, weights)
}

fn concat_digests(a: &[u8; 32], b: &[u8; 32]) -> (r: Vec<u8>)
    ensures
        r@ == a@ + b@,
{
    let mut out: Vec<u8> = Vec::new();
    let mut i: usize = 0;
    while i < 32
        invariant
            i <= 32,
            a@.len() == 32,
            out@ == a@.subrange(0, i as int),
        decreases 32 - i,
    {
        out.push(a[i]);
        i = i + 1;
        assert(out@ =~= a@.subrange(0, i as int));
    }
    let mut j: usize = 0;
    while j < 32
        invariant
            j <= 32,
            a@.len() == 32,
            b@.len() == 32,
            out@ == a@ + b@.subrange(0, j as int),
        decreases 32 - j,
    {
        out.push(b[j]);
        j = j + 1;
        assert(out@ =~= a@ + b@.subrange(0, j as int));
    }
    assert(b@.subrange(0, 32) =~= b@);
    out
}

/// Runs the hash pipeline: hash the image batch, hash the weights, then hash
/// the two digests concatenated.
pub fn compute_outputs(inputs: &JobInputs) -> (r: JobOutputs)
    ensures
        expected_outputs(inputs.image_batch_data@, inputs.model_weights_data@, r),
        outputs_well_formed(r),
{
    let image_batch_hash = sha256(inputs.image_batch_data.as_slice());
    let model_weights_hash = sha256(inputs.model_weights_data.as_slice());
    let combined = concat_digests(&image_batch_hash, &model_weights_hash);
    let computation_output_hash = sha256(combined.as_slice());
    JobOutputs { image_batch_hash, model_weights_hash, computation_output_hash }
}

/// Whether committed outputs are internally consistent: catches a prover or
/// guest build that does not match this pipeline.
pub fn outputs_consistent(outputs: &JobOutputs) -> (r: bool)
    ensures
        r == outputs_well_formed(*outputs),
{
    let combined = concat_digests(&outputs.image_batch_hash, &outputs.model_weights_hash);
    let expected = sha256(combined.as_slice());
    bytes_equal(&expected, &outputs.computation_output_hash)
}

/// For every image batch and every set of weights, the committed output hash
/// is `Hash(Hash(image) || Hash(weights))`, and outputs computed from equal
/// inputs are equal, whatever the run.
pub proof fn lemma_output_hash_chain(image: Seq<u8>, weights: Seq<u8>, o1: JobOutputs, o2: JobOutputs)
    requires
        expected_outputs(image, weights, o1),
        expected_outputs(image, weights, o2),
    ensures
        o1.computation_output_hash@ == sha256_of(sha256_of(image) + sha256_of(weights)),
        outputs_well_formed(o1),
        o1.image_batch_hash@ == o2.image_batch_hash@,
        o1.model_weights_hash@ == o2.model_weights_hash@,
        o1.computation_output_hash@ == o2.computation_output_hash@,
{
}

} // verus!
