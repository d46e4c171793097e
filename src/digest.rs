//! The two hash functions the protocol depends on, taken from the proof
//! system and from the ledger client.

use vstd::prelude::*;

verus! {

/// SHA-256 of a byte string, as the proof system computes it.
pub uninterp spec fn sha256_of(data: Seq<u8>) -> Seq<u8>;

/// Keccak-256 of a byte string, the ledger's native hash.
pub uninterp spec fn keccak256_of(data: Seq<u8>) -> Seq<u8>;

/// Relies on `risc0_zkvm::sha::Impl::hash_bytes`: the SHA-256 digest of
/// `data`, turned into its 32 bytes.
#[verifier::external_body]
pub(crate) fn sha256(data: &[u8]) -> (r: [u8; 32])
    ensures
        r@ == sha256_of(data@),
{
    let digest = <risc0_zkvm::sha::Impl as risc0_zkvm::sha::Sha256>::hash_bytes(data);
    (*digest).into()
}

/// Relies on `ethers::utils::keccak256`: the Keccak-256 digest of `data`.
#[verifier::external_body]
pub(crate) fn keccak256(data: &[u8]) -> (r: [u8; 32])
    ensures
        r@ == keccak256_of(data@),
{
    ethers::utils::keccak256(data)
}

/// Whether two byte arrays of the same length hold the same bytes.
pub fn bytes_equal<const N: usize>(a: &[u8; N], b: &[u8; N]) -> (r: bool)
    ensures
        r == (a@ == b@),
{
    let mut i: usize = 0;
    while i < N
        invariant
            i <= N,
            a@.len() == N,
            b@.len() == N,
            forall|k: int| 0 <= k < i ==> a@[k] == b@[k],
        decreases N - i,
    {
        if a[i] != b[i] {
            return false;
        }
        i = i + 1;
    }
    assert(a@ =~= b@);
    true
}

} // verus!
