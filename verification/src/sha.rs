//! SHA-256, computed by the VM's own hasher.
use vstd::prelude::*;
use crate::bytes::Bytes32;

verus! {

/// The SHA-256 digest of a byte string.
pub uninterp spec fn sha256(data: Seq<u8>) -> Bytes32;

/// Hashes `data` with `clvmr::sha2::Sha256` (`new`, one `update`, `finalize`).
/// The contract only names the digest: nothing about SHA-256 itself is proved.
#[verifier::external_body]
pub(crate) fn sha256_digest(data: &Vec<u8>) -> (r: Bytes32)
    ensures
        r == sha256(data@),
{
    let mut hasher = clvmr::sha2::Sha256::new();
    hasher.update(data);
    Bytes32 { bytes: hasher.finalize() }
}

} // verus!
