//! Keccak-256, computed by `alloy_primitives`.

use vstd::prelude::*;

use crate::word::B256;

verus! {

/// The Keccak-256 digest of a byte string.
pub uninterp spec fn keccak256_spec(data: Seq<u8>) -> Seq<u8>;

/// `alloy_primitives::keccak256`: the result is the Keccak-256 digest of `data`,
/// a function of `data` alone.
#[verifier::external_body]
pub(crate) fn keccak256(data: &[u8]) -> (r: B256)
    ensures
        r.bytes@ == keccak256_spec(data@),
{
    B256 { bytes: alloy_primitives::keccak256(data).0 }
}

} // verus!
