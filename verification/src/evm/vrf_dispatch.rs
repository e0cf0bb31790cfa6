//! VRF precompile dispatch (0x0101 `VRF_COMPUTE`, 0x0102 `VRF_VERIFY`):
//! decoding of calls and the checks made before the VRF itself runs.
//!
//! - `VRF_COMPUTE` takes `secret_key (32) ‖ seed (32)` and returns
//!   `random_value (32) ‖ proof`.
//! - `VRF_VERIFY` takes `public_key (33) ‖ seed (32) ‖ random_value (32) ‖ proof`
//!   and returns an ABI boolean.

use vstd::prelude::*;

use crate::word::{Address, B256, append_bytes, b256_from_subslice};

verus! {

/// The `VRF_COMPUTE` precompile address, `0x…0101`.
pub open spec fn vrf_compute_addr() -> Address {
    Address { bytes: [0u8, 0, 0, 0, 0, 0, 0, 0, 0, 0, 0, 0, 0, 0, 0, 0, 0, 0, 0x01, 0x01] }
}

/// The `VRF_VERIFY` precompile address, `0x…0102`.
pub open spec fn vrf_verify_addr() -> Address {
    Address { bytes: [0u8, 0, 0, 0, 0, 0, 0, 0, 0, 0, 0, 0, 0, 0, 0, 0, 0, 0, 0x01, 0x02] }
}

/// The `VRF_COMPUTE` precompile address.
pub fn vrf_compute_address() -> (r: Address)
    ensures
        r == vrf_compute_addr(),
{
    Address { bytes: [0u8, 0, 0, 0, 0, 0, 0, 0, 0, 0, 0, 0, 0, 0, 0, 0, 0, 0, 0x01, 0x01] }
}

/// The `VRF_VERIFY` precompile address.
pub fn vrf_verify_address() -> (r: Address)
    ensures
        r == vrf_verify_addr(),
{
    Address { bytes: [0u8, 0, 0, 0, 0, 0, 0, 0, 0, 0, 0, 0, 0, 0, 0, 0, 0, 0, 0x01, 0x02] }
}

/// What a `VRF_COMPUTE` call does.
#[derive(Debug, Clone, Copy)]
pub enum VrfComputePlan {
    /// The gas limit is below the call's cost.
    OutOfGas,
    /// The call reverts with a fixed message, charged the call's cost.
    Reverted {
        /// The revert message.
        message: &'static str,
    },
    /// The VRF runs on these inputs, charged the call's cost.
    Run {
        /// The secret key.
        secret_key: [u8; 32],
        /// The seed.
        seed: B256,
    },
}

/// What a `VRF_VERIFY` call does.
#[derive(Debug, Clone)]
pub enum VrfVerifyPlan {
    /// The gas limit is below the call's cost.
    OutOfGas,
    /// The call reverts with a fixed message, charged the call's cost.
    Reverted {
        /// The revert message.
        message: &'static str,
    },
    /// The proof is checked on these inputs, charged the call's cost.
    Run {
        /// The compressed public key.
        public_key: [u8; 33],
        /// The seed.
        seed: B256,
        /// The claimed random value.
        random_value: B256,
        /// The proof bytes.
        proof: Vec<u8>,
    },
}

/// Decides what a `VRF_COMPUTE` call does: the gas check, then an input of at
/// least 64 bytes.
pub fn vrf_compute_plan(data: &[u8], gas: u64, cost: u64) -> (r: VrfComputePlan)
    ensures
        gas < cost ==> r is OutOfGas,
        gas >= cost && data@.len() < 64 ==> (r matches VrfComputePlan::Reverted { message }
            && message@ == "input too short: need 64 bytes"@),
        gas >= cost && data@.len() >= 64 ==> (r matches VrfComputePlan::Run { secret_key, seed }
            && secret_key@ == data@.subrange(0, 32) && seed.bytes@ == data@.subrange(32, 64)),
{
    if gas < cost {
        return VrfComputePlan::OutOfGas;
    }
    if data.len() < 64 {
        return VrfComputePlan::Reverted { message: "input too short: need 64 bytes" };
    }
    let secret_key = b256_from_subslice(data, 0).bytes;
    let seed = b256_from_subslice(data, 32);
    VrfComputePlan::Run { secret_key, seed }
}

/// Decides what a `VRF_VERIFY` call does: the gas check, then an input of at
/// least 97 bytes, split into key, seed, value and proof.
pub fn vrf_verify_plan(data: &[u8], gas: u64, cost: u64) -> (r: VrfVerifyPlan)
    ensures
        gas < cost ==> r is OutOfGas,
        gas >= cost && data@.len() < 97 ==> (r matches VrfVerifyPlan::Reverted { message }
            && message@ == "input too short"@),
        gas >= cost && data@.len() >= 97 ==> (r matches VrfVerifyPlan::Run { public_key, seed, random_value, proof }
            && public_key@ == data@.subrange(0, 33) && seed.bytes@ == data@.subrange(33, 65)
            && random_value.bytes@ == data@.subrange(65, 97) && proof@ == data@.subrange(97, data@.len() as int)),
{
    if gas < cost {
        return VrfVerifyPlan::OutOfGas;
    }
    if data.len() < 97 {
        return VrfVerifyPlan::Reverted { message: "input too short" };
    }
    let mut public_key = [0u8; 33];
    let mut i: usize = 0;
    while i < 33
        invariant
            0 <= i <= 33,
            public_key@.len() == 33,
            data@.len() >= 97,
            forall|j: int| 0 <= j < i ==> public_key@[j] == data@[j],
        decreases 33 - i,
    {
        public_key[i] = data[i];
        i += 1;
    }
    assert(public_key@ =~= data@.subrange(0, 33));
    let seed = b256_from_subslice(data, 33);
    let random_value = b256_from_subslice(data, 65);
    let mut proof: Vec<u8> = Vec::new();
    append_bytes(&mut proof, vstd::slice::slice_subrange(data, 97, data.len()));
    VrfVerifyPlan::Run { public_key, seed, random_value, proof }
}

/// The output of a `VRF_COMPUTE` call: the random value, then the proof.
pub fn vrf_compute_output(random_value: &B256, proof: &[u8]) -> (r: Vec<u8>)
    ensures
        r@ == random_value.bytes@ + proof@,
{
    let mut out: Vec<u8> = Vec::new();
    append_bytes(&mut out, &random_value.bytes);
    append_bytes(&mut out, proof);
    out
}

} // verus!
