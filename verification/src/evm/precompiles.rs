//! The Pachi precompiles and where they are registered: five addresses next
//! to the Ethereum ones, each with its id.

use vstd::prelude::*;

use crate::evm::vrf_dispatch::{vrf_compute_addr, vrf_compute_address, vrf_verify_addr, vrf_verify_address};
use crate::oracle_precompile::storage::{oracle_address, oracle_precompile_address};
use crate::pool::validator::{sponsor_hub_address, sponsor_hub_precompile_address};
use crate::session::storage_keys::{registry_address, session_registry_address};
use crate::word::Address;

verus! {

/// One Pachi precompile: the address it answers at and its id.
#[derive(Debug, Clone, Copy)]
pub struct PachiPrecompile {
    pub address: Address,
    pub id: &'static str,
}

/// The Pachi precompiles in registration order: VRF compute (`0x0101`), VRF
/// verify (`0x0102`), session registry (`0x0800`), sponsor hub (`0x0801`)
/// and price oracle (`0x0802`).
pub open spec fn pachi_precompile_table() -> Seq<(Address, Seq<char>)> {
    seq![
        (vrf_compute_addr(), "pachi-vrf-compute"@),
        (vrf_verify_addr(), "pachi-vrf-verify"@),
        (registry_address(), "pachi-session-registry"@),
        (sponsor_hub_address(), "pachi-sponsor-hub"@),
        (oracle_address(), "pachi-price-oracle"@),
    ]
}

/// Returns the five Pachi precompile entries, to be registered next to the
/// Ethereum precompiles.
pub fn pachi_custom_precompiles() -> (r: Vec<PachiPrecompile>)
    ensures
        r@.len() == pachi_precompile_table().len(),
        forall|i: int|
            0 <= i < r@.len() ==> (#[trigger] r@[i]).address == pachi_precompile_table()[i].0
                && r@[i].id@ == pachi_precompile_table()[i].1,
{
    let mut r: Vec<PachiPrecompile> = Vec::new();
    r.push(PachiPrecompile { address: vrf_compute_address(), id: "pachi-vrf-compute" });
    r.push(PachiPrecompile { address: vrf_verify_address(), id: "pachi-vrf-verify" });
    r.push(PachiPrecompile { address: session_registry_address(), id: "pachi-session-registry" });
    r.push(PachiPrecompile { address: sponsor_hub_precompile_address(), id: "pachi-sponsor-hub" });
    r.push(PachiPrecompile { address: oracle_precompile_address(), id: "pachi-price-oracle" });
    r
}

/// The EVM factory that creates EVM instances with all Pachi precompiles
/// registered next to the standard Ethereum ones.
#[derive(Debug, Clone, Copy)]
#[non_exhaustive]
pub struct PachiEvmFactory;

impl Default for PachiEvmFactory {
    fn default() -> (r: PachiEvmFactory)
        ensures
            r == PachiEvmFactory,
    {
        PachiEvmFactory
    }
}

} // verus!
