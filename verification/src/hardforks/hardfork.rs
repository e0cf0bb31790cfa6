//! Pachi Chain protocol upgrades.

use vstd::prelude::*;

verus! {

/// Pachi Chain protocol upgrades.
#[derive(Debug, Clone, Copy, PartialEq, Eq, Structural, Hash)]
pub enum PachiHardfork {
    /// Phase 1: Testnet (single sequencer, all features active).
    Phase1,
    /// Phase 2: Mainnet (multi-sequencer with IBFT2, threshold VRF, slashing).
    Phase2,
}

impl PachiHardfork {
    /// The hardfork's name, as displayed.
    pub fn name(&self) -> (r: &'static str)
        ensures
            r@ == match self {
                PachiHardfork::Phase1 => "Phase1"@,
                PachiHardfork::Phase2 => "Phase2"@,
            },
    {
        match self {
            PachiHardfork::Phase1 => "Phase1",
            PachiHardfork::Phase2 => "Phase2",
        }
    }

    /// All hardforks, in activation order.
    pub fn all() -> (r: [PachiHardfork; 2])
        ensures
            r@ == seq![PachiHardfork::Phase1, PachiHardfork::Phase2],
    {
        let r = [PachiHardfork::Phase1, PachiHardfork::Phase2];
        assert(r@ =~= seq![PachiHardfork::Phase1, PachiHardfork::Phase2]);
        r
    }
}

} // verus!
