//! Oracle price snapshot types, and the per-asset map they are built on.

use std::collections::BTreeMap;
use vstd::prelude::*;

use crate::primitives::asset::{AssetId, all_assets, asset_of_code};
use crate::primitives::confidence::Confidence;
use crate::word::U256;

verus! {

/// Per-asset state held by the oracle.
#[derive(Debug, Clone, Copy, PartialEq, Eq, Structural)]
pub enum AssetState {
    /// Price data is available.
    Available {
        /// 8-decimal USD price.
        price: U256,
        /// Unix timestamp (seconds).
        timestamp: u64,
        /// Data quality confidence level.
        confidence: Confidence,
    },
    /// All sources down, no current price data.
    Unavailable,
}

/// A single entry in a block's price snapshot.
#[derive(Debug, Clone, Copy, PartialEq, Eq, Structural)]
pub enum SnapshotEntry {
    /// New price data.
    Updated {
        /// 8-decimal USD price.
        price: U256,
        /// Unix timestamp (seconds).
        timestamp: u64,
        /// Data quality confidence level.
        confidence: Confidence,
    },
    /// Asset is unavailable this block.
    Unavailable,
}

/// The number of present values in a sequence of optional values.
pub open spec fn count_present<V>(s: Seq<Option<V>>) -> nat
    decreases s.len(),
{
    if s.len() == 0 {
        0
    } else {
        count_present(s.drop_last()) + if s.last() is Some {
            1nat
        } else {
            0nat
        }
    }
}

/// A map keyed by supported asset: an ordered map keyed by the asset code, so
/// that it is walked in asset-code order.
#[derive(Debug, Clone)]
pub struct AssetMap<V> {
    entries: BTreeMap<u8, V>,
}

impl<V> AssetMap<V> {
    /// The map's contents.
    pub closed spec fn view(&self) -> Map<AssetId, V> {
        Map::new(
            |a: AssetId| self.entries@.contains_key(a.code()),
            |a: AssetId| self.entries@[a.code()],
        )
    }

    /// The map's contents by slot: slot `i` holds the value of the asset with
    /// code `i + 1`, if present.
    pub open spec fn slots(&self) -> Seq<Option<V>> {
        Seq::new(
            6,
            |i: int|
                if self.view().contains_key(asset_of_code((i + 1) as u8)->0) {
                    Some(self.view()[asset_of_code((i + 1) as u8)->0])
                } else {
                    None
                },
        )
    }

    /// Creates an empty map.
    pub fn new() -> (r: AssetMap<V>)
        ensures
            r.view() == Map::<AssetId, V>::empty(),
    {
        let r = AssetMap { entries: BTreeMap::new() };
        assert(r.view() =~= Map::<AssetId, V>::empty());
        r
    }

    /// Inserts or replaces the value of an asset.
    pub fn insert(&mut self, asset: AssetId, value: V)
        ensures
            final(self).view() == old(self).view().insert(asset, value),
    {
        broadcast use vstd::laws_cmp::group_laws_cmp;

        self.entries.insert(asset.as_u8(), value);
        proof {
            lemma_codes_distinct();
        }
        assert(self.view() =~= old(self).view().insert(asset, value));
    }

    /// The value of an asset, if present.
    pub fn get(&self, asset: AssetId) -> (r: Option<&V>)
        ensures
            r is Some == self.view().contains_key(asset),
            r is Some ==> *r->0 == self.view()[asset],
    {
        broadcast use vstd::laws_cmp::group_laws_cmp;

        let code = asset.as_u8();
        self.entries.get(&code)
    }

    /// Whether an asset is present.
    pub fn contains_key(&self, asset: AssetId) -> (r: bool)
        ensures
            r == self.view().contains_key(asset),
    {
        broadcast use vstd::laws_cmp::group_laws_cmp;

        let code = asset.as_u8();
        self.entries.contains_key(&code)
    }

    /// The number of assets present.
    pub fn len(&self) -> (r: usize)
        ensures
            r == count_present(self.slots()),
            r <= 6,
    {
        let assets = AssetId::all();
        let mut n: usize = 0;
        let mut i: usize = 0;
        while i < 6
            invariant
                0 <= i <= 6,
                assets@ == all_assets(),
                n == count_present(self.slots().subrange(0, i as int)),
                n <= i,
            decreases 6 - i,
        {
            proof {
                lemma_asset_slot(i as int);
            }
            assert(self.slots().subrange(0, i + 1).drop_last() =~= self.slots().subrange(0, i as int));
            if self.contains_key(assets[i]) {
                n += 1;
            }
            i += 1;
        }
        assert(self.slots().subrange(0, 6) =~= self.slots());
        n
    }
}

impl<V: Copy> AssetMap<V> {
    /// A map holding the same value for every supported asset.
    pub fn filled(value: V) -> (r: AssetMap<V>)
        ensures
            forall|a: AssetId| #[trigger] r.view().contains_key(a) && r.view()[a] == value,
    {
        let assets = AssetId::all();
        let mut r: AssetMap<V> = AssetMap::new();
        let mut i: usize = 0;
        while i < 6
            invariant
                0 <= i <= 6,
                assets@ == all_assets(),
                forall|a: AssetId| #[trigger] r.view().contains_key(a) <==> a.code() <= i,
                forall|a: AssetId| #[trigger] r.view().contains_key(a) ==> r.view()[a] == value,
            decreases 6 - i,
        {
            proof {
                lemma_asset_slot(i as int);
            }
            r.insert(assets[i], value);
            proof {
                assert forall|a: AssetId| #[trigger] r.view().contains_key(a) <==> a.code() <= i + 1 by {
                    if a.code() == i + 1 {
                        lemma_codes_distinct();
                        assert(a.code() == assets[i as int].code());
                    }
                }
            }
            i += 1;
        }
        proof {
            assert forall|a: AssetId| #[trigger] r.view().contains_key(a) by {
                assert(a.code() <= 6);
            }
        }
        r
    }
}

/// Distinct assets have distinct codes.
proof fn lemma_codes_distinct()
    ensures
        forall|a: AssetId, b: AssetId| #[trigger] a.code() == #[trigger] b.code() ==> a == b,
{
}

/// Every asset sits in the slot just below its code, and every slot belongs to an asset.
pub proof fn lemma_asset_slot(i: int)
    requires
        0 <= i < 6,
    ensures
        asset_of_code((i + 1) as u8) is Some,
        asset_of_code((i + 1) as u8)->0.code() - 1 == i,
        all_assets()[i] == asset_of_code((i + 1) as u8)->0,
{
}

/// A map holding a value for every supported asset has six entries.
pub proof fn lemma_full_map_len<V>(m: AssetMap<V>)
    requires
        forall|a: AssetId| #[trigger] m.view().contains_key(a),
    ensures
        count_present(m.slots()) == 6,
{
    assert(m.view().contains_key(AssetId::BTC));
    assert(m.view().contains_key(AssetId::ETH));
    assert(m.view().contains_key(AssetId::SOL));
    assert(m.view().contains_key(AssetId::USDC));
    assert(m.view().contains_key(AssetId::USDT));
    assert(m.view().contains_key(AssetId::DAI));
    reveal_with_fuel(count_present, 7);
}

/// A block-level price snapshot included in the `OracleUpdate` system transaction.
#[derive(Debug, Clone)]
pub struct PriceSnapshot {
    /// Per-asset entries. Must contain all supported assets.
    pub entries: AssetMap<SnapshotEntry>,
    /// Oracle engine version.
    pub engine_version: u16,
}

impl PriceSnapshot {
    /// Creates a snapshot where all assets are unavailable.
    pub fn all_unavailable(engine_version: u16) -> (r: PriceSnapshot)
        ensures
            r.engine_version == engine_version,
            forall|a: AssetId| #[trigger] r.entries.view().contains_key(a)
                && r.entries.view()[a] == SnapshotEntry::Unavailable,
    {
        let entries: AssetMap<SnapshotEntry> = AssetMap::filled(SnapshotEntry::Unavailable);
        assert forall|a: AssetId| #[trigger] entries.view().contains_key(a) implies entries.view()[a]
            == SnapshotEntry::Unavailable by {
            assert(entries.view().contains_key(a));
        }
        PriceSnapshot { entries, engine_version }
    }
}

} // verus!
