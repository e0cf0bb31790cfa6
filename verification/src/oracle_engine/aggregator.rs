//! Deterministic price aggregation.
//!
//! Steps: staleness filter, active source count check, outlier trim, median,
//! spread-based confidence.

use std::collections::HashMap;
use vstd::prelude::*;

use crate::oracle_engine::source::PriceUpdate;
use crate::primitives::asset::{AssetId, all_assets};
use crate::primitives::confidence::Confidence;
use crate::primitives::constants::{MIN_ACTIVE_SOURCES, SPREAD_HIGH_BPS, SPREAD_MEDIUM_BPS, STALENESS_THRESHOLD};
use crate::primitives::snapshot::{AssetMap, AssetState, lemma_asset_slot};
use crate::word::{U256, basis_points_exceed, lemma_word_of, word_of};

verus! {

broadcast use vstd::std_specs::hash::group_hash_axioms;

/// The latest price a source reported for an asset.
#[derive(Debug, Clone, Copy)]
pub struct SourcePrice {
    /// Price in 8-decimal USD representation.
    pub price: U256,
    /// Unix timestamp of the observation (seconds).
    pub timestamp: u64,
}

/// The table key of an (asset, source) pair: `asset code * 256 + source`.
pub open spec fn source_key(asset: AssetId, source: u8) -> u16 {
    (asset.code() * 256 + source) as u16
}

/// Whether an observation at `timestamp` is fresh at `now`:
/// `now.saturating_sub(timestamp) <= STALENESS_THRESHOLD`.
pub open spec fn is_fresh(now: u64, timestamp: u64) -> bool {
    (if now >= timestamp {
        now - timestamp
    } else {
        0
    }) <= STALENESS_THRESHOLD
}

/// The fresh entry of a source for an asset, if any.
pub open spec fn fresh_entry(m: Map<(AssetId, u8), SourcePrice>, asset: AssetId, now: u64, source: u8) -> Option<SourcePrice> {
    if m.contains_key((asset, source)) && is_fresh(now, m[(asset, source)].timestamp) {
        Some(m[(asset, source)])
    } else {
        None
    }
}

/// The fresh prices of an asset from the first `n` sources, in source order.
pub open spec fn fresh_prices_upto(m: Map<(AssetId, u8), SourcePrice>, asset: AssetId, now: u64, n: nat) -> Seq<U256>
    decreases n,
{
    if n == 0 {
        Seq::empty()
    } else {
        let before = fresh_prices_upto(m, asset, now, (n - 1) as nat);
        match fresh_entry(m, asset, now, (n - 1) as u8) {
            Some(sp) => before.push(sp.price),
            None => before,
        }
    }
}

/// The latest fresh timestamp of an asset among the first `n` sources (0 when none).
pub open spec fn latest_fresh_upto(m: Map<(AssetId, u8), SourcePrice>, asset: AssetId, now: u64, n: nat) -> u64
    decreases n,
{
    if n == 0 {
        0
    } else {
        let before = latest_fresh_upto(m, asset, now, (n - 1) as nat);
        match fresh_entry(m, asset, now, (n - 1) as u8) {
            Some(sp) => if sp.timestamp > before {
                sp.timestamp
            } else {
                before
            },
            None => before,
        }
    }
}

/// The fresh prices of an asset from all five sources.
pub open spec fn fresh_prices(m: Map<(AssetId, u8), SourcePrice>, asset: AssetId, now: u64) -> Seq<U256> {
    fresh_prices_upto(m, asset, now, 5)
}

/// The numbers that a sequence of words denotes.
pub open spec fn price_values(s: Seq<U256>) -> Seq<int> {
    s.map_values(|p: U256| p@ as int)
}

/// The spread in basis points, rounded down: `(hi - lo) * 10000 / median`.
pub open spec fn spread_bps(lo: int, hi: int, median: int) -> int {
    ((hi - lo) * 10000) / median
}

/// Confidence from the spread: High within 10 bps, Medium within 50 bps,
/// Degraded beyond, or when the median is zero.
pub open spec fn spread_confidence(lo: int, hi: int, median: int) -> Confidence {
    if median == 0 {
        Confidence::Degraded
    } else if spread_bps(lo, hi, median) <= SPREAD_HIGH_BPS {
        Confidence::High
    } else if spread_bps(lo, hi, median) <= SPREAD_MEDIUM_BPS {
        Confidence::Medium
    } else {
        Confidence::Degraded
    }
}

/// The aggregated state of an asset at `now`.
///
/// With no fresh price the asset is unavailable. Otherwise the fresh prices are
/// sorted; below three sources the middle one (index `n / 2`) is taken with
/// Degraded confidence; from five sources on the lowest and highest are dropped;
/// the middle of what remains is the price, and the spread of what remains sets
/// the confidence. The timestamp is the latest fresh one.
pub open spec fn aggregate_spec(m: Map<(AssetId, u8), SourcePrice>, asset: AssetId, now: u64) -> AssetState {
    let fresh = fresh_prices(m, asset, now);
    let n = fresh.len();
    let sorted = price_values(fresh).sort();
    let ts = latest_fresh_upto(m, asset, now, 5);
    if n == 0 {
        AssetState::Unavailable
    } else if n < MIN_ACTIVE_SOURCES {
        AssetState::Available {
            price: word_of(sorted[(n / 2) as int] as nat),
            timestamp: ts,
            confidence: Confidence::Degraded,
        }
    } else {
        let kept = if n >= 5 {
            sorted.subrange(1, n - 1)
        } else {
            sorted
        };
        let median = kept[(kept.len() / 2) as int];
        AssetState::Available {
            price: word_of(median as nat),
            timestamp: ts,
            confidence: spread_confidence(kept[0], kept.last(), median),
        }
    }
}

/// The confidence that the spread of the kept prices gives.
fn spread_level(lo: &U256, hi: &U256, median: &U256) -> (r: Confidence)
    requires
        lo@ <= hi@,
    ensures
        r == spread_confidence(lo@ as int, hi@ as int, median@ as int),
{
    if median.is_zero() {
        return Confidence::Degraded;
    }
    let diff = hi.wrapping_sub(lo);
    if !basis_points_exceed(&diff, median, SPREAD_HIGH_BPS) {
        Confidence::High
    } else if !basis_points_exceed(&diff, median, SPREAD_MEDIUM_BPS) {
        Confidence::Medium
    } else {
        Confidence::Degraded
    }
}

/// Aggregates prices from multiple sources into a single deterministic result per asset.
#[derive(Debug)]
pub struct Aggregator {
    /// Latest price per (asset, source), keyed by [`source_key`].
    latest: HashMap<u16, SourcePrice>,
}

impl Aggregator {
    /// The latest price of each (asset, source) pair.
    pub closed spec fn entries(&self) -> Map<(AssetId, u8), SourcePrice> {
        Map::new(
            |k: (AssetId, u8)| self.latest@.contains_key(source_key(k.0, k.1)),
            |k: (AssetId, u8)| self.latest@[source_key(k.0, k.1)],
        )
    }

    /// Creates a new empty aggregator.
    pub fn new() -> (r: Aggregator)
        ensures
            r.entries() == Map::<(AssetId, u8), SourcePrice>::empty(),
    {
        let r = Aggregator { latest: HashMap::new() };
        assert(r.entries() =~= Map::<(AssetId, u8), SourcePrice>::empty());
        r
    }

    /// Ingests a price update from a source: it replaces the source's entry for
    /// the asset unless that entry is newer.
    pub fn update(&mut self, update: &PriceUpdate)
        ensures
            ({
                let k = (update.asset, update.source.code());
                let kept = old(self).entries().contains_key(k) && update.timestamp < old(
                    self,
                ).entries()[k].timestamp;
                final(self).entries() == if kept {
                    old(self).entries()
                } else {
                    old(self).entries().insert(
                        k,
                        SourcePrice { price: update.price, timestamp: update.timestamp },
                    )
                }
            }),
    {
        let key: u16 = update.asset.as_u8() as u16 * 256 + update.source.as_u8() as u16;
        match self.latest.get(&key) {
            Some(existing) => {
                if update.timestamp < existing.timestamp {
                    return;
                }
            },
            None => {},
        }
        let ghost before = self.entries();
        self.latest.insert(key, SourcePrice { price: update.price, timestamp: update.timestamp });
        proof {
            lemma_keys_distinct();
            let k = (update.asset, update.source.code());
            assert(self.entries() =~= before.insert(
                k,
                SourcePrice { price: update.price, timestamp: update.timestamp },
            ));
        }
    }

    /// Aggregates current data for a single asset.
    pub fn aggregate(&self, asset: AssetId, now: u64) -> (r: AssetState)
        ensures
            r == aggregate_spec(self.entries(), asset, now),
    {
        let ghost m = self.entries();
        let mut fresh: Vec<U256> = Vec::new();
        let mut max_ts: u64 = 0;
        let mut s: u8 = 0;
        while s < 5
            invariant
                s <= 5,
                m == self.entries(),
                fresh@ == fresh_prices_upto(m, asset, now, s as nat),
                max_ts == latest_fresh_upto(m, asset, now, s as nat),
                fresh@.len() <= s,
            decreases 5 - s,
        {
            let key: u16 = asset.as_u8() as u16 * 256 + s as u16;
            assert(key == source_key(asset, s));
            match self.latest.get(&key) {
                Some(sp) => {
                    let age: u64 = if now >= sp.timestamp {
                        now - sp.timestamp
                    } else {
                        0
                    };
                    if age <= STALENESS_THRESHOLD {
                        fresh.push(sp.price);
                        if sp.timestamp > max_ts {
                            max_ts = sp.timestamp;
                        }
                    }
                },
                None => {},
            }
            s += 1;
        }
        let n = fresh.len();
        if n == 0 {
            return AssetState::Unavailable;
        }
        let prices = sort_prices(&fresh);
        let ghost sorted = price_values(fresh@).sort();
        assert(price_values(prices@) == sorted);
        if n < MIN_ACTIVE_SOURCES {
            let median = prices[n / 2];
            proof {
                assert(price_values(prices@)[(n / 2) as int] == median@);
                lemma_word_of(median);
            }
            return AssetState::Available {
                price: median,
                timestamp: max_ts,
                confidence: Confidence::Degraded,
            };
        }
        // Outlier trim: drop the highest and lowest from five sources on.
        let (start, len): (usize, usize) = if n >= 5 {
            (1, n - 2)
        } else {
            (0, n)
        };
        let ghost kept = if n >= 5 {
            sorted.subrange(1, n - 1)
        } else {
            sorted
        };
        assert(kept.len() == len);
        assert(forall|i: int| 0 <= i < len ==> kept[i] == sorted[start + i]);
        let median = prices[start + len / 2];
        let lo = prices[start];
        let hi = prices[start + len - 1];
        proof {
            assert(price_values(prices@)[start + len / 2] == median@);
            assert(price_values(prices@)[start as int] == lo@);
            assert(price_values(prices@)[start + len - 1] == hi@);
            assert(kept.last() == kept[len - 1]);
            lemma_word_of(median);
            sorted_facts(price_values(fresh@), start as int, len as int);
        }
        let confidence = spread_level(&lo, &hi, &median);
        AssetState::Available { price: median, timestamp: max_ts, confidence }
    }

    /// Aggregates all supported assets at the given timestamp.
    pub fn aggregate_all(&self, now: u64) -> (r: AssetMap<AssetState>)
        ensures
            forall|a: AssetId| #[trigger] r.view().contains_key(a) && r.view()[a] == aggregate_spec(
                self.entries(),
                a,
                now,
            ),
    {
        let assets = AssetId::all();
        let mut out: AssetMap<AssetState> = AssetMap::new();
        let mut i: usize = 0;
        while i < 6
            invariant
                0 <= i <= 6,
                assets@ == all_assets(),
                forall|j: int| 0 <= j < i ==> #[trigger] out.view().contains_key(all_assets()[j])
                    && out.view()[all_assets()[j]] == aggregate_spec(self.entries(), all_assets()[j], now),
            decreases 6 - i,
        {
            let asset = assets[i];
            let state = self.aggregate(asset, now);
            let ghost prev = out.view();
            out.insert(asset, state);
            proof {
                assert(asset == all_assets()[i as int]);
                assert forall|j: int| 0 <= j < i + 1 implies #[trigger] out.view().contains_key(
                    all_assets()[j],
                ) && out.view()[all_assets()[j]] == aggregate_spec(self.entries(), all_assets()[j], now) by {
                    lemma_asset_slot(j);
                    lemma_asset_slot(i as int);
                    if j < i {
                        assert(all_assets()[j] != asset);
                        assert(prev.contains_key(all_assets()[j]));
                    }
                }
            }
            i += 1;
        }
        proof {
            assert forall|a: AssetId| #[trigger] out.view().contains_key(a) && out.view()[a]
                == aggregate_spec(self.entries(), a, now) by {
                let j = a.code() - 1;
                lemma_asset_slot(j);
                assert(all_assets()[j] == a);
            }
        }
        out
    }

    /// Clears all data for a given source (e.g., on disconnect).
    pub fn clear_source(&mut self, source_id: u8)
        ensures
            final(self).entries() == Map::new(
                |k: (AssetId, u8)| old(self).entries().contains_key(k) && k.1 != source_id,
                |k: (AssetId, u8)| old(self).entries()[k],
            ),
    {
        let ghost before = self.entries();
        let assets = AssetId::all();
        let mut i: usize = 0;
        while i < 6
            invariant
                0 <= i <= 6,
                assets@ == all_assets(),
                self.entries() == Map::new(
                    |k: (AssetId, u8)| before.contains_key(k) && !(k.1 == source_id && k.0.code() <= i),
                    |k: (AssetId, u8)| before[k],
                ),
            decreases 6 - i,
        {
            let asset = assets[i];
            let key: u16 = asset.as_u8() as u16 * 256 + source_id as u16;
            let ghost prev = self.entries();
            let ghost prev_latest = self.latest@;
            self.latest.remove(&key);
            proof {
                lemma_keys_distinct();
                lemma_asset_slot(i as int);
                assert(asset == all_assets()[i as int]);
                assert(key == source_key(asset, source_id));
                assert(self.latest@ == prev_latest.remove(key));
                assert forall|k: (AssetId, u8)| #[trigger] self.entries().contains_key(k) == (before.contains_key(k)
                    && !(k.1 == source_id && k.0.code() <= i + 1)) && (self.entries().contains_key(k)
                    ==> self.entries()[k] == before[k]) by {
                    assert(prev.contains_key(k) ==> prev[k] == prev_latest[source_key(k.0, k.1)]);
                    assert(prev.contains_key(k) ==> prev[k] == before[k]);
                    assert(prev.contains_key(k) == prev_latest.contains_key(source_key(k.0, k.1)));
                    assert(prev.contains_key(k) == (before.contains_key(k) && !(k.1 == source_id
                        && k.0.code() <= i)));
                    assert(source_key(k.0, k.1) == key ==> k.0 == asset && k.1 == source_id);
                    assert(k.0.code() == asset.code() ==> k.0 == asset);
                }
                assert(self.entries() =~= Map::new(
                    |k: (AssetId, u8)| before.contains_key(k) && !(k.1 == source_id && k.0.code() <= i + 1),
                    |k: (AssetId, u8)| before[k],
                ));
            }
            i += 1;
        }
        assert(self.entries() =~= Map::new(
            |k: (AssetId, u8)| before.contains_key(k) && k.1 != source_id,
            |k: (AssetId, u8)| before[k],
        ));
    }
}

impl Default for Aggregator {
    fn default() -> (r: Aggregator)
        ensures
            r.entries() == Map::<(AssetId, u8), SourcePrice>::empty(),
    {
        Aggregator::new()
    }
}

/// Distinct (asset, source) pairs have distinct keys.
proof fn lemma_keys_distinct()
    ensures
        forall|a: AssetId, s: u8, b: AssetId, t: u8|
            #![trigger source_key(a, s), source_key(b, t)]
            source_key(a, s) == source_key(b, t) ==> a == b && s == t,
{
    assert forall|a: AssetId, s: u8, b: AssetId, t: u8|
        #![trigger source_key(a, s), source_key(b, t)]
        source_key(a, s) == source_key(b, t) implies a == b && s == t by {
        assert(a.code() * 256 + s < 0x10000);
        assert(b.code() * 256 + t < 0x10000);
        if a.code() != b.code() {
            assert(a.code() * 256 + s != b.code() * 256 + t);
        }
    }
}

/// What the sorted fresh prices give: the kept window is sorted, so its last
/// element is at least its first.
proof fn sorted_facts(values: Seq<int>, start: int, len: int)
    requires
        0 <= start,
        1 <= len,
        start + len <= values.len(),
    ensures
        values.sort().len() == values.len(),
        values.sort()[start] <= values.sort()[start + len - 1],
{
    broadcast use vstd::seq_lib::group_to_multiset_ensures;

    values.lemma_sort_ensures();
    assert(values.sort().len() == values.sort().to_multiset().len());
    assert(values.len() == values.to_multiset().len());
    if len > 1 {
        assert((|x: int, y: int| x <= y)(values.sort()[start], values.sort()[start + len - 1]));
    }
}

/// Sorts prices in ascending order (insertion sort).
fn sort_prices(v: &Vec<U256>) -> (r: Vec<U256>)
    ensures
        r@.len() == v@.len(),
        price_values(r@) == price_values(v@).sort(),
{
    let mut out: Vec<U256> = Vec::new();
    let mut i: usize = 0;
    assert(v@.subrange(0, 0) =~= Seq::<U256>::empty());
    assert(price_values(out@) =~= Seq::<int>::empty());
    assert(price_values(v@.subrange(0, 0)) =~= Seq::<int>::empty());
    while i < v.len()
        invariant
            0 <= i <= v@.len(),
            out@.len() == i,
            vstd::relations::sorted_by(price_values(out@), |x: int, y: int| x <= y),
            price_values(out@).to_multiset() == price_values(v@.subrange(0, i as int)).to_multiset(),
        decreases v@.len() - i,
    {
        let x = v[i];
        let mut j: usize = 0;
        while j < out.len() && out[j].le(&x)
            invariant
                0 <= j <= out@.len(),
                forall|k: int| 0 <= k < j ==> out@[k]@ <= x@,
            decreases out@.len() - j,
        {
            j += 1;
        }
        let ghost before = out@;
        out.insert(j, x);
        proof {
            broadcast use vstd::seq_lib::group_to_multiset_ensures;

            assert(price_values(out@) =~= price_values(before).insert(j as int, x@ as int));
            assert(v@.subrange(0, i + 1) =~= v@.subrange(0, i as int).push(x));
            assert(price_values(v@.subrange(0, i + 1)) =~= price_values(v@.subrange(0, i as int)).push(
                x@ as int,
            ));
            assert forall|a: int, b: int| 0 <= a < b < out@.len() implies (|x: int, y: int| x <= y)(
                price_values(out@)[a],
                price_values(out@)[b],
            ) by {
                assert((|x: int, y: int| x <= y)(price_values(before)[0], price_values(before)[0])
                    || before.len() == 0);
                if a < j && b < j {
                    assert((|x: int, y: int| x <= y)(price_values(before)[a], price_values(before)[b]));
                } else if a > j && b > j {
                    assert((|x: int, y: int| x <= y)(price_values(before)[a - 1], price_values(before)[b - 1]));
                } else if a < j && b == j {
                } else if a < j && b > j {
                } else if a == j && b > j {
                    if j < before.len() {
                        assert((|x: int, y: int| x <= y)(price_values(before)[j as int], price_values(before)[b - 1]) || b - 1 == j);
                    }
                }
            }
        }
        i += 1;
    }
    proof {
        assert(v@.subrange(0, v@.len() as int) =~= v@);
        price_values(v@).lemma_sort_ensures();
        vstd::seq_lib::lemma_sorted_unique(price_values(out@), price_values(v@).sort(), |x: int, y: int| x <= y);
    }
    out
}

/// Aggregation is deterministic in the fresh prices alone: two tables whose
/// fresh prices for an asset are the same multiset, with the same latest fresh
/// timestamp, aggregate to the same state, whatever source reported which price.
pub proof fn lemma_aggregate_order_independent(
    m1: Map<(AssetId, u8), SourcePrice>,
    m2: Map<(AssetId, u8), SourcePrice>,
    asset: AssetId,
    now: u64,
)
    requires
        price_values(fresh_prices(m1, asset, now)).to_multiset() == price_values(
            fresh_prices(m2, asset, now),
        ).to_multiset(),
        latest_fresh_upto(m1, asset, now, 5) == latest_fresh_upto(m2, asset, now, 5),
    ensures
        aggregate_spec(m1, asset, now) == aggregate_spec(m2, asset, now),
{
    broadcast use vstd::seq_lib::group_to_multiset_ensures;

    let v1 = price_values(fresh_prices(m1, asset, now));
    let v2 = price_values(fresh_prices(m2, asset, now));
    v1.lemma_sort_ensures();
    v2.lemma_sort_ensures();
    assert(v1.len() == v1.to_multiset().len());
    assert(v2.len() == v2.to_multiset().len());
    vstd::seq_lib::lemma_sorted_unique(v1.sort(), v2.sort(), |x: int, y: int| x <= y);
}

/// An aggregated price is one of the fresh prices that the sources reported.
pub proof fn lemma_aggregate_price_is_reported(m: Map<(AssetId, u8), SourcePrice>, asset: AssetId, now: u64)
    requires
        aggregate_spec(m, asset, now) is Available,
    ensures
        fresh_prices(m, asset, now).contains(aggregate_spec(m, asset, now)->price),
{
    broadcast use vstd::seq_lib::group_to_multiset_ensures;

    let fresh = fresh_prices(m, asset, now);
    let v = price_values(fresh);
    let n = fresh.len();
    v.lemma_sort_ensures();
    assert(v.len() == v.to_multiset().len());
    assert(v.sort().len() == v.sort().to_multiset().len());
    let k: int = if n < MIN_ACTIVE_SOURCES {
        (n / 2) as int
    } else if n >= 5 {
        1 + (n - 2) / 2
    } else {
        (n / 2) as int
    };
    let x = v.sort()[k];
    assert(v.sort().contains(x));
    assert(v.to_multiset().contains(x));
    assert(v.contains(x));
    let i = choose|i: int| 0 <= i < v.len() && v[i] == x;
    lemma_word_of(fresh[i]);
    assert(fresh[i] == aggregate_spec(m, asset, now)->price);
}

} // verus!
