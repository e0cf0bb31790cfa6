//! Oracle engine state: the latest aggregated price per asset, the connection
//! status of each source, and snapshot generation for block building.
//!
//! The engine is driven from outside: a message loop hands it each source
//! message, and a 1-second heartbeat hands it the current time to aggregate at.

use vstd::prelude::*;

use crate::oracle_engine::aggregator::{Aggregator, aggregate_spec};
use crate::oracle_engine::source::{PriceUpdate, SourceId, SourceMessage, all_sources};
use crate::primitives::asset::{AssetId, all_assets};
use crate::primitives::confidence::Confidence;
use crate::primitives::constants::CURRENT_ENGINE_VERSION;
use crate::primitives::snapshot::{AssetMap, AssetState, PriceSnapshot, SnapshotEntry, lemma_asset_slot};

verus! {

/// The state kept for an asset after a new aggregation result: an unavailable
/// result keeps the last available price and timestamp, with confidence
/// `Unavailable`; any other result replaces the state.
pub open spec fn merged_state(previous: Option<AssetState>, new_state: AssetState) -> AssetState {
    match (new_state, previous) {
        (AssetState::Unavailable, Some(AssetState::Available { price, timestamp, .. })) => {
            AssetState::Available { price, timestamp, confidence: Confidence::Unavailable }
        },
        _ => new_state,
    }
}

/// The snapshot entry of an asset state.
pub open spec fn entry_of(state: Option<AssetState>) -> SnapshotEntry {
    match state {
        Some(AssetState::Available { price, timestamp, confidence }) => SnapshotEntry::Updated {
            price,
            timestamp,
            confidence,
        },
        _ => SnapshotEntry::Unavailable,
    }
}

/// The number of `true` values in a sequence.
pub open spec fn count_true(s: Seq<bool>) -> nat
    decreases s.len(),
{
    if s.len() == 0 {
        0
    } else {
        count_true(s.drop_last()) + if s.last() {
            1nat
        } else {
            0nat
        }
    }
}

/// Merges aggregated states into the local state map: every asset of the new
/// map takes its merged state.
pub fn apply_aggregated_states(states: &mut AssetMap<AssetState>, new_states: &AssetMap<AssetState>)
    ensures
        forall|a: AssetId| #[trigger]
            final(states).view().contains_key(a) == (old(states).view().contains_key(a)
                || new_states.view().contains_key(a)),
        forall|a: AssetId| #[trigger]
            new_states.view().contains_key(a) ==> final(states).view()[a] == merged_state(
                if old(states).view().contains_key(a) {
                    Some(old(states).view()[a])
                } else {
                    None
                },
                new_states.view()[a],
            ),
        forall|a: AssetId|
            !new_states.view().contains_key(a) && #[trigger] old(states).view().contains_key(a)
                ==> final(states).view()[a] == old(states).view()[a],
{
    let assets = AssetId::all();
    let ghost before = states.view();
    let mut i: usize = 0;
    while i < 6
        invariant
            0 <= i <= 6,
            assets@ == all_assets(),
            forall|a: AssetId| #[trigger]
                states.view().contains_key(a) == (before.contains_key(a) || (a.code() <= i
                    && new_states.view().contains_key(a))),
            forall|a: AssetId|
                a.code() <= i && #[trigger] new_states.view().contains_key(a) ==> states.view()[a]
                    == merged_state(
                    if before.contains_key(a) {
                        Some(before[a])
                    } else {
                        None
                    },
                    new_states.view()[a],
                ),
            forall|a: AssetId|
                !(a.code() <= i && new_states.view().contains_key(a)) && #[trigger] before.contains_key(a)
                    ==> states.view()[a] == before[a],
        decreases 6 - i,
    {
        let asset = assets[i];
        proof {
            lemma_asset_slot(i as int);
        }
        match new_states.get(asset) {
            Some(new_state) => {
                let merged = match (new_state, states.get(asset)) {
                    (AssetState::Unavailable, Some(AssetState::Available { price, timestamp, .. })) => {
                        AssetState::Available {
                            price: *price,
                            timestamp: *timestamp,
                            confidence: Confidence::Unavailable,
                        }
                    },
                    _ => *new_state,
                };
                states.insert(asset, merged);
            },
            None => {},
        }
        proof {
            assert forall|a: AssetId| a.code() == i + 1 implies a == asset by {}
        }
        i += 1;
    }
}

/// The Oracle Engine state.
#[derive(Debug)]
pub struct OracleEngine {
    /// Per-asset latest aggregated state.
    states: AssetMap<AssetState>,
    /// Per-source connection status, by source number.
    source_status: [bool; 5],
    /// The per-source price table.
    aggregator: Aggregator,
}

impl OracleEngine {
    /// The latest aggregated state of each asset.
    pub closed spec fn states(&self) -> Map<AssetId, AssetState> {
        self.states.view()
    }

    /// The connection status of each source, by source number.
    pub closed spec fn statuses(&self) -> Seq<bool> {
        self.source_status@
    }

    /// The per-source price table.
    pub closed spec fn table(&self) -> Map<(AssetId, u8), crate::oracle_engine::aggregator::SourcePrice> {
        self.aggregator.entries()
    }

    /// Creates a new engine: every asset unavailable, every source disconnected,
    /// no prices.
    pub fn new() -> (r: OracleEngine)
        ensures
            forall|a: AssetId| #[trigger] r.states().contains_key(a) && r.states()[a]
                == AssetState::Unavailable,
            r.statuses() == seq![false, false, false, false, false],
            r.table() == Map::<(AssetId, u8), crate::oracle_engine::aggregator::SourcePrice>::empty(),
    {
        let r = OracleEngine {
            states: AssetMap::filled(AssetState::Unavailable),
            source_status: [false, false, false, false, false],
            aggregator: Aggregator::new(),
        };
        assert(r.statuses() =~= seq![false, false, false, false, false]);
        r
    }

    /// Generates a price snapshot from the current local price state, for the
    /// block builder.
    pub fn generate_snapshot(&self) -> (r: PriceSnapshot)
        ensures
            r.engine_version == CURRENT_ENGINE_VERSION,
            forall|a: AssetId| #[trigger] r.entries.view().contains_key(a) && r.entries.view()[a]
                == entry_of(
                if self.states().contains_key(a) {
                    Some(self.states()[a])
                } else {
                    None
                },
            ),
    {
        let assets = AssetId::all();
        let mut entries: AssetMap<SnapshotEntry> = AssetMap::new();
        let mut i: usize = 0;
        while i < 6
            invariant
                0 <= i <= 6,
                assets@ == all_assets(),
                forall|a: AssetId|
                    a.code() <= i ==> #[trigger] entries.view().contains_key(a) && entries.view()[a]
                        == entry_of(
                        if self.states().contains_key(a) {
                            Some(self.states()[a])
                        } else {
                            None
                        },
                    ),
            decreases 6 - i,
        {
            let asset = assets[i];
            proof {
                lemma_asset_slot(i as int);
            }
            let entry = match self.states.get(asset) {
                Some(AssetState::Available { price, timestamp, confidence }) => SnapshotEntry::Updated {
                    price: *price,
                    timestamp: *timestamp,
                    confidence: *confidence,
                },
                _ => SnapshotEntry::Unavailable,
            };
            entries.insert(asset, entry);
            proof {
                assert forall|a: AssetId| a.code() == i + 1 implies a == asset by {}
            }
            i += 1;
        }
        PriceSnapshot { entries, engine_version: CURRENT_ENGINE_VERSION }
    }

    /// Returns the current connection status of each source, by source number.
    pub fn source_status(&self) -> (r: [bool; 5])
        ensures
            r@ == self.statuses(),
    {
        self.source_status
    }

    /// Returns the number of currently connected sources.
    pub fn connected_source_count(&self) -> (r: usize)
        ensures
            r == count_true(self.statuses()),
    {
        let mut n: usize = 0;
        let mut i: usize = 0;
        while i < 5
            invariant
                0 <= i <= 5,
                n == count_true(self.source_status@.subrange(0, i as int)),
                n <= i,
            decreases 5 - i,
        {
            assert(self.source_status@.subrange(0, i + 1).drop_last() =~= self.source_status@.subrange(
                0,
                i as int,
            ));
            if self.source_status[i] {
                n += 1;
            }
            i += 1;
        }
        assert(self.source_status@.subrange(0, 5) =~= self.source_status@);
        n
    }

    /// Returns the current aggregated state for a single asset.
    pub fn get_asset_state(&self, asset: AssetId) -> (r: AssetState)
        ensures
            r == if self.states().contains_key(asset) {
                self.states()[asset]
            } else {
                AssetState::Unavailable
            },
    {
        match self.states.get(asset) {
            Some(s) => *s,
            None => AssetState::Unavailable,
        }
    }

    /// Injects a price update into the price table.
    pub fn inject_update(&mut self, update: &PriceUpdate)
        ensures
            ({
                let k = (update.asset, update.source.code());
                final(self).table() == if old(self).table().contains_key(k) && update.timestamp < old(
                    self,
                ).table()[k].timestamp {
                    old(self).table()
                } else {
                    old(self).table().insert(
                        k,
                        crate::oracle_engine::aggregator::SourcePrice {
                            price: update.price,
                            timestamp: update.timestamp,
                        },
                    )
                }
            }),
            final(self).states() == old(self).states(),
            final(self).statuses() == old(self).statuses(),
    {
        self.aggregator.update(update);
    }

    /// Aggregates every asset at `now` and merges the results into the state.
    pub fn trigger_aggregation_at(&mut self, now: u64)
        ensures
            forall|a: AssetId| #[trigger] final(self).states().contains_key(a),
            forall|a: AssetId| #[trigger]
                final(self).states()[a] == merged_state(
                    if old(self).states().contains_key(a) {
                        Some(old(self).states()[a])
                    } else {
                        None
                    },
                    aggregate_spec(old(self).table(), a, now),
                ),
            final(self).table() == old(self).table(),
            final(self).statuses() == old(self).statuses(),
    {
        let all_states = self.aggregator.aggregate_all(now);
        apply_aggregated_states(&mut self.states, &all_states);
        assert forall|a: AssetId| #[trigger] self.states()[a] == merged_state(
            if old(self).states().contains_key(a) {
                Some(old(self).states()[a])
            } else {
                None
            },
            aggregate_spec(old(self).table(), a, now),
        ) by {
            assert(all_states.view().contains_key(a));
        }
    }

    /// Handles one message from a source connector: a price goes into the
    /// table; a connection marks the source connected; a disconnection marks it
    /// disconnected and drops its prices.
    pub fn process_message(&mut self, msg: &SourceMessage)
        ensures
            match *msg {
                SourceMessage::Price(update) => {
                    let k = (update.asset, update.source.code());
                    &&& final(self).statuses() == old(self).statuses()
                    &&& final(self).table() == if old(self).table().contains_key(k)
                        && update.timestamp < old(self).table()[k].timestamp {
                        old(self).table()
                    } else {
                        old(self).table().insert(
                            k,
                            crate::oracle_engine::aggregator::SourcePrice {
                                price: update.price,
                                timestamp: update.timestamp,
                            },
                        )
                    }
                },
                SourceMessage::Disconnected(source) => {
                    &&& final(self).statuses() == old(self).statuses().update(source.code() as int, false)
                    &&& final(self).table() == Map::new(
                        |k: (AssetId, u8)| old(self).table().contains_key(k) && k.1 != source.code(),
                        |k: (AssetId, u8)| old(self).table()[k],
                    )
                },
                SourceMessage::Connected(source) => {
                    &&& final(self).statuses() == old(self).statuses().update(source.code() as int, true)
                    &&& final(self).table() == old(self).table()
                },
            },
            final(self).states() == old(self).states(),
    {
        match msg {
            SourceMessage::Price(update) => {
                self.aggregator.update(update);
            },
            SourceMessage::Disconnected(source) => {
                self.source_status[source.as_u8() as usize] = false;
                self.aggregator.clear_source(source.as_u8());
            },
            SourceMessage::Connected(source) => {
                self.source_status[source.as_u8() as usize] = true;
            },
        }
    }
}

impl Default for OracleEngine {
    fn default() -> (r: OracleEngine)
        ensures
            forall|a: AssetId| #[trigger] r.states().contains_key(a) && r.states()[a]
                == AssetState::Unavailable,
            r.statuses() == seq![false, false, false, false, false],
    {
        OracleEngine::new()
    }
}

} // verus!
