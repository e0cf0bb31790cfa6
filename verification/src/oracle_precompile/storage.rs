//! Oracle precompile storage operations.
//!
//! Storage layout (at address `0x0802`):
//! - `slot(asset_id * 2)`     holds the price: `U256` (8 decimals)
//! - `slot(asset_id * 2 + 1)` holds `{ timestamp: u64 [0:63], confidence: u8 [64:71] }`

use vstd::prelude::*;

use crate::oracle_precompile::error::OraclePrecompileError;
use crate::primitives::asset::{AssetId, all_assets, asset_of_code};
use crate::primitives::confidence::{Confidence, confidence_of_code, worse_of};
use crate::primitives::constants::MAX_PRICE_AGE;
use crate::primitives::snapshot::{PriceSnapshot, SnapshotEntry, lemma_asset_slot};
use crate::state::{PachiState, StorageMap, storage_read};
use crate::word::{Address, U256, limb_base, limb_base2, limb_base3};

verus! {

/// The `PriceOracle` precompile address, `0x…0802`.
pub open spec fn oracle_address() -> Address {
    Address { bytes: [0u8, 0, 0, 0, 0, 0, 0, 0, 0, 0, 0, 0, 0, 0, 0, 0, 0, 0, 0x08, 0x02] }
}

/// The `PriceOracle` precompile address.
pub fn oracle_precompile_address() -> (r: Address)
    ensures
        r == oracle_address(),
{
    Address { bytes: [0u8, 0, 0, 0, 0, 0, 0, 0, 0, 0, 0, 0, 0, 0, 0, 0, 0, 0, 0x08, 0x02] }
}

/// The word holding a `u64`.
pub open spec fn small_word(n: u64) -> U256 {
    U256 { l0: n, l1: 0, l2: 0, l3: 0 }
}

/// The price slot of an asset: `2 * code`.
pub open spec fn price_slot_of(a: AssetId) -> U256 {
    small_word((2 * a.code()) as u64)
}

/// The packed timestamp/confidence slot of an asset: `2 * code + 1`.
pub open spec fn packed_slot_of(a: AssetId) -> U256 {
    small_word((2 * a.code() + 1) as u64)
}

/// Whether a slot is one of the oracle's twelve asset slots (2 to 13).
pub open spec fn is_oracle_slot(s: U256) -> bool {
    s.l1 == 0 && s.l2 == 0 && s.l3 == 0 && 2 <= s.l0 <= 13
}

/// The packed word of a timestamp and a confidence: `timestamp + code << 64`.
pub open spec fn packed_word(timestamp: u64, confidence: Confidence) -> U256 {
    U256 { l0: timestamp, l1: confidence.code() as u64, l2: 0, l3: 0 }
}

/// The confidence a stored byte denotes; an unknown byte reads as `Unavailable`.
pub open spec fn confidence_or_unavailable(v: u8) -> Confidence {
    match confidence_of_code(v) {
        Some(c) => c,
        None => Confidence::Unavailable,
    }
}

/// The timestamp (bits 0..63) and confidence (bits 64..71) a packed word holds.
#[verifier::opaque]
pub open spec fn unpacked(p: U256) -> (u64, Confidence) {
    (
        (p@ % limb_base()) as u64,
        confidence_or_unavailable(((p@ / limb_base()) % 256) as u8),
    )
}

/// A price entry as stored on-chain.
#[derive(Debug, Clone, Copy, PartialEq, Eq, Structural)]
pub struct PriceEntry {
    /// USD price with 8 decimal places.
    pub price: U256,
    /// Unix timestamp of the price observation.
    pub timestamp: u64,
    /// Confidence level.
    pub confidence: Confidence,
}

/// The entry a storage map holds for an asset.
pub open spec fn stored_entry(m: StorageMap, a: AssetId) -> PriceEntry {
    let packed = storage_read(m, oracle_address(), packed_slot_of(a));
    PriceEntry {
        price: storage_read(m, oracle_address(), price_slot_of(a)),
        timestamp: unpacked(packed).0,
        confidence: unpacked(packed).1,
    }
}

/// The map after an entry has been written for an asset.
pub open spec fn with_entry(m: StorageMap, a: AssetId, e: PriceEntry) -> StorageMap {
    m.insert((oracle_address(), price_slot_of(a)), e.price).insert(
        (oracle_address(), packed_slot_of(a)),
        packed_word(e.timestamp, e.confidence),
    )
}

/// Unpacking a packed word gives back its timestamp and confidence.
pub proof fn lemma_unpack_pack(timestamp: u64, confidence: Confidence)
    ensures
        unpacked(packed_word(timestamp, confidence)) == (timestamp, confidence),
{
    reveal(unpacked);
    let p = packed_word(timestamp, confidence);
    let c = confidence.code() as int;
    assert(p@ == timestamp + c * limb_base());
    vstd::arithmetic::div_mod::lemma_fundamental_div_mod_converse(
        p@ as int,
        limb_base() as int,
        c,
        timestamp as int,
    );
    vstd::arithmetic::div_mod::lemma_small_mod(c as nat, 256);
}

/// A written entry reads back unchanged: the price and packed slots of an asset
/// are distinct.
pub proof fn lemma_entry_roundtrip(m: StorageMap, a: AssetId, e: PriceEntry)
    ensures
        stored_entry(with_entry(m, a, e), a) == e,
{
    lemma_unpack_pack(e.timestamp, e.confidence);
    assert(price_slot_of(a) != packed_slot_of(a));
}

/// Writing an entry for one asset leaves every other asset's entry, and every
/// slot outside that asset's two, as it was.
pub proof fn lemma_entry_frame(m: StorageMap, a: AssetId, e: PriceEntry, b: AssetId)
    requires
        a != b,
    ensures
        stored_entry(with_entry(m, a, e), b) == stored_entry(m, b),
        storage_read(with_entry(m, a, e), oracle_address(), price_slot_of(b)) == storage_read(
            m,
            oracle_address(),
            price_slot_of(b),
        ),
        storage_read(with_entry(m, a, e), oracle_address(), packed_slot_of(b)) == storage_read(
            m,
            oracle_address(),
            packed_slot_of(b),
        ),
{
    crate::primitives::asset::lemma_asset_codes_distinct(a, b);
    assert(price_slot_of(a) != price_slot_of(b));
    assert(price_slot_of(a) != packed_slot_of(b));
    assert(packed_slot_of(a) != price_slot_of(b));
    assert(packed_slot_of(a) != packed_slot_of(b));
}

impl PriceEntry {
    /// Returns the storage slot for the price of the given asset.
    pub fn price_slot(asset_id: AssetId) -> (r: U256)
        ensures
            r == price_slot_of(asset_id),
    {
        U256::from_u64(asset_id.as_u8() as u64 * 2)
    }

    /// Returns the storage slot for the packed timestamp/confidence of the given asset.
    pub fn packed_slot(asset_id: AssetId) -> (r: U256)
        ensures
            r == packed_slot_of(asset_id),
    {
        U256::from_u64(asset_id.as_u8() as u64 * 2 + 1)
    }

    /// Packs timestamp and confidence into a single word: `timestamp | confidence << 64`.
    pub fn pack_timestamp_confidence(timestamp: u64, confidence: Confidence) -> (r: U256)
        ensures
            r == packed_word(timestamp, confidence),
            r@ == timestamp + confidence.code() * limb_base(),
    {
        U256 { l0: timestamp, l1: confidence.as_u8() as u64, l2: 0, l3: 0 }
    }

    /// Unpacks timestamp (bits 0..63) and confidence (bits 64..71) from a single word.
    pub fn unpack_timestamp_confidence(packed: U256) -> (r: (u64, Confidence))
        ensures
            r == unpacked(packed),
    {
        let timestamp = packed.low_u64();
        let l1 = packed.l1;
        proof {
            reveal(unpacked);
        }
        let confidence_byte: u8 = (l1 & 0xFF) as u8;
        proof {
            let b = limb_base() as int;
            let hi = packed.l1 + packed.l2 * b + packed.l3 * limb_base2();
            assert(packed@ == packed.l0 + hi * b) by (nonlinear_arith)
                requires
                    packed@ == packed.l0 + packed.l1 * b + packed.l2 * limb_base2() + packed.l3
                        * limb_base3(),
                    hi == packed.l1 + packed.l2 * b + packed.l3 * limb_base2(),
                    limb_base2() == b * b,
                    limb_base3() == b * b * b,
            ;
            vstd::arithmetic::div_mod::lemma_fundamental_div_mod_converse(
                packed@ as int,
                b,
                hi,
                packed.l0 as int,
            );
            let k = (packed.l2 + packed.l3 * b) * (b / 256);
            assert(hi == packed.l1 + 256 * k) by (nonlinear_arith)
                requires
                    hi == packed.l1 + packed.l2 * b + packed.l3 * limb_base2(),
                    limb_base2() == b * b,
                    b == 256 * (b / 256),
                    k == (packed.l2 + packed.l3 * b) * (b / 256),
            ;
            vstd::arithmetic::div_mod::lemma_mod_multiples_vanish(k, packed.l1 as int, 256);
            assert((l1 & 0xFF) == l1 % 256) by (bit_vector);
        }
        let confidence = match Confidence::from_u8(confidence_byte) {
            Some(c) => c,
            None => Confidence::Unavailable,
        };
        (timestamp, confidence)
    }

    /// Reads a price entry from state for the given asset.
    pub fn read<S: PachiState>(state: &S, asset_id: AssetId) -> (r: PriceEntry)
        ensures
            r == stored_entry(state.storage(), asset_id),
    {
        let price = state.get_storage(oracle_precompile_address(), Self::price_slot(asset_id));
        let packed = state.get_storage(oracle_precompile_address(), Self::packed_slot(asset_id));
        let (timestamp, confidence) = Self::unpack_timestamp_confidence(packed);
        PriceEntry { price, timestamp, confidence }
    }

    /// Writes this price entry to state for the given asset.
    pub fn write<S: PachiState>(&self, state: &mut S, asset_id: AssetId)
        ensures
            final(state).storage() == with_entry(old(state).storage(), asset_id, *self),
            stored_entry(final(state).storage(), asset_id) == *self,
    {
        state.set_storage(oracle_precompile_address(), Self::price_slot(asset_id), self.price);
        state.set_storage(
            oracle_precompile_address(),
            Self::packed_slot(asset_id),
            Self::pack_timestamp_confidence(self.timestamp, self.confidence),
        );
        proof {
            lemma_entry_roundtrip(old(state).storage(), asset_id, *self);
        }
    }
}

/// `now - then`, or 0 when `then` is later.
pub open spec fn age(now: u64, then: u64) -> u64 {
    if now >= then {
        (now - then) as u64
    } else {
        0
    }
}

/// The answer to a price query for a stored entry at time `now`:
/// - a never-set entry (price 0 and timestamp 0) is `Unavailable`;
/// - an entry older than `MAX_PRICE_AGE` is degraded to at least `Degraded`;
/// - otherwise the stored confidence stands.
pub open spec fn price_query(e: PriceEntry, now: u64) -> (U256, u64, Confidence) {
    let confidence = if e.price@ == 0 && e.timestamp == 0 {
        Confidence::Unavailable
    } else if e.timestamp > 0 && age(now, e.timestamp) > MAX_PRICE_AGE {
        worse_of(e.confidence, Confidence::Degraded)
    } else {
        e.confidence
    };
    (e.price, e.timestamp, confidence)
}

/// The answer to a price query for a raw asset id against a storage map.
pub open spec fn price_answer(m: StorageMap, asset_id: u8, now: u64) -> Result<
    (U256, u64, Confidence),
    OraclePrecompileError,
> {
    match asset_of_code(asset_id) {
        None => Err(OraclePrecompileError::UnsupportedAsset { asset_id }),
        Some(a) => Ok(price_query(stored_entry(m, a), now)),
    }
}

/// Reads the current price for an asset, applying staleness degradation.
///
/// - Unsupported `asset_id` returns `Err(UnsupportedAsset)`.
/// - An unavailable asset returns the last valid price and timestamp with
///   confidence `Unavailable`; gatekeeping is the consumer's responsibility.
/// - Staleness: if `block_timestamp - entry.timestamp > MAX_PRICE_AGE`, confidence is
///   degraded to at least `Degraded`.
pub fn get_price<S: PachiState>(state: &S, asset_id: u8, block_timestamp: u64) -> (r: Result<
    (U256, u64, Confidence),
    OraclePrecompileError,
>)
    ensures
        r == price_answer(state.storage(), asset_id, block_timestamp),
{
    let asset = match AssetId::from_u8(asset_id) {
        Some(a) => a,
        None => return Err(OraclePrecompileError::UnsupportedAsset { asset_id }),
    };

    let entry = PriceEntry::read(state, asset);
    let mut confidence = entry.confidence;

    // Never-set state (genesis): treat as Unavailable
    if entry.price.is_zero() && entry.timestamp == 0 {
        confidence = Confidence::Unavailable;
    } else if entry.timestamp > 0 && block_timestamp.saturating_sub(entry.timestamp)
        > MAX_PRICE_AGE {
        // Staleness degradation at query time
        confidence = confidence.worse(Confidence::Degraded);
    }
    Ok((entry.price, entry.timestamp, confidence))
}

/// Whether every id of a batch is a supported asset.
pub open spec fn all_supported(ids: Seq<u8>) -> bool {
    forall|i: int| 0 <= i < ids.len() ==> #[trigger] asset_of_code(ids[i]) is Some
}

/// Whether `v` answers, in order, a price query for each id.
pub open spec fn answers_batch(
    m: StorageMap,
    ids: Seq<u8>,
    now: u64,
    v: Seq<(U256, u64, Confidence)>,
) -> bool {
    &&& v.len() == ids.len()
    &&& forall|i: int| 0 <= i < v.len() ==> price_answer(m, ids[i], now) == Ok::<(U256, u64, Confidence), OraclePrecompileError>(#[trigger] v[i])
}

/// Whether `e` reports the first unsupported id of a batch.
pub open spec fn reports_first_unsupported(ids: Seq<u8>, e: OraclePrecompileError) -> bool {
    exists|i: int|
        0 <= i < ids.len() && asset_of_code(#[trigger] ids[i]) is None && all_supported(
            ids.subrange(0, i),
        ) && e == OraclePrecompileError::UnsupportedAsset { asset_id: ids[i] }
}

/// The answer to a batch price query: every answer in order, or the first
/// unsupported id.
pub open spec fn batch_answer_ok(
    m: StorageMap,
    ids: Seq<u8>,
    now: u64,
    r: Result<Vec<(U256, u64, Confidence)>, OraclePrecompileError>,
) -> bool {
    match r {
        Ok(v) => all_supported(ids) && answers_batch(m, ids, now, v@),
        Err(e) => !all_supported(ids) && reports_first_unsupported(ids, e),
    }
}

/// Reads prices for multiple assets in a single call; the first unsupported id
/// fails the whole batch.
pub fn get_price_batch<S: PachiState>(state: &S, asset_ids: &[u8], block_timestamp: u64) -> (r:
    Result<Vec<(U256, u64, Confidence)>, OraclePrecompileError>)
    ensures
        batch_answer_ok(state.storage(), asset_ids@, block_timestamp, r),
{
    let mut out: Vec<(U256, u64, Confidence)> = Vec::new();
    let mut i: usize = 0;
    while i < asset_ids.len()
        invariant
            0 <= i <= asset_ids@.len(),
            all_supported(asset_ids@.subrange(0, i as int)),
            answers_batch(state.storage(), asset_ids@.subrange(0, i as int), block_timestamp, out@),
        decreases asset_ids@.len() - i,
    {
        let ghost prefix = asset_ids@.subrange(0, i as int);
        match get_price(state, asset_ids[i], block_timestamp) {
            Ok(p) => out.push(p),
            Err(e) => {
                assert(prefix == asset_ids@.subrange(0, i as int));
                assert(reports_first_unsupported(asset_ids@, e)) by {
                    assert(asset_of_code(asset_ids@[i as int]) is None);
                }
                return Err(e);
            },
        }
        assert(asset_ids@.subrange(0, i + 1) =~= prefix.push(asset_ids@[i as int]));
        i += 1;
    }
    assert(asset_ids@.subrange(0, i as int) =~= asset_ids@);
    Ok(out)
}

/// Checks whether an asset ID is supported.
pub fn is_supported(asset_id: u8) -> (r: bool)
    ensures
        r == (asset_of_code(asset_id) is Some),
{
    AssetId::from_u8(asset_id).is_some()
}

/// The entry an asset holds after a snapshot entry is applied to it: an update
/// overwrites price, timestamp and confidence; `Unavailable` keeps price and
/// timestamp and sets confidence to `Unavailable`.
pub open spec fn applied_entry(old: PriceEntry, e: SnapshotEntry) -> PriceEntry {
    match e {
        SnapshotEntry::Updated { price, timestamp, confidence } => PriceEntry {
            price,
            timestamp,
            confidence,
        },
        SnapshotEntry::Unavailable => PriceEntry { confidence: Confidence::Unavailable, ..old },
    }
}

/// Whether a snapshot has an entry for every supported asset.
pub open spec fn snapshot_complete(s: PriceSnapshot) -> bool {
    forall|a: AssetId| #[trigger] s.entries.view().contains_key(a)
}

/// Whether two storage maps agree on every key outside the oracle's asset slots.
pub open spec fn same_outside_oracle_slots(m1: StorageMap, m2: StorageMap) -> bool {
    forall|k: (Address, U256)|
        !(k.0 == oracle_address() && is_oracle_slot(k.1)) ==> (#[trigger] m1.contains_key(k)
            == m2.contains_key(k) && m1[k] == m2[k])
}

/// Whether `r` reports the first supported asset a snapshot lacks.
pub open spec fn reports_first_missing(s: PriceSnapshot, r: Result<(), OraclePrecompileError>) -> bool {
    exists|i: int|
        0 <= i < 6 && !s.entries.view().contains_key(#[trigger] all_assets()[i]) && (forall|j: int|
            0 <= j < i ==> s.entries.view().contains_key(#[trigger] all_assets()[j])) && r == Err::<
            (),
            OraclePrecompileError,
        >(OraclePrecompileError::MissingAsset(all_assets()[i]))
}

/// Whether `m1` is `m0` with a complete snapshot applied: every asset's entry
/// updated, every other slot as it was.
pub open spec fn snapshot_applied(m0: StorageMap, m1: StorageMap, s: PriceSnapshot) -> bool {
    &&& same_outside_oracle_slots(m1, m0)
    &&& forall|a: AssetId|
        stored_entry(m1, a) == #[trigger] applied_entry(stored_entry(m0, a), s.entries.view()[a])
}

/// Whether the first `n` assets hold their applied entries and the others their old slots.
pub open spec fn applied_prefix(m0: StorageMap, m1: StorageMap, s: PriceSnapshot, n: int) -> bool {
    &&& same_outside_oracle_slots(m1, m0)
    &&& forall|j: int|
        0 <= j < n ==> stored_entry(m1, #[trigger] all_assets()[j]) == applied_entry(
            stored_entry(m0, all_assets()[j]),
            s.entries.view()[all_assets()[j]],
        )
    &&& forall|j: int|
        n <= j < 6 ==> storage_read(m1, oracle_address(), price_slot_of(#[trigger] all_assets()[j]))
            == storage_read(m0, oracle_address(), price_slot_of(all_assets()[j])) && storage_read(
            m1,
            oracle_address(),
            packed_slot_of(all_assets()[j]),
        ) == storage_read(m0, oracle_address(), packed_slot_of(all_assets()[j]))
}

/// Writing an asset's entry keeps every slot outside the oracle's asset slots.
proof fn lemma_with_entry_outside(m0: StorageMap, before: StorageMap, a: AssetId, e: PriceEntry)
    requires
        same_outside_oracle_slots(before, m0),
    ensures
        same_outside_oracle_slots(with_entry(before, a, e), m0),
{
    let after = with_entry(before, a, e);
    assert forall|key: (Address, U256)|
        !(key.0 == oracle_address() && is_oracle_slot(key.1)) implies (#[trigger] after.contains_key(
        key,
    ) == m0.contains_key(key) && after[key] == m0[key]) by {
        assert(key != (oracle_address(), price_slot_of(a)));
        assert(key != (oracle_address(), packed_slot_of(a)));
        assert(before.contains_key(key) == m0.contains_key(key));
    }
}

/// Applying the next asset of a snapshot extends the applied prefix by one.
proof fn lemma_apply_step(m0: StorageMap, before: StorageMap, s: PriceSnapshot, i: int, e: PriceEntry)
    requires
        0 <= i < 6,
        applied_prefix(m0, before, s, i),
        e == applied_entry(stored_entry(m0, all_assets()[i]), s.entries.view()[all_assets()[i]]),
    ensures
        applied_prefix(m0, with_entry(before, all_assets()[i], e), s, i + 1),
{
    let a = all_assets()[i];
    let after = with_entry(before, a, e);
    lemma_entry_roundtrip(before, a, e);
    lemma_with_entry_outside(m0, before, a, e);
    assert forall|j: int| 0 <= j < 6 && j != i implies #[trigger] all_assets()[j] != a by {}
    assert forall|j: int| 0 <= j < 6 && j != i implies stored_entry(after, #[trigger] all_assets()[j])
        == stored_entry(before, all_assets()[j]) && storage_read(
        after,
        oracle_address(),
        price_slot_of(all_assets()[j]),
    ) == storage_read(before, oracle_address(), price_slot_of(all_assets()[j])) && storage_read(
        after,
        oracle_address(),
        packed_slot_of(all_assets()[j]),
    ) == storage_read(before, oracle_address(), packed_slot_of(all_assets()[j])) by {
        lemma_entry_frame(before, a, e, all_assets()[j]);
    }
}

/// Applies an oracle update snapshot to state.
///
/// - `Updated { price, timestamp, confidence }` overwrites price, timestamp, confidence.
/// - `Unavailable` keeps existing price/timestamp, sets confidence to `Unavailable`.
///
/// The snapshot must hold every supported asset (an unsupported asset cannot be
/// a key of the typed map); otherwise the first missing one is reported and
/// nothing is written.
pub fn apply_oracle_update<S: PachiState>(state: &mut S, snapshot: &PriceSnapshot) -> (r: Result<
    (),
    OraclePrecompileError,
>)
    ensures
        !snapshot_complete(*snapshot) ==> final(state).storage() == old(state).storage(),
        !snapshot_complete(*snapshot) ==> reports_first_missing(*snapshot, r),
        snapshot_complete(*snapshot) ==> r is Ok,
        snapshot_complete(*snapshot) ==> snapshot_applied(
            old(state).storage(),
            final(state).storage(),
            *snapshot,
        ),
{
    let all = AssetId::all();
    // Validate: all supported assets present
    let mut k: usize = 0;
    while k < 6
        invariant
            0 <= k <= 6,
            all@ == all_assets(),
            forall|j: int| 0 <= j < k ==> snapshot.entries.view().contains_key(#[trigger] all_assets()[j]),
        decreases 6 - k,
    {
        if !snapshot.entries.contains_key(all[k]) {
            return Err(OraclePrecompileError::MissingAsset(all[k]));
        }
        k += 1;
    }
    proof {
        assert forall|a: AssetId| #[trigger] snapshot.entries.view().contains_key(a) by {
            assert(a == all_assets()[a.code() - 1]);
        }
    }

    // Apply updates, in asset order
    let ghost m0 = state.storage();
    let mut i: usize = 0;
    while i < 6
        invariant
            0 <= i <= 6,
            all@ == all_assets(),
            snapshot_complete(*snapshot),
            applied_prefix(m0, state.storage(), *snapshot, i as int),
        decreases 6 - i,
    {
        let asset = all[i];
        let ghost before = state.storage();
        let entry = match snapshot.entries.get(asset) {
            Some(e) => *e,
            None => {
                assert(false);
                SnapshotEntry::Unavailable
            },
        };
        let new_entry = match entry {
            SnapshotEntry::Updated { price, timestamp, confidence } => {
                PriceEntry { price, timestamp, confidence }
            },
            SnapshotEntry::Unavailable => {
                // Keep price/timestamp, only change confidence to Unavailable
                let existing = PriceEntry::read(state, asset);
                PriceEntry { confidence: Confidence::Unavailable, ..existing }
            },
        };
        assert(stored_entry(before, asset) == stored_entry(m0, asset));
        new_entry.write(state, asset);
        proof {
            lemma_apply_step(m0, before, *snapshot, i as int, new_entry);
        }
        i += 1;
    }
    proof {
        assert forall|a: AssetId|
            stored_entry(state.storage(), a) == #[trigger] applied_entry(
                stored_entry(m0, a),
                snapshot.entries.view()[a],
            ) by {
            assert(a == all_assets()[a.code() - 1]);
        }
    }
    Ok(())
}

} // verus!
