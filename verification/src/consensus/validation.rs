//! Pachi-specific block validation rules.
//!
//! Rules enforced before execution:
//! 1. system transactions (type `0x50`) come after all user transactions;
//! 2. exactly one `OracleUpdate` system transaction exists, and it is last;
//! 3. its snapshot holds every supported asset, and only those;
//! 4. its engine version matches;
//! 5. VRF fulfill transactions come before the `OracleUpdate`.

use vstd::prelude::*;

use crate::consensus::error::PachiConsensusError;
use crate::primitives::asset::{AssetId, all_assets};
use crate::primitives::constants::CURRENT_ENGINE_VERSION;
use crate::primitives::snapshot::{PriceSnapshot, SnapshotEntry, lemma_asset_slot};

verus! {

/// Subtype of a system transaction.
#[derive(Debug, Clone, Copy, PartialEq, Eq, Structural)]
pub enum SystemTxSubtype {
    /// The per-block oracle price update.
    OracleUpdate,
    /// A VRF request fulfillment.
    VrfFulfill,
}

/// What block validation reads of a transaction: whether it is a system
/// transaction, the subtype its input decodes to, and, for an oracle update,
/// the snapshot its payload decodes to.
#[derive(Debug, Clone)]
pub struct BlockTx {
    /// Whether the transaction is of the system type (`0x50`).
    pub is_system: bool,
    /// The decoded system transaction subtype, if the input decodes.
    pub subtype: Option<SystemTxSubtype>,
    /// The decoded oracle snapshot, if the payload decodes.
    pub snapshot: Option<PriceSnapshot>,
}

/// The problem with a snapshot entry, if any: an updated entry needs a
/// non-zero price and a non-zero timestamp.
pub open spec fn entry_problem(e: SnapshotEntry) -> Option<Seq<char>> {
    match e {
        SnapshotEntry::Updated { price, timestamp, .. } => if price@ == 0 {
            Some("zero price in Updated entry"@)
        } else if timestamp == 0 {
            Some("zero timestamp in Updated entry"@)
        } else {
            None
        },
        SnapshotEntry::Unavailable => None,
    }
}

/// `a` is the first asset, in asset order, missing from the snapshot.
pub open spec fn first_missing(s: PriceSnapshot, a: AssetId) -> bool {
    &&& !s.entries.view().contains_key(a)
    &&& forall|b: AssetId| b.code() < a.code() ==> #[trigger] s.entries.view().contains_key(b)
}

/// `a` is the first asset, in asset order, whose entry has a problem.
pub open spec fn first_problem(s: PriceSnapshot, a: AssetId) -> bool {
    &&& entry_problem(s.entries.view()[a]) is Some
    &&& forall|b: AssetId| b.code() < a.code() ==> #[trigger] entry_problem(s.entries.view()[b]) is None
}

/// The verdict on an `OracleUpdate` snapshot: the engine version must match,
/// every supported asset must be present, and every entry must be sound;
/// the first failure in that order is reported.
pub open spec fn oracle_update_verdict(s: PriceSnapshot, r: Result<(), PachiConsensusError>) -> bool {
    if s.engine_version != CURRENT_ENGINE_VERSION {
        r == Err::<(), PachiConsensusError>(
            PachiConsensusError::EngineVersionMismatch { expected: CURRENT_ENGINE_VERSION, got: s.engine_version },
        )
    } else if !(forall|a: AssetId| #[trigger] s.entries.view().contains_key(a)) {
        r matches Err(PachiConsensusError::MissingAsset(a)) && first_missing(s, a)
    } else if exists|a: AssetId| #[trigger] entry_problem(s.entries.view()[a]) is Some {
        &&& r matches Err(PachiConsensusError::InvalidAssetPrice { asset, reason })
        &&& first_problem(s, asset)
        &&& reason@ == entry_problem(s.entries.view()[asset])->0
    } else {
        r is Ok
    }
}

/// Validates a single snapshot entry: an updated entry needs a non-zero price
/// and a non-zero timestamp.
fn validate_snapshot_entry(asset: AssetId, entry: &SnapshotEntry) -> (r: Result<(), PachiConsensusError>)
    ensures
        match entry_problem(*entry) {
            None => r is Ok,
            Some(msg) => r matches Err(PachiConsensusError::InvalidAssetPrice { asset: a, reason })
                && a == asset && reason@ == msg,
        },
{
    match entry {
        SnapshotEntry::Updated { price, timestamp, .. } => {
            if price.is_zero() {
                return Err(
                    PachiConsensusError::InvalidAssetPrice { asset, reason: "zero price in Updated entry" },
                );
            }
            if *timestamp == 0 {
                return Err(
                    PachiConsensusError::InvalidAssetPrice { asset, reason: "zero timestamp in Updated entry" },
                );
            }
            Ok(())
        },
        SnapshotEntry::Unavailable => Ok(()),
    }
}

/// Validates the snapshot of an `OracleUpdate` system transaction.
pub fn validate_oracle_update(snapshot: &PriceSnapshot) -> (r: Result<(), PachiConsensusError>)
    ensures
        oracle_update_verdict(*snapshot, r),
{
    if snapshot.engine_version != CURRENT_ENGINE_VERSION {
        return Err(
            PachiConsensusError::EngineVersionMismatch {
                expected: CURRENT_ENGINE_VERSION,
                got: snapshot.engine_version,
            },
        );
    }
    let assets = AssetId::all();
    let mut i: usize = 0;
    while i < 6
        invariant
            0 <= i <= 6,
            assets@ == all_assets(),
            snapshot.engine_version == CURRENT_ENGINE_VERSION,
            forall|b: AssetId| b.code() <= i ==> #[trigger] snapshot.entries.view().contains_key(b),
        decreases 6 - i,
    {
        let asset = assets[i];
        proof {
            lemma_asset_slot(i as int);
        }
        if !snapshot.entries.contains_key(asset) {
            assert(forall|b: AssetId| b.code() < asset.code() ==> b.code() <= i);
            assert(first_missing(*snapshot, asset));
            assert(!(forall|a: AssetId| #[trigger] snapshot.entries.view().contains_key(a)));
            return Err(PachiConsensusError::MissingAsset(asset));
        }
        proof {
            assert forall|b: AssetId| b.code() <= i + 1 implies #[trigger] snapshot.entries.view().contains_key(b) by {
                if b.code() == i + 1 {
                    assert(b == asset);
                }
            }
        }
        i += 1;
    }
    assert(forall|b: AssetId| #[trigger] snapshot.entries.view().contains_key(b) ==> b.code() <= 6);
    // Every entry must belong to a supported asset: the map holds no others.
    if snapshot.entries.len() > 6 {
        return Err(PachiConsensusError::UnsupportedAsset(0));
    }
    let mut i: usize = 0;
    while i < 6
        invariant
            0 <= i <= 6,
            assets@ == all_assets(),
            snapshot.engine_version == CURRENT_ENGINE_VERSION,
            forall|b: AssetId| #[trigger] snapshot.entries.view().contains_key(b),
            forall|b: AssetId| b.code() <= i ==> #[trigger] entry_problem(snapshot.entries.view()[b]) is None,
        decreases 6 - i,
    {
        let asset = assets[i];
        proof {
            lemma_asset_slot(i as int);
        }
        let entry = match snapshot.entries.get(asset) {
            Some(e) => e,
            None => {
                return Err(PachiConsensusError::MissingAsset(asset));
            },
        };
        match validate_snapshot_entry(asset, entry) {
            Ok(()) => {},
            Err(e) => {
                assert(forall|b: AssetId| b.code() < asset.code() ==> b.code() <= i);
                assert(*entry == snapshot.entries.view()[asset]);
                assert(entry_problem(snapshot.entries.view()[asset]) is Some);
                assert(first_problem(*snapshot, asset));
                return Err(e);
            },
        }
        proof {
            assert forall|b: AssetId| b.code() <= i + 1 implies #[trigger] entry_problem(snapshot.entries.view()[b]) is None by {
                if b.code() == i + 1 {
                    assert(b == asset);
                }
            }
        }
        i += 1;
    }
    Ok(())
}

/// Whether a transaction is an `OracleUpdate` system transaction.
pub open spec fn is_oracle(t: BlockTx) -> bool {
    t.is_system && t.subtype == Some(SystemTxSubtype::OracleUpdate)
}

/// Whether a transaction is a VRF fulfill system transaction.
pub open spec fn is_vrf(t: BlockTx) -> bool {
    t.is_system && t.subtype == Some(SystemTxSubtype::VrfFulfill)
}

/// The number of `OracleUpdate` system transactions.
pub open spec fn oracle_count(txs: Seq<BlockTx>) -> nat
    decreases txs.len(),
{
    if txs.len() == 0 {
        0
    } else {
        oracle_count(txs.drop_last()) + if is_oracle(txs.last()) {
            1nat
        } else {
            0nat
        }
    }
}

/// `f` is the index of the first system transaction.
pub open spec fn is_first_system(txs: Seq<BlockTx>, f: int) -> bool {
    &&& 0 <= f < txs.len()
    &&& txs[f].is_system
    &&& forall|j: int| 0 <= j < f ==> !(#[trigger] txs[j]).is_system
}

/// `i` is the first user transaction after index `f`.
pub open spec fn is_first_user_after(txs: Seq<BlockTx>, f: int, i: int) -> bool {
    &&& f < i < txs.len()
    &&& !txs[i].is_system
    &&& forall|j: int| f < j < i ==> (#[trigger] txs[j]).is_system
}

/// Whether every transaction from index `f` on is a system transaction.
pub open spec fn system_from(txs: Seq<BlockTx>, f: int) -> bool {
    forall|j: int| f <= j < txs.len() ==> (#[trigger] txs[j]).is_system
}

/// The verdict on transaction ordering: a user transaction after the first
/// system transaction is reported with both indices.
pub open spec fn ordering_verdict(txs: Seq<BlockTx>, r: Result<(), PachiConsensusError>) -> bool {
    &&& (forall|j: int| 0 <= j < txs.len() ==> !(#[trigger] txs[j]).is_system) ==> r is Ok
    &&& forall|f: int| #[trigger] is_first_system(txs, f) ==> {
        &&& system_from(txs, f) ==> r is Ok
        &&& forall|i: int| #[trigger] is_first_user_after(txs, f, i) ==> r == Err::<(), PachiConsensusError>(
            PachiConsensusError::SystemTxBeforeUserTx(f as usize, i as usize),
        )
    }
}

/// `i` is where the VRF ordering check from `start` fails first: a user
/// transaction, or a VRF fulfill after an `OracleUpdate`.
pub open spec fn vrf_failure(txs: Seq<BlockTx>, start: int, i: int) -> bool {
    start <= i < txs.len() && (!txs[i].is_system || (is_vrf(txs[i]) && exists|k: int|
        start <= k < i && #[trigger] is_oracle(txs[k])))
}

/// The verdict of the VRF ordering check from `start`.
pub open spec fn vrf_verdict(txs: Seq<BlockTx>, start: int, r: Result<(), PachiConsensusError>) -> bool {
    &&& (forall|i: int| !#[trigger] vrf_failure(txs, start, i)) ==> r is Ok
    &&& forall|i: int|
        #[trigger] vrf_failure(txs, start, i) && (forall|j: int| start <= j < i ==> !vrf_failure(txs, start, j))
            ==> r == Err::<(), PachiConsensusError>(if !txs[i].is_system {
            PachiConsensusError::SystemTxBeforeUserTx(start as usize, i as usize)
        } else {
            PachiConsensusError::VrfFulfillAfterOracleUpdate { fulfill_idx: i as usize }
        })
}

/// Validates the ordering of system transactions: none may precede a user transaction.
pub fn validate_system_tx_ordering(txs: &[BlockTx]) -> (r: Result<(), PachiConsensusError>)
    ensures
        ordering_verdict(txs@, r),
{
    let mut first: Option<usize> = None;
    let mut i: usize = 0;
    while i < txs.len()
        invariant
            0 <= i <= txs@.len(),
            first is None ==> forall|j: int| 0 <= j < i ==> !(#[trigger] txs@[j]).is_system,
            first matches Some(f) ==> is_first_system(txs@, f as int) && f < i && forall|j: int|
                f <= j < i ==> (#[trigger] txs@[j]).is_system,
        decreases txs@.len() - i,
    {
        if txs[i].is_system {
            if first.is_none() {
                first = Some(i);
            }
        } else {
            match first {
                Some(f) => {
                    proof {
                        assert(is_first_user_after(txs@, f as int, i as int));
                        assert forall|g: int| #[trigger] is_first_system(txs@, g) implies g == f by {
                            if g < f {
                            } else if g > f {
                                assert(txs@[f as int].is_system);
                            }
                        }
                        assert forall|g: int, k: int| is_first_system(txs@, g) && #[trigger] is_first_user_after(txs@, g, k) implies k == i by {
                            if k < i {
                                assert(txs@[k].is_system);
                            } else if k > i {
                                assert(txs@[i as int].is_system);
                            }
                        }
                    }
                    return Err(PachiConsensusError::SystemTxBeforeUserTx(f, i));
                },
                None => {},
            }
        }
        i += 1;
    }
    proof {
        assert forall|g: int| #[trigger] is_first_system(txs@, g) implies system_from(txs@, g) && (forall|k: int| !#[trigger] is_first_user_after(txs@, g, k)) by {
            if let Some(f) = first {
                if g < f {
                } else if g > f {
                    assert(txs@[f as int].is_system);
                }
            }
        }
    }
    Ok(())
}

/// Validates VRF fulfill ordering from the first system transaction on: all
/// are system transactions, and VRF fulfills precede the `OracleUpdate`.
fn validate_vrf_fulfill_ordering_inner(txs: &[BlockTx], system_start: usize) -> (r: Result<(), PachiConsensusError>)
    requires
        system_start <= txs@.len(),
    ensures
        vrf_verdict(txs@, system_start as int, r),
{
    let mut seen_oracle_update = false;
    let mut i: usize = system_start;
    let ghost start = system_start as int;
    while i < txs.len()
        invariant
            start <= i <= txs@.len(),
            system_start as int == start,
            seen_oracle_update == exists|k: int| start <= k < i && #[trigger] is_oracle(txs@[k]),
            forall|j: int| start <= j < i ==> !#[trigger] vrf_failure(txs@, start, j),
        decreases txs@.len() - i,
    {
        let tx = &txs[i];
        if !tx.is_system {
            proof {
                assert(vrf_failure(txs@, start, i as int));
                lemma_first_vrf_failure(txs@, start, i as int);
            }
            return Err(PachiConsensusError::SystemTxBeforeUserTx(system_start, i));
        }
        match tx.subtype {
            Some(SystemTxSubtype::OracleUpdate) => {
                seen_oracle_update = true;
            },
            Some(SystemTxSubtype::VrfFulfill) => {
                if seen_oracle_update {
                    proof {
                        assert(vrf_failure(txs@, start, i as int));
                        lemma_first_vrf_failure(txs@, start, i as int);
                    }
                    return Err(PachiConsensusError::VrfFulfillAfterOracleUpdate { fulfill_idx: i });
                }
            },
            None => {},
        }
        proof {
            assert(!vrf_failure(txs@, start, i as int));
            assert(seen_oracle_update == exists|k: int| start <= k < i + 1 && #[trigger] is_oracle(txs@[k])) by {
                if is_oracle(txs@[i as int]) {
                    assert(start <= i < i + 1);
                }
            }
        }
        i += 1;
    }
    proof {
        assert forall|j: int| !#[trigger] vrf_failure(txs@, start, j) by {
            if start <= j < txs@.len() {
                assert(j < i);
            }
        }
    }
    Ok(())
}

/// The first failure of the VRF ordering check is unique.
proof fn lemma_first_vrf_failure(txs: Seq<BlockTx>, start: int, i: int)
    requires
        vrf_failure(txs, start, i),
        forall|j: int| start <= j < i ==> !#[trigger] vrf_failure(txs, start, j),
    ensures
        forall|k: int|
            #[trigger] vrf_failure(txs, start, k) && (forall|j: int| start <= j < k ==> !vrf_failure(txs, start, j))
                ==> k == i,
{
    assert forall|k: int|
        #[trigger] vrf_failure(txs, start, k) && (forall|j: int| start <= j < k ==> !vrf_failure(txs, start, j))
            implies k == i by {
        if k < i {
            assert(!vrf_failure(txs, start, k));
        } else if k > i {
            assert(!vrf_failure(txs, start, i));
        }
    }
}

/// Validates VRF fulfill ordering: from the first system transaction on, all
/// are system transactions and VRF fulfills precede the `OracleUpdate`.
pub fn validate_vrf_fulfill_ordering(txs: &[BlockTx]) -> (r: Result<(), PachiConsensusError>)
    ensures
        (forall|j: int| 0 <= j < txs@.len() ==> !(#[trigger] txs@[j]).is_system) ==> r is Ok,
        forall|f: int| #[trigger] is_first_system(txs@, f) ==> vrf_verdict(txs@, f, r),
{
    let mut i: usize = 0;
    while i < txs.len()
        invariant
            0 <= i <= txs@.len(),
            forall|j: int| 0 <= j < i ==> !(#[trigger] txs@[j]).is_system,
        decreases txs@.len() - i,
    {
        if txs[i].is_system {
            proof {
                assert(is_first_system(txs@, i as int));
                assert forall|g: int| #[trigger] is_first_system(txs@, g) implies g == i by {
                    if g > i {
                        assert(txs@[i as int].is_system);
                    }
                }
            }
            return validate_vrf_fulfill_ordering_inner(txs, i);
        }
        i += 1;
    }
    Ok(())
}

/// The verdict on a block's transactions: some transaction is needed; then
/// the ordering rule; then exactly one `OracleUpdate`, placed last; then its
/// snapshot, when its payload decodes.
pub open spec fn block_verdict(txs: Seq<BlockTx>, r: Result<(), PachiConsensusError>) -> bool {
    if txs.len() == 0 {
        r == Err::<(), PachiConsensusError>(PachiConsensusError::MissingOracleUpdate)
    } else if exists|f: int, i: int| #[trigger] is_first_system(txs, f) && #[trigger] is_first_user_after(txs, f, i) {
        forall|f: int, i: int| #[trigger] is_first_system(txs, f) && #[trigger] is_first_user_after(txs, f, i)
            ==> r == Err::<(), PachiConsensusError>(PachiConsensusError::SystemTxBeforeUserTx(f as usize, i as usize))
    } else if oracle_count(txs) == 0 {
        r == Err::<(), PachiConsensusError>(PachiConsensusError::MissingOracleUpdate)
    } else if oracle_count(txs) > 1 {
        r == Err::<(), PachiConsensusError>(PachiConsensusError::MultipleOracleUpdates)
    } else if !is_oracle(txs.last()) {
        r == Err::<(), PachiConsensusError>(PachiConsensusError::OracleUpdateNotLast)
    } else {
        match txs.last().snapshot {
            Some(s) => oracle_update_verdict(s, r),
            None => r is Ok,
        }
    }
}

/// Every `OracleUpdate` among the first `n` transactions is counted.
proof fn lemma_oracle_count_prefix(txs: Seq<BlockTx>, n: int)
    requires
        0 <= n < txs.len(),
    ensures
        oracle_count(txs.subrange(0, n + 1)) == oracle_count(txs.subrange(0, n)) + if is_oracle(txs[n]) {
            1nat
        } else {
            0nat
        },
{
    assert(txs.subrange(0, n + 1).drop_last() =~= txs.subrange(0, n));
}

/// An `OracleUpdate` at the last index, counted once, is the only one.
proof fn lemma_single_oracle(txs: Seq<BlockTx>, k: int, n: int)
    requires
        0 <= k < n <= txs.len(),
        is_oracle(txs[k]),
        oracle_count(txs.subrange(0, n)) == 1,
    ensures
        forall|j: int| 0 <= j < n && j != k ==> !#[trigger] is_oracle(txs[j]),
    decreases n,
{
    lemma_oracle_count_prefix(txs, n - 1);
    if n - 1 == k {
        assert forall|j: int| 0 <= j < n && j != k implies !#[trigger] is_oracle(txs[j]) by {
            lemma_count_zero(txs, n - 1, j);
        }
    } else {
        lemma_count_positive(txs, k, n - 1);
        lemma_single_oracle(txs, k, n - 1);
    }
}

/// A prefix holding an `OracleUpdate` counts at least one.
proof fn lemma_count_positive(txs: Seq<BlockTx>, k: int, n: int)
    requires
        0 <= k < n <= txs.len(),
        is_oracle(txs[k]),
    ensures
        oracle_count(txs.subrange(0, n)) >= 1,
    decreases n,
{
    lemma_oracle_count_prefix(txs, n - 1);
    if k < n - 1 {
        lemma_count_positive(txs, k, n - 1);
    }
}

/// A prefix with no `OracleUpdate` counted holds none.
proof fn lemma_count_zero(txs: Seq<BlockTx>, n: int, j: int)
    requires
        0 <= j < n <= txs.len(),
        oracle_count(txs.subrange(0, n)) == 0,
    ensures
        !is_oracle(txs[j]),
    decreases n,
{
    lemma_oracle_count_prefix(txs, n - 1);
    if j < n - 1 {
        lemma_count_zero(txs, n - 1, j);
    }
}

/// Validates Pachi-specific rules on a block's transactions before execution.
pub fn validate_pachi_block_pre_execution(txs: &[BlockTx]) -> (r: Result<(), PachiConsensusError>)
    ensures
        block_verdict(txs@, r),
{
    if txs.len() == 0 {
        return Err(PachiConsensusError::MissingOracleUpdate);
    }
    let mut first_system: Option<usize> = None;
    let mut oracle_update_count: usize = 0;
    let mut oracle_update_idx: Option<usize> = None;
    let mut i: usize = 0;
    assert(txs@.subrange(0, 0) =~= Seq::<BlockTx>::empty());
    while i < txs.len()
        invariant
            0 <= i <= txs@.len(),
            txs@.len() > 0,
            first_system is None ==> forall|j: int| 0 <= j < i ==> !(#[trigger] txs@[j]).is_system,
            first_system matches Some(f) ==> is_first_system(txs@, f as int) && f < i && forall|j: int|
                f <= j < i ==> (#[trigger] txs@[j]).is_system,
            oracle_update_count == oracle_count(txs@.subrange(0, i as int)),
            oracle_update_count <= i,
            oracle_update_idx is None ==> oracle_update_count == 0,
            oracle_update_idx matches Some(k) ==> k < i && is_oracle(txs@[k as int]) && forall|j: int|
                k < j < i ==> !#[trigger] is_oracle(txs@[j]),
        decreases txs@.len() - i,
    {
        proof {
            lemma_oracle_count_prefix(txs@, i as int);
        }
        let tx = &txs[i];
        if tx.is_system {
            if first_system.is_none() {
                first_system = Some(i);
            }
            match tx.subtype {
                Some(SystemTxSubtype::OracleUpdate) => {
                    oracle_update_count += 1;
                    oracle_update_idx = Some(i);
                },
                _ => {},
            }
        } else {
            match first_system {
                Some(f) => {
                    proof {
                        assert(is_first_user_after(txs@, f as int, i as int));
                        assert forall|g: int, k: int| #[trigger] is_first_system(txs@, g) && #[trigger] is_first_user_after(txs@, g, k)
                            implies g == f && k == i by {
                            if g < f {
                            } else if g > f {
                                assert(txs@[f as int].is_system);
                            }
                            if k < i {
                                assert(txs@[k].is_system);
                            } else if k > i {
                                assert(txs@[i as int].is_system);
                            }
                        }
                    }
                    return Err(PachiConsensusError::SystemTxBeforeUserTx(f, i));
                },
                None => {},
            }
        }
        i += 1;
    }
    assert(txs@.subrange(0, txs@.len() as int) =~= txs@);
    proof {
        assert(!exists|f: int, k: int| #[trigger] is_first_system(txs@, f) && #[trigger] is_first_user_after(txs@, f, k)) by {
            assert forall|f: int, k: int| #[trigger] is_first_system(txs@, f) implies !#[trigger] is_first_user_after(txs@, f, k) by {
                if let Some(g) = first_system {
                    if f < g {
                    } else if f > g {
                        assert(txs@[g as int].is_system);
                    }
                }
            }
        }
    }
    if oracle_update_count == 0 {
        return Err(PachiConsensusError::MissingOracleUpdate);
    }
    if oracle_update_count > 1 {
        return Err(PachiConsensusError::MultipleOracleUpdates);
    }
    let last = txs.len() - 1;
    let k = match oracle_update_idx {
        Some(k) => k,
        None => {
            return Err(PachiConsensusError::MissingOracleUpdate);
        },
    };
    if k != last {
        proof {
            lemma_single_oracle(txs@, k as int, txs@.len() as int);
        }
        return Err(PachiConsensusError::OracleUpdateNotLast);
    }
    // The snapshot of the OracleUpdate.
    match &txs[k].snapshot {
        Some(snapshot) => {
            match validate_oracle_update(snapshot) {
                Ok(()) => {},
                Err(e) => {
                    return Err(e);
                },
            }
        },
        None => {},
    }
    // VRF fulfill ordering: the only OracleUpdate is last, so no VRF fulfill follows it.
    match first_system {
        Some(start) => {
            proof {
                lemma_single_oracle(txs@, k as int, txs@.len() as int);
                assert forall|j: int| !#[trigger] vrf_failure(txs@, start as int, j) by {
                    if start <= j < txs@.len() {
                        assert(txs@[j].is_system);
                        if is_vrf(txs@[j]) {
                            assert forall|q: int| start <= q < j implies !#[trigger] is_oracle(txs@[q]) by {}
                        }
                    }
                }
            }
            let v = validate_vrf_fulfill_ordering_inner(txs, start);
            match v {
                Ok(()) => {},
                Err(e) => {
                    return Err(e);
                },
            }
        },
        None => {},
    }
    Ok(())
}

} // verus!
