use pachi::consensus::error::PachiConsensusError;
use pachi::consensus::validation::{
    validate_oracle_update, validate_pachi_block_pre_execution, validate_system_tx_ordering,
    validate_vrf_fulfill_ordering, BlockTx, SystemTxSubtype,
};
use pachi::primitives::asset::AssetId;
use pachi::primitives::confidence::Confidence;
use pachi::primitives::constants::CURRENT_ENGINE_VERSION;
use pachi::primitives::snapshot::{AssetMap, PriceSnapshot, SnapshotEntry};
use pachi::word::U256;

fn updated(price: u64, timestamp: u64, confidence: Confidence) -> SnapshotEntry {
    SnapshotEntry::Updated { price: U256::from(price), timestamp, confidence }
}

#[test]
fn valid_oracle_update() {
    let mut entries = AssetMap::new();
    for asset in AssetId::all() {
        entries.insert(asset, updated(100_000_000, 1000, Confidence::High));
    }
    let snapshot = PriceSnapshot { entries, engine_version: CURRENT_ENGINE_VERSION };
    assert!(validate_oracle_update(&snapshot).is_ok());
}

#[test]
fn all_unavailable_is_valid() {
    let snapshot = PriceSnapshot::all_unavailable(CURRENT_ENGINE_VERSION);
    assert!(validate_oracle_update(&snapshot).is_ok());
}

#[test]
fn wrong_engine_version_rejected() {
    let snapshot = PriceSnapshot::all_unavailable(99);
    let err = validate_oracle_update(&snapshot).unwrap_err();
    assert!(matches!(err, PachiConsensusError::EngineVersionMismatch { .. }));
}

#[test]
fn missing_asset_rejected() {
    let mut entries = AssetMap::new();
    for asset in &AssetId::all()[..5] {
        entries.insert(*asset, SnapshotEntry::Unavailable);
    }
    let snapshot = PriceSnapshot { entries, engine_version: CURRENT_ENGINE_VERSION };
    let err = validate_oracle_update(&snapshot).unwrap_err();
    assert!(matches!(err, PachiConsensusError::MissingAsset(_)));
}

#[test]
fn zero_price_updated_rejected() {
    let mut entries = AssetMap::new();
    entries.insert(AssetId::BTC, updated(0, 1000, Confidence::High));
    for asset in &AssetId::all()[1..] {
        entries.insert(*asset, SnapshotEntry::Unavailable);
    }
    let snapshot = PriceSnapshot { entries, engine_version: CURRENT_ENGINE_VERSION };
    let err = validate_oracle_update(&snapshot).unwrap_err();
    assert!(matches!(err, PachiConsensusError::InvalidAssetPrice { .. }));
}

#[test]
fn zero_timestamp_updated_rejected() {
    let mut entries = AssetMap::new();
    entries.insert(AssetId::BTC, updated(100, 0, Confidence::High));
    for asset in &AssetId::all()[1..] {
        entries.insert(*asset, SnapshotEntry::Unavailable);
    }
    let snapshot = PriceSnapshot { entries, engine_version: CURRENT_ENGINE_VERSION };
    let err = validate_oracle_update(&snapshot).unwrap_err();
    assert!(matches!(err, PachiConsensusError::InvalidAssetPrice { .. }));
}

#[test]
fn mixed_updated_and_unavailable_valid() {
    let mut entries = AssetMap::new();
    entries.insert(AssetId::BTC, updated(5_000_000_000_000, 1000, Confidence::High));
    entries.insert(AssetId::ETH, SnapshotEntry::Unavailable);
    entries.insert(AssetId::SOL, updated(10_000_000_000, 1000, Confidence::Degraded));
    entries.insert(AssetId::USDC, SnapshotEntry::Unavailable);
    entries.insert(AssetId::USDT, SnapshotEntry::Unavailable);
    entries.insert(AssetId::DAI, SnapshotEntry::Unavailable);
    let snapshot = PriceSnapshot { entries, engine_version: CURRENT_ENGINE_VERSION };
    assert!(validate_oracle_update(&snapshot).is_ok());
}

// ---- block-level checks ----

fn user_tx() -> BlockTx {
    BlockTx { is_system: false, subtype: None, snapshot: None }
}

fn vrf_tx() -> BlockTx {
    BlockTx { is_system: true, subtype: Some(SystemTxSubtype::VrfFulfill), snapshot: None }
}

fn oracle_tx() -> BlockTx {
    BlockTx {
        is_system: true,
        subtype: Some(SystemTxSubtype::OracleUpdate),
        snapshot: Some(PriceSnapshot::all_unavailable(CURRENT_ENGINE_VERSION)),
    }
}

#[test]
fn empty_block_misses_oracle_update() {
    assert_eq!(validate_pachi_block_pre_execution(&[]), Err(PachiConsensusError::MissingOracleUpdate));
}

#[test]
fn well_formed_block_passes() {
    let txs = [user_tx(), user_tx(), vrf_tx(), oracle_tx()];
    assert_eq!(validate_pachi_block_pre_execution(&txs), Ok(()));
}

#[test]
fn user_tx_after_system_tx_rejected() {
    let txs = [user_tx(), vrf_tx(), user_tx(), oracle_tx()];
    assert_eq!(
        validate_pachi_block_pre_execution(&txs),
        Err(PachiConsensusError::SystemTxBeforeUserTx(1, 2))
    );
    assert_eq!(validate_system_tx_ordering(&txs), Err(PachiConsensusError::SystemTxBeforeUserTx(1, 2)));
}

#[test]
fn two_oracle_updates_rejected() {
    let txs = [user_tx(), oracle_tx(), oracle_tx()];
    assert_eq!(validate_pachi_block_pre_execution(&txs), Err(PachiConsensusError::MultipleOracleUpdates));
}

#[test]
fn oracle_update_must_be_last() {
    let txs = [user_tx(), oracle_tx(), vrf_tx()];
    assert_eq!(validate_pachi_block_pre_execution(&txs), Err(PachiConsensusError::OracleUpdateNotLast));
}

#[test]
fn vrf_after_oracle_update_rejected() {
    let txs = [user_tx(), oracle_tx(), vrf_tx()];
    assert_eq!(
        validate_vrf_fulfill_ordering(&txs),
        Err(PachiConsensusError::VrfFulfillAfterOracleUpdate { fulfill_idx: 2 })
    );
}

#[test]
fn bad_snapshot_in_block_rejected() {
    let mut bad = oracle_tx();
    bad.snapshot = Some(PriceSnapshot::all_unavailable(7));
    let txs = [user_tx(), bad];
    assert_eq!(
        validate_pachi_block_pre_execution(&txs),
        Err(PachiConsensusError::EngineVersionMismatch { expected: CURRENT_ENGINE_VERSION, got: 7 })
    );
}

#[test]
fn user_only_block_passes_ordering() {
    let txs = [user_tx(), user_tx()];
    assert_eq!(validate_system_tx_ordering(&txs), Ok(()));
    assert_eq!(validate_vrf_fulfill_ordering(&txs), Ok(()));
}

#[test]
fn consensus_error_messages() {
    assert_eq!(PachiConsensusError::MissingAsset(AssetId::SOL).message(), "missing asset SOL in OracleUpdate");
    assert_eq!(PachiConsensusError::UnsupportedAsset(0).message(), "unsupported asset ID 0x00 in OracleUpdate");
    assert_eq!(
        PachiConsensusError::SystemTxBeforeUserTx(1, 2).message(),
        "system transaction at index 1 appears before user transactions end at 2"
    );
    assert_eq!(
        PachiConsensusError::EngineVersionMismatch { expected: 1, got: 99 }.message(),
        "engine version mismatch: expected 1, got 99"
    );
    let mut entries = AssetMap::new();
    entries.insert(AssetId::BTC, updated(0, 1000, Confidence::High));
    for asset in &AssetId::all()[1..] {
        entries.insert(*asset, SnapshotEntry::Unavailable);
    }
    let snapshot = PriceSnapshot { entries, engine_version: CURRENT_ENGINE_VERSION };
    assert_eq!(
        validate_oracle_update(&snapshot).unwrap_err().message(),
        "invalid price for asset BTC: zero price in Updated entry"
    );
}
