use pachi::oracle_engine::price_parse::u128_word;
use pachi::oracle_precompile::circuit_breaker::CircuitBreaker;
use pachi::oracle_precompile::error::OraclePrecompileError;
use pachi::oracle_precompile::storage::{
    apply_oracle_update, get_price, get_price_batch, is_supported, PriceEntry,
};
use pachi::primitives::asset::AssetId;
use pachi::primitives::confidence::Confidence;
use pachi::primitives::constants::MAX_PRICE_AGE;
use pachi::primitives::snapshot::{AssetMap, PriceSnapshot, SnapshotEntry};
use pachi::state::MockState;
use pachi::word::U256;

fn w(v: u128) -> U256 {
    u128_word(v)
}

fn btc_price() -> U256 {
    w(50_000_00000000) // $50,000.00
}

fn eth_price() -> U256 {
    w(3_000_00000000) // $3,000.00
}

fn full_snapshot(price: U256, timestamp: u64) -> PriceSnapshot {
    let mut entries = AssetMap::new();
    for asset in AssetId::all() {
        entries.insert(asset, SnapshotEntry::Updated { price, timestamp, confidence: Confidence::High });
    }
    PriceSnapshot { entries, engine_version: 1 }
}

// ---- circuit breaker ----

#[test]
fn empty_window_never_triggers() {
    let cb = CircuitBreaker::new();
    assert!(!cb.is_triggered(w(50_000_00000000)));
}

#[test]
fn small_move_does_not_trigger() {
    let mut cb = CircuitBreaker::new();
    let base: u128 = 50_000_00000000; // $50,000
    cb.record(w(base), 1);

    // 5% move (below 10% threshold)
    let new_price = base + base * 500 / 10_000;
    assert!(!cb.is_triggered(w(new_price)));
}

#[test]
fn large_move_triggers() {
    let mut cb = CircuitBreaker::new();
    let base: u128 = 50_000_00000000;
    cb.record(w(base), 1);

    // 15% move (above 10% threshold)
    let new_price = base + base * 1_500 / 10_000;
    assert!(cb.is_triggered(w(new_price)));
}

#[test]
fn large_drop_triggers() {
    let mut cb = CircuitBreaker::new();
    let base: u128 = 50_000_00000000;
    cb.record(w(base), 1);

    // -12% move
    let new_price = base - base * 1_200 / 10_000;
    assert!(cb.is_triggered(w(new_price)));
}

#[test]
fn exactly_ten_percent_does_not_trigger() {
    let mut cb = CircuitBreaker::new();
    cb.record(w(100_000), 1);
    assert!(!cb.is_triggered(w(110_000)));
    assert!(cb.is_triggered(w(110_011)));
}

#[test]
fn window_slides() {
    let mut cb = CircuitBreaker::new();
    let base: u128 = 100_00000000; // $100

    for i in 0..5 {
        cb.record(w(base), i);
    }
    assert_eq!(cb.len(), 5);

    let mut price = base;
    for i in 5..10 {
        price += price * 150 / 10_000;
        cb.record(w(price), i);
    }

    assert_eq!(cb.len(), 5);
    let next = price + price * 150 / 10_000;
    assert!(!cb.is_triggered(w(next)));
}

#[test]
fn apply_degrades_confidence() {
    let mut cb = CircuitBreaker::new();
    let base: u128 = 50_000_00000000;
    cb.record(w(base), 1);

    let spike = base * 2; // 100% move
    assert_eq!(cb.apply(w(spike), Confidence::High), Confidence::Degraded);
}

#[test]
fn apply_preserves_confidence_on_small_move() {
    let mut cb = CircuitBreaker::new();
    let base: u128 = 50_000_00000000;
    cb.record(w(base), 1);

    let small_move = base + 100_00000000; // ~0.2%
    assert_eq!(cb.apply(w(small_move), Confidence::High), Confidence::High);
}

#[test]
fn zero_price_does_not_trigger() {
    let mut cb = CircuitBreaker::new();
    cb.record(w(100), 1);
    assert!(!cb.is_triggered(U256::zero()));
}

#[test]
fn zero_ref_price_skipped() {
    let mut cb = CircuitBreaker::new();
    cb.record(U256::zero(), 1);
    assert!(!cb.is_triggered(w(50_000_00000000)));
}

// ---- storage ----

#[test]
fn write_and_read_price_entry() {
    let mut state = MockState::new();
    let entry = PriceEntry { price: btc_price(), timestamp: 1_000_000, confidence: Confidence::High };
    entry.write(&mut state, AssetId::BTC);

    let read = PriceEntry::read(&state, AssetId::BTC);
    assert_eq!(read, entry);
}

#[test]
fn pack_unpack_timestamp_confidence() {
    for conf in [Confidence::High, Confidence::Medium, Confidence::Degraded, Confidence::Unavailable] {
        let ts = 1_710_000_000u64;
        let packed = PriceEntry::pack_timestamp_confidence(ts, conf);
        let (ts2, conf2) = PriceEntry::unpack_timestamp_confidence(packed);
        assert_eq!(ts, ts2);
        assert_eq!(conf, conf2);
    }
}

#[test]
fn packed_layout_puts_confidence_above_timestamp() {
    let packed = PriceEntry::pack_timestamp_confidence(7, Confidence::Degraded);
    assert_eq!(packed, U256 { l0: 7, l1: 2, l2: 0, l3: 0 });
    assert_eq!(PriceEntry::price_slot(AssetId::ETH), U256::from(4u64));
    assert_eq!(PriceEntry::packed_slot(AssetId::ETH), U256::from(5u64));
}

#[test]
fn unknown_confidence_byte_reads_unavailable() {
    let (ts, conf) = PriceEntry::unpack_timestamp_confidence(U256 { l0: 9, l1: 0x17, l2: 0, l3: 0 });
    assert_eq!(ts, 9);
    assert_eq!(conf, Confidence::Unavailable);
}

#[test]
fn get_price_unsupported_asset() {
    let state = MockState::new();
    let err = get_price(&state, 0xFF, 1_000_000).unwrap_err();
    assert!(matches!(err, OraclePrecompileError::UnsupportedAsset { asset_id: 0xFF }));
}

#[test]
fn get_price_never_set_returns_zeros_unavailable() {
    let state = MockState::new();
    let (price, ts, conf) = get_price(&state, AssetId::BTC.as_u8(), 1_000_000).unwrap();
    assert_eq!(price, U256::zero());
    assert_eq!(ts, 0);
    assert_eq!(conf, Confidence::Unavailable);
}

#[test]
fn get_price_fresh() {
    let mut state = MockState::new();
    let entry = PriceEntry { price: btc_price(), timestamp: 1_000_000, confidence: Confidence::High };
    entry.write(&mut state, AssetId::BTC);

    let (price, ts, conf) = get_price(&state, AssetId::BTC.as_u8(), 1_000_000 + MAX_PRICE_AGE - 1).unwrap();
    assert_eq!(price, btc_price());
    assert_eq!(ts, 1_000_000);
    assert_eq!(conf, Confidence::High);
}

#[test]
fn get_price_stale_degrades() {
    let mut state = MockState::new();
    let entry = PriceEntry { price: btc_price(), timestamp: 1_000_000, confidence: Confidence::High };
    entry.write(&mut state, AssetId::BTC);

    let (price, ts, conf) = get_price(&state, AssetId::BTC.as_u8(), 1_000_000 + MAX_PRICE_AGE + 1).unwrap();
    assert_eq!(price, btc_price());
    assert_eq!(ts, 1_000_000);
    assert_eq!(conf, Confidence::Degraded);
}

#[test]
fn get_price_stale_does_not_improve_unavailable() {
    let mut state = MockState::new();
    let entry =
        PriceEntry { price: btc_price(), timestamp: 1_000_000, confidence: Confidence::Unavailable };
    entry.write(&mut state, AssetId::BTC);

    let (_, _, conf) = get_price(&state, AssetId::BTC.as_u8(), 1_000_000 + MAX_PRICE_AGE + 1).unwrap();
    assert_eq!(conf, Confidence::Unavailable);
}

#[test]
fn get_price_batch_success() {
    let mut state = MockState::new();
    PriceEntry { price: btc_price(), timestamp: 1_000, confidence: Confidence::High }
        .write(&mut state, AssetId::BTC);
    PriceEntry { price: eth_price(), timestamp: 1_000, confidence: Confidence::Medium }
        .write(&mut state, AssetId::ETH);

    let results = get_price_batch(&state, &[AssetId::BTC.as_u8(), AssetId::ETH.as_u8()], 1_000 + 10).unwrap();
    assert_eq!(results.len(), 2);
    assert_eq!(results[0].0, btc_price());
    assert_eq!(results[0].2, Confidence::High);
    assert_eq!(results[1].0, eth_price());
    assert_eq!(results[1].2, Confidence::Medium);
}

#[test]
fn get_price_batch_with_unsupported() {
    let state = MockState::new();
    let err = get_price_batch(&state, &[0x01, 0xFF], 1_000).unwrap_err();
    assert!(matches!(err, OraclePrecompileError::UnsupportedAsset { asset_id: 0xFF }));
}

#[test]
fn is_supported_valid() {
    assert!(is_supported(0x01));
    assert!(is_supported(0x06));
}

#[test]
fn is_supported_invalid() {
    assert!(!is_supported(0x00));
    assert!(!is_supported(0x07));
    assert!(!is_supported(0xFF));
}

#[test]
fn apply_oracle_update_full() {
    let mut state = MockState::new();
    let snapshot = full_snapshot(btc_price(), 1_000);

    apply_oracle_update(&mut state, &snapshot).unwrap();

    for asset in AssetId::all() {
        let entry = PriceEntry::read(&state, asset);
        assert_eq!(entry.price, btc_price());
        assert_eq!(entry.timestamp, 1_000);
        assert_eq!(entry.confidence, Confidence::High);
    }
}

#[test]
fn apply_oracle_update_unavailable_keeps_price() {
    let mut state = MockState::new();

    let snapshot1 = full_snapshot(btc_price(), 1_000);
    apply_oracle_update(&mut state, &snapshot1).unwrap();

    let mut entries = AssetMap::new();
    for asset in AssetId::all() {
        if asset == AssetId::BTC {
            entries.insert(asset, SnapshotEntry::Unavailable);
        } else {
            entries.insert(
                asset,
                SnapshotEntry::Updated { price: eth_price(), timestamp: 2_000, confidence: Confidence::High },
            );
        }
    }
    let snapshot2 = PriceSnapshot { entries, engine_version: 1 };
    apply_oracle_update(&mut state, &snapshot2).unwrap();

    let btc = PriceEntry::read(&state, AssetId::BTC);
    assert_eq!(btc.price, btc_price());
    assert_eq!(btc.timestamp, 1_000);
    assert_eq!(btc.confidence, Confidence::Unavailable);
}

#[test]
fn apply_oracle_update_missing_asset() {
    let mut state = MockState::new();
    let mut entries = AssetMap::new();
    entries.insert(
        AssetId::BTC,
        SnapshotEntry::Updated { price: btc_price(), timestamp: 1_000, confidence: Confidence::High },
    );
    let snapshot = PriceSnapshot { entries, engine_version: 1 };
    let err = apply_oracle_update(&mut state, &snapshot).unwrap_err();
    assert!(matches!(err, OraclePrecompileError::MissingAsset(_)));
}

#[test]
fn apply_oracle_update_missing_asset_writes_nothing() {
    let mut state = MockState::new();
    let mut entries = AssetMap::new();
    entries.insert(
        AssetId::BTC,
        SnapshotEntry::Updated { price: btc_price(), timestamp: 1_000, confidence: Confidence::High },
    );
    let snapshot = PriceSnapshot { entries, engine_version: 1 };
    assert!(apply_oracle_update(&mut state, &snapshot).is_err());
    let (price, _, conf) = get_price(&state, AssetId::BTC.as_u8(), 1_000).unwrap();
    assert_eq!(price, U256::zero());
    assert_eq!(conf, Confidence::Unavailable);
}

#[test]
fn apply_multiple_updates_overwrites() {
    let mut state = MockState::new();
    let snap1 = full_snapshot(btc_price(), 1_000);
    apply_oracle_update(&mut state, &snap1).unwrap();

    let new_price = w(55_000_00000000);
    let snap2 = full_snapshot(new_price, 2_000);
    apply_oracle_update(&mut state, &snap2).unwrap();

    let entry = PriceEntry::read(&state, AssetId::BTC);
    assert_eq!(entry.price, new_price);
    assert_eq!(entry.timestamp, 2_000);
}

#[test]
fn genesis_state_all_zeros_unavailable() {
    let state = MockState::new();
    for asset in AssetId::all() {
        let (price, ts, conf) = get_price(&state, asset.as_u8(), 100).unwrap();
        assert_eq!(price, U256::zero());
        assert_eq!(ts, 0);
        assert_eq!(conf, Confidence::Unavailable);
    }
}

#[test]
fn huge_move_triggers_without_wrapping() {
    let mut cb = CircuitBreaker::new();
    cb.record(U256::from(1u64), 1);
    // floor(2^256 / 10000) + 2: the move times 10000 exceeds 2^256.
    let new_price = U256 {
        l0: 0x4a2339c0ebedfa45,
        l1: 0x25460aa64c2f837b,
        l2: 0x295e9e1b089a0275,
        l3: 0x68db8bac710cb,
    };
    assert!(cb.is_triggered(new_price));
}
