use pachi::oracle_engine::aggregator::Aggregator;
use pachi::oracle_engine::engine::OracleEngine;
use pachi::oracle_engine::price_parse::{parse_price_checked, parse_price_str, u128_word};
use pachi::oracle_engine::source::{
    build_subscribe_message, map_binance_symbol, map_kraken_pair, next_backoff_millis, parse_binance,
    parse_bybit, parse_coinbase, parse_kraken, parse_message, parse_okx, PriceUpdate, Source, SourceId,
    SourceMessage, INITIAL_BACKOFF_MILLIS,
};
use pachi::primitives::asset::AssetId;
use pachi::primitives::confidence::Confidence;
use pachi::primitives::constants::CURRENT_ENGINE_VERSION;
use pachi::primitives::snapshot::{AssetState, SnapshotEntry};
use pachi::word::U256;
use std::time::Duration;

fn make_update(source: SourceId, asset: AssetId, price: u64, timestamp: u64) -> PriceUpdate {
    PriceUpdate { source, asset, price: U256::from(price), timestamp }
}

// ---- aggregator ----

#[test]
fn no_data_returns_unavailable() {
    let agg = Aggregator::new();
    assert_eq!(agg.aggregate(AssetId::BTC, 100), AssetState::Unavailable);
}

#[test]
fn stale_data_filtered() {
    let mut agg = Aggregator::new();
    agg.update(&make_update(SourceId::Binance, AssetId::BTC, 5_000_000_000_000, 80));
    assert_eq!(agg.aggregate(AssetId::BTC, 100), AssetState::Unavailable);
}

#[test]
fn single_source_degraded() {
    let mut agg = Aggregator::new();
    agg.update(&make_update(SourceId::Binance, AssetId::BTC, 5_000_000_000_000, 99));
    let result = agg.aggregate(AssetId::BTC, 100);
    match result {
        AssetState::Available { price, confidence, .. } => {
            assert_eq!(price, U256::from(5_000_000_000_000u64));
            assert_eq!(confidence, Confidence::Degraded);
        }
        _ => panic!("expected Available"),
    }
}

#[test]
fn two_sources_degraded() {
    let mut agg = Aggregator::new();
    agg.update(&make_update(SourceId::Binance, AssetId::BTC, 5_000_000_000_000, 99));
    agg.update(&make_update(SourceId::Coinbase, AssetId::BTC, 5_000_100_000_000, 99));
    let result = agg.aggregate(AssetId::BTC, 100);
    match result {
        AssetState::Available { confidence, .. } => {
            assert_eq!(confidence, Confidence::Degraded);
        }
        _ => panic!("expected Available"),
    }
}

#[test]
fn three_sources_high_confidence() {
    let mut agg = Aggregator::new();
    let base = 5_000_000_000_000u64; // $50,000
    agg.update(&make_update(SourceId::Binance, AssetId::BTC, base, 99));
    agg.update(&make_update(SourceId::Coinbase, AssetId::BTC, base + 100_000, 99));
    agg.update(&make_update(SourceId::Okx, AssetId::BTC, base + 200_000, 99));
    let result = agg.aggregate(AssetId::BTC, 100);
    match result {
        AssetState::Available { price, confidence, .. } => {
            assert_eq!(price, U256::from(base + 100_000));
            assert_eq!(confidence, Confidence::High);
        }
        _ => panic!("expected Available"),
    }
}

#[test]
fn five_sources_outlier_trimmed() {
    let mut agg = Aggregator::new();
    let base = 5_000_000_000_000u64;
    agg.update(&make_update(SourceId::Binance, AssetId::BTC, base - 500_000_000_000, 99));
    agg.update(&make_update(SourceId::Coinbase, AssetId::BTC, base, 99));
    agg.update(&make_update(SourceId::Okx, AssetId::BTC, base + 100_000, 99));
    agg.update(&make_update(SourceId::Bybit, AssetId::BTC, base + 200_000, 99));
    agg.update(&make_update(SourceId::Kraken, AssetId::BTC, base + 500_000_000_000, 99));

    let result = agg.aggregate(AssetId::BTC, 100);
    match result {
        AssetState::Available { price, .. } => {
            assert_eq!(price, U256::from(base + 100_000));
        }
        _ => panic!("expected Available"),
    }
}

#[test]
fn medium_confidence_spread() {
    let mut agg = Aggregator::new();
    let base = 100_000_000u64; // $1.00
    agg.update(&make_update(SourceId::Binance, AssetId::USDC, base - 100_000, 99));
    agg.update(&make_update(SourceId::Coinbase, AssetId::USDC, base, 99));
    agg.update(&make_update(SourceId::Okx, AssetId::USDC, base + 100_000, 99));

    let result = agg.aggregate(AssetId::USDC, 100);
    match result {
        AssetState::Available { confidence, .. } => {
            assert_eq!(confidence, Confidence::Medium);
        }
        _ => panic!("expected Available"),
    }
}

#[test]
fn clear_source_removes_data() {
    let mut agg = Aggregator::new();
    agg.update(&make_update(SourceId::Binance, AssetId::BTC, 5_000_000_000_000, 99));
    agg.update(&make_update(SourceId::Coinbase, AssetId::BTC, 5_000_000_000_000, 99));
    assert!(matches!(agg.aggregate(AssetId::BTC, 100), AssetState::Available { .. }));

    agg.clear_source(SourceId::Binance.as_u8());
    agg.clear_source(SourceId::Coinbase.as_u8());
    assert_eq!(agg.aggregate(AssetId::BTC, 100), AssetState::Unavailable);
}

#[test]
fn newer_timestamp_overwrites() {
    let mut agg = Aggregator::new();
    agg.update(&make_update(SourceId::Binance, AssetId::BTC, 100, 90));
    agg.update(&make_update(SourceId::Binance, AssetId::BTC, 200, 95));
    agg.update(&make_update(SourceId::Binance, AssetId::BTC, 50, 89));

    let result = agg.aggregate(AssetId::BTC, 100);
    match result {
        AssetState::Available { price, .. } => {
            assert_eq!(price, U256::from(200u64));
        }
        _ => panic!("expected Available"),
    }
}

#[test]
fn aggregate_all_covers_all_assets() {
    let agg = Aggregator::new();
    let result = agg.aggregate_all(100);
    assert_eq!(result.len(), AssetId::all().len());
    for asset in AssetId::all() {
        assert_eq!(result.get(asset), Some(&AssetState::Unavailable));
    }
}

#[test]
fn staleness_at_exact_boundary_is_fresh() {
    let mut agg = Aggregator::new();
    agg.update(&make_update(SourceId::Binance, AssetId::BTC, 5_000_000_000_000, 90));
    let result = agg.aggregate(AssetId::BTC, 100);
    assert!(matches!(result, AssetState::Available { .. }));
}

#[test]
fn staleness_one_past_boundary_is_stale() {
    let mut agg = Aggregator::new();
    agg.update(&make_update(SourceId::Binance, AssetId::BTC, 5_000_000_000_000, 89));
    assert_eq!(agg.aggregate(AssetId::BTC, 100), AssetState::Unavailable);
}

#[test]
fn large_spread_is_degraded() {
    let mut agg = Aggregator::new();
    let base = 100_000_000u64; // $1.00
    agg.update(&make_update(SourceId::Binance, AssetId::USDC, base - 300_000, 99));
    agg.update(&make_update(SourceId::Coinbase, AssetId::USDC, base, 99));
    agg.update(&make_update(SourceId::Okx, AssetId::USDC, base + 300_000, 99));

    let result = agg.aggregate(AssetId::USDC, 100);
    match result {
        AssetState::Available { confidence, .. } => {
            assert_eq!(confidence, Confidence::Degraded);
        }
        _ => panic!("expected Available"),
    }
}

#[test]
fn four_sources_no_outlier_trim() {
    let mut agg = Aggregator::new();
    let base = 5_000_000_000_000u64;
    agg.update(&make_update(SourceId::Binance, AssetId::BTC, base, 99));
    agg.update(&make_update(SourceId::Coinbase, AssetId::BTC, base + 100_000, 99));
    agg.update(&make_update(SourceId::Okx, AssetId::BTC, base + 200_000, 99));
    agg.update(&make_update(SourceId::Bybit, AssetId::BTC, base + 300_000, 99));

    let result = agg.aggregate(AssetId::BTC, 100);
    match result {
        AssetState::Available { price, .. } => {
            assert_eq!(price, U256::from(base + 200_000));
        }
        _ => panic!("expected Available"),
    }
}

#[test]
fn aggregate_ignores_update_order() {
    let base = 5_000_000_000_000u64;
    let updates = [
        make_update(SourceId::Binance, AssetId::BTC, base + 300_000, 99),
        make_update(SourceId::Coinbase, AssetId::BTC, base, 99),
        make_update(SourceId::Okx, AssetId::BTC, base + 100_000, 99),
    ];
    let mut forward = Aggregator::new();
    for u in updates.iter() {
        forward.update(u);
    }
    let mut backward = Aggregator::new();
    for u in updates.iter().rev() {
        backward.update(u);
    }
    assert_eq!(forward.aggregate(AssetId::BTC, 100), backward.aggregate(AssetId::BTC, 100));
}

// ---- engine ----

#[test]
fn initial_snapshot_all_unavailable() {
    let engine = OracleEngine::new();
    let snapshot = engine.generate_snapshot();
    assert_eq!(snapshot.engine_version, CURRENT_ENGINE_VERSION);
    assert_eq!(snapshot.entries.len(), AssetId::all().len());
    for asset in AssetId::all() {
        assert_eq!(snapshot.entries.get(asset), Some(&SnapshotEntry::Unavailable));
    }
}

#[test]
fn inject_updates_and_aggregate() {
    let mut engine = OracleEngine::new();
    let ts = 1000u64;
    let base = 5_000_000_000_000u64; // $50,000

    engine.inject_update(&make_update(SourceId::Binance, AssetId::BTC, base, ts));
    engine.inject_update(&make_update(SourceId::Coinbase, AssetId::BTC, base + 100_000, ts));
    engine.inject_update(&make_update(SourceId::Okx, AssetId::BTC, base + 200_000, ts));

    engine.trigger_aggregation_at(ts + 1);

    let state = engine.get_asset_state(AssetId::BTC);
    match state {
        AssetState::Available { price, confidence, .. } => {
            assert_eq!(price, U256::from(base + 100_000)); // median
            assert_eq!(confidence, Confidence::High);
        }
        _ => panic!("expected Available"),
    }
}

#[test]
fn snapshot_reflects_aggregated_state() {
    let mut engine = OracleEngine::new();
    let ts = 1000u64;
    let btc_price = 5_000_000_000_000u64;
    let eth_price = 300_000_000_000u64;

    engine.inject_update(&make_update(SourceId::Binance, AssetId::BTC, btc_price, ts));
    engine.inject_update(&make_update(SourceId::Coinbase, AssetId::BTC, btc_price, ts));
    engine.inject_update(&make_update(SourceId::Okx, AssetId::BTC, btc_price, ts));

    engine.inject_update(&make_update(SourceId::Binance, AssetId::ETH, eth_price, ts));
    engine.inject_update(&make_update(SourceId::Coinbase, AssetId::ETH, eth_price, ts));
    engine.inject_update(&make_update(SourceId::Okx, AssetId::ETH, eth_price, ts));

    engine.trigger_aggregation_at(ts + 1);

    let snapshot = engine.generate_snapshot();
    assert_eq!(snapshot.engine_version, CURRENT_ENGINE_VERSION);

    match snapshot.entries.get(AssetId::BTC) {
        Some(SnapshotEntry::Updated { price, confidence, .. }) => {
            assert_eq!(*price, U256::from(btc_price));
            assert_eq!(*confidence, Confidence::High);
        }
        _ => panic!("expected Updated for BTC"),
    }

    match snapshot.entries.get(AssetId::ETH) {
        Some(SnapshotEntry::Updated { price, confidence, .. }) => {
            assert_eq!(*price, U256::from(eth_price));
            assert_eq!(*confidence, Confidence::High);
        }
        _ => panic!("expected Updated for ETH"),
    }

    assert_eq!(snapshot.entries.get(AssetId::SOL), Some(&SnapshotEntry::Unavailable));
    assert_eq!(snapshot.entries.get(AssetId::USDC), Some(&SnapshotEntry::Unavailable));
    assert_eq!(snapshot.entries.get(AssetId::USDT), Some(&SnapshotEntry::Unavailable));
    assert_eq!(snapshot.entries.get(AssetId::DAI), Some(&SnapshotEntry::Unavailable));
}

#[test]
fn stale_data_produces_unavailable() {
    let mut engine = OracleEngine::new();
    let ts = 1000u64;

    engine.inject_update(&make_update(SourceId::Binance, AssetId::BTC, 5_000_000_000_000, ts));
    engine.inject_update(&make_update(SourceId::Coinbase, AssetId::BTC, 5_000_000_000_000, ts));
    engine.inject_update(&make_update(SourceId::Okx, AssetId::BTC, 5_000_000_000_000, ts));

    engine.trigger_aggregation_at(ts + 100);

    let snapshot = engine.generate_snapshot();
    assert_eq!(snapshot.entries.get(AssetId::BTC), Some(&SnapshotEntry::Unavailable));
}

#[test]
fn five_sources_with_outliers() {
    let mut engine = OracleEngine::new();
    let ts = 1000u64;
    let base = 5_000_000_000_000u64;

    engine.inject_update(&make_update(SourceId::Binance, AssetId::BTC, base - 500_000_000_000, ts));
    engine.inject_update(&make_update(SourceId::Coinbase, AssetId::BTC, base, ts));
    engine.inject_update(&make_update(SourceId::Okx, AssetId::BTC, base + 100_000, ts));
    engine.inject_update(&make_update(SourceId::Bybit, AssetId::BTC, base + 200_000, ts));
    engine.inject_update(&make_update(SourceId::Kraken, AssetId::BTC, base + 500_000_000_000, ts));

    engine.trigger_aggregation_at(ts + 1);

    let state = engine.get_asset_state(AssetId::BTC);
    match state {
        AssetState::Available { price, .. } => {
            assert_eq!(price, U256::from(base + 100_000));
        }
        _ => panic!("expected Available"),
    }
}

#[test]
fn unavailable_preserves_last_price() {
    let mut engine = OracleEngine::new();
    let ts = 1000u64;
    let btc_price = 5_000_000_000_000u64;

    engine.inject_update(&make_update(SourceId::Binance, AssetId::BTC, btc_price, ts));
    engine.inject_update(&make_update(SourceId::Coinbase, AssetId::BTC, btc_price, ts));
    engine.inject_update(&make_update(SourceId::Okx, AssetId::BTC, btc_price, ts));
    engine.trigger_aggregation_at(ts + 1);

    match engine.get_asset_state(AssetId::BTC) {
        AssetState::Available { price, confidence, .. } => {
            assert_eq!(price, U256::from(btc_price));
            assert_eq!(confidence, Confidence::High);
        }
        _ => panic!("expected Available"),
    }

    engine.trigger_aggregation_at(ts + 100);

    match engine.get_asset_state(AssetId::BTC) {
        AssetState::Available { price, confidence, .. } => {
            assert_eq!(price, U256::from(btc_price));
            assert_eq!(confidence, Confidence::Unavailable);
        }
        _ => panic!("expected Available with Unavailable confidence"),
    }

    let snapshot = engine.generate_snapshot();
    match snapshot.entries.get(AssetId::BTC) {
        Some(SnapshotEntry::Updated { price, confidence, .. }) => {
            assert_eq!(*price, U256::from(btc_price));
            assert_eq!(*confidence, Confidence::Unavailable);
        }
        Some(SnapshotEntry::Unavailable) => {}
        None => panic!("BTC missing from snapshot"),
    }
}

#[test]
fn initial_source_status() {
    let engine = OracleEngine::new();
    let status = engine.source_status();
    assert_eq!(status.len(), 5);
    for connected in status.iter() {
        assert!(!connected);
    }
    assert_eq!(engine.connected_source_count(), 0);
}

#[test]
fn connection_messages_track_status() {
    let mut engine = OracleEngine::new();
    engine.process_message(&SourceMessage::Connected(SourceId::Okx));
    engine.process_message(&SourceMessage::Connected(SourceId::Kraken));
    assert_eq!(engine.connected_source_count(), 2);
    assert_eq!(engine.source_status(), [false, false, true, false, true]);
    engine.process_message(&SourceMessage::Disconnected(SourceId::Okx));
    assert_eq!(engine.connected_source_count(), 1);
}

#[test]
fn disconnect_clears_source_prices() {
    let mut engine = OracleEngine::new();
    let base = 5_000_000_000_000u64;
    engine.process_message(&SourceMessage::Price(make_update(SourceId::Binance, AssetId::BTC, base, 1000)));
    engine.process_message(&SourceMessage::Disconnected(SourceId::Binance));
    engine.trigger_aggregation_at(1001);
    assert_eq!(engine.get_asset_state(AssetId::BTC), AssetState::Unavailable);
}

// ---- sources ----

#[test]
fn parse_price_str_basic() {
    assert_eq!(parse_price_str("50000.12345678"), Some(U256::from(5_000_012_345_678u64)));
    assert_eq!(parse_price_str("0.99"), Some(U256::from(99_000_000u64)));
    assert_eq!(parse_price_str("1.0"), Some(U256::from(100_000_000u64)));
    assert_eq!(parse_price_str("100"), Some(U256::from(10_000_000_000u64)));
}

#[test]
fn parse_price_truncates_past_eight_decimals() {
    assert_eq!(parse_price_str("1.123456789"), Some(U256::from(112_345_678u64)));
    assert_eq!(parse_price_str("abc"), None);
    assert_eq!(parse_price_str("1.x"), None);
}

#[test]
fn parse_price_checked_refuses_overflow() {
    // 10^34 parses, but 10^34 * 10^8 leaves the u128 range.
    assert_eq!(parse_price_checked("10000000000000000000000000000000000"), None);
    assert_eq!(parse_price_checked("42.5"), Some(u128_word(4_250_000_000)));
}

#[test]
fn parse_binance_trade() {
    let msg = r#"{"e":"trade","E":1234567890,"s":"BTCUSDT","t":1,"p":"50000.12","q":"0.001","T":1234567890,"m":true}"#;
    let updates = parse_binance(msg, 1234567890);
    assert!(updates.is_some());
    let updates = updates.unwrap();
    assert_eq!(updates.len(), 1);
    assert_eq!(updates[0].asset, AssetId::BTC);
    assert_eq!(updates[0].price, U256::from(5_000_012_000_000u64));
}

#[test]
fn parse_coinbase_ticker() {
    let msg = r#"{"type":"ticker","product_id":"ETH-USD","price":"3000.50","time":"2024-01-01T00:00:00Z"}"#;
    let updates = parse_coinbase(msg, 1700000000);
    assert!(updates.is_some());
    let updates = updates.unwrap();
    assert_eq!(updates[0].asset, AssetId::ETH);
    assert_eq!(updates[0].price, U256::from(300_050_000_000u64));
}

#[test]
fn parse_okx_ticker() {
    let msg = r#"{"arg":{"channel":"tickers"},"data":[{"instId":"SOL-USDT","last":"100.25"}]}"#;
    let updates = parse_okx(msg, 1700000000);
    assert!(updates.is_some());
    let updates = updates.unwrap();
    assert_eq!(updates[0].asset, AssetId::SOL);
    assert_eq!(updates[0].price, U256::from(10_025_000_000u64));
}

#[test]
fn parse_bybit_ticker() {
    let msg = r#"{"topic":"tickers.BTCUSDT","data":{"symbol":"BTCUSDT","lastPrice":"50000.00"}}"#;
    let updates = parse_bybit(msg, 1700000000);
    assert!(updates.is_some());
    let updates = updates.unwrap();
    assert_eq!(updates[0].asset, AssetId::BTC);
    assert_eq!(updates[0].price, U256::from(5_000_000_000_000u64));
}

#[test]
fn parse_kraken_ticker() {
    let msg = r#"{"channel":"ticker","data":[{"symbol":"ETH/USD","last":3000.50}]}"#;
    let updates = parse_kraken(msg, 1700000000);
    assert!(updates.is_some());
    let updates = updates.unwrap();
    assert_eq!(updates[0].asset, AssetId::ETH);
    assert_eq!(updates[0].price, U256::from(300_050_000_000u64));
}

#[test]
fn parse_kraken_non_ticker_ignored() {
    let msg = r#"{"channel":"heartbeat"}"#;
    assert!(parse_kraken(msg, 1700000000).is_none());
}

#[test]
fn binance_usdt_via_fdusd() {
    let msg = r#"{"e":"trade","s":"FDUSDUSDT","p":"1.0001","q":"100"}"#;
    let updates = parse_binance(msg, 1700000000);
    assert!(updates.is_some());
    assert_eq!(updates.unwrap()[0].asset, AssetId::USDT);
}

#[test]
fn coinbase_usdc_mapping() {
    let msg = r#"{"type":"ticker","product_id":"USDC-USD","price":"0.9999"}"#;
    let updates = parse_coinbase(msg, 1700000000);
    assert!(updates.is_some());
    assert_eq!(updates.unwrap()[0].asset, AssetId::USDC);
}

#[test]
fn okx_usdt_via_usdc_pair() {
    let msg = r#"{"data":[{"instId":"USDT-USDC","last":"1.0000"}]}"#;
    let updates = parse_okx(msg, 1700000000);
    assert!(updates.is_some());
    assert_eq!(updates.unwrap()[0].asset, AssetId::USDT);
}

#[test]
fn parse_malformed_json_returns_none() {
    assert!(parse_binance("not json", 100).is_none());
    assert!(parse_coinbase("{}", 100).is_none());
    assert!(parse_okx("{}", 100).is_none());
    assert!(parse_bybit("{}", 100).is_none());
    assert!(parse_kraken("{}", 100).is_none());
}

#[test]
fn okx_item_without_price_fails_whole_message() {
    let msg = r#"{"data":[{"instId":"BTC-USDT","last":"1.0"},{"instId":"ETH-USDT"}]}"#;
    assert!(parse_okx(msg, 1).is_none());
    let msg = r#"{"data":[{"instId":"XYZ-USDT","last":"1.0"},{"instId":"ETH-USDT","last":"2.5"}]}"#;
    let updates = parse_okx(msg, 7).unwrap();
    assert_eq!(updates.len(), 1);
    assert_eq!(updates[0].asset, AssetId::ETH);
    assert_eq!(updates[0].timestamp, 7);
    assert_eq!(updates[0].source, SourceId::Okx);
}

#[test]
fn parse_message_dispatches_by_source() {
    let msg = r#"{"topic":"tickers.BTCUSDT","data":{"symbol":"SOLUSDT","lastPrice":"20"}}"#;
    let updates = parse_message(SourceId::Bybit, msg, 5).unwrap();
    assert_eq!(updates[0].source, SourceId::Bybit);
    assert_eq!(updates[0].asset, AssetId::SOL);
    assert!(parse_message(SourceId::Binance, msg, 5).is_none());
}

#[test]
fn symbol_maps() {
    assert_eq!(map_binance_symbol("ETHUSDT"), Some(AssetId::ETH));
    assert_eq!(map_binance_symbol("ethusdt"), None);
    assert_eq!(map_kraken_pair("DAI/USD"), Some(AssetId::DAI));
}

#[test]
fn subscribe_messages() {
    assert_eq!(
        build_subscribe_message(SourceId::Binance),
        r#"{"method":"SUBSCRIBE","params":["btcusdt@trade","ethusdt@trade","solusdt@trade","usdcusdt@trade","fdusdusdt@trade","daiusdt@trade"],"id":1}"#
    );
    assert_eq!(
        build_subscribe_message(SourceId::Okx),
        r#"{"op":"subscribe","args":[{"channel":"tickers","instId":"BTC-USDT"},{"channel":"tickers","instId":"ETH-USDT"},{"channel":"tickers","instId":"SOL-USDT"},{"channel":"tickers","instId":"USDC-USDT"},{"channel":"tickers","instId":"USDT-USDC"},{"channel":"tickers","instId":"DAI-USDT"}]}"#
    );
    assert_eq!(
        build_subscribe_message(SourceId::Kraken),
        r#"{"method":"subscribe","params":{"channel":"ticker","symbol":["BTC/USD","ETH/USD","SOL/USD","USDC/USD","USDT/USD","DAI/USD"]}}"#
    );
    assert_eq!(
        build_subscribe_message(SourceId::Bybit),
        r#"{"op":"subscribe","args":["tickers.BTCUSDT","tickers.ETHUSDT","tickers.SOLUSDT","tickers.USDCUSDT","tickers.USDTDAI","tickers.DAIUSDT"]}"#
    );
    assert_eq!(
        build_subscribe_message(SourceId::Coinbase),
        r#"{"type":"subscribe","channels":["ticker"],"product_ids":["BTC-USD","ETH-USD","SOL-USD","USDC-USD","USDT-USD","DAI-USD"]}"#
    );
}

#[test]
fn source_defaults_and_backoff() {
    let s = Source::new(SourceId::Kraken);
    assert_eq!(s.id, SourceId::Kraken);
    assert_eq!(s.max_backoff, Duration::from_secs(30));
    assert_eq!(INITIAL_BACKOFF_MILLIS, 500);
    assert_eq!(next_backoff_millis(500, 30_000), 1_000);
    assert_eq!(next_backoff_millis(16_000, 30_000), 30_000);
    assert_eq!(next_backoff_millis(u64::MAX, 30_000), 30_000);
}

#[test]
fn source_urls_and_names() {
    assert_eq!(SourceId::Binance.ws_url(), "wss://stream.binance.com:9443/ws");
    assert_eq!(SourceId::Kraken.ws_url(), "wss://ws.kraken.com/v2");
    assert_eq!(SourceId::Okx.name(), "OKX");
    assert_eq!(SourceId::all().len(), 5);
}

#[test]
fn huge_spread_is_degraded_without_wrapping() {
    let mut agg = Aggregator::new();
    // 1 + 2^252: the spread times 10000 is a multiple of 2^256.
    let far = U256 { l0: 1, l1: 0, l2: 0, l3: 1u64 << 60 };
    agg.update(&make_update(SourceId::Binance, AssetId::BTC, 1, 99));
    agg.update(&make_update(SourceId::Coinbase, AssetId::BTC, 1, 99));
    agg.update(&PriceUpdate { source: SourceId::Okx, asset: AssetId::BTC, price: far, timestamp: 99 });
    match agg.aggregate(AssetId::BTC, 100) {
        AssetState::Available { price, confidence, .. } => {
            assert_eq!(price, U256::from(1u64));
            assert_eq!(confidence, Confidence::Degraded);
        }
        other => panic!("expected Available, got {other:?}"),
    }
}

#[test]
fn spread_bands_high_medium_degraded() {
    let conf = |hi: u64| {
        let mut agg = Aggregator::new();
        agg.update(&make_update(SourceId::Binance, AssetId::ETH, 100_000, 99));
        agg.update(&make_update(SourceId::Coinbase, AssetId::ETH, 100_000, 99));
        agg.update(&make_update(SourceId::Okx, AssetId::ETH, hi, 99));
        match agg.aggregate(AssetId::ETH, 100) {
            AssetState::Available { confidence, .. } => confidence,
            other => panic!("expected Available, got {other:?}"),
        }
    };
    // spread (hi - 100000) * 10000 / 100000 bps.
    assert_eq!(conf(100_100), Confidence::High); // 10 bps
    assert_eq!(conf(100_109), Confidence::High); // 10.9 bps rounds down to 10
    assert_eq!(conf(100_110), Confidence::Medium); // 11 bps
    assert_eq!(conf(100_500), Confidence::Medium); // 50 bps
    assert_eq!(conf(100_510), Confidence::Degraded); // 51 bps
}
