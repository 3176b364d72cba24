use std::sync::Arc;

use dex_gatherer::models::alert::percent_spread;
use dex_gatherer::models::alert::reaches_threshold;
use dex_gatherer::models::{ArbType, ArbitrageAlert, PoolData};
use dex_gatherer::services::detector::ArbitrageDetector;
use dex_gatherer::sources::upbit::CexPrice;

const USD: u64 = 1_000_000;

fn pool(symbol: &str, dex: &str, address: &str, price_usd: u64) -> Arc<PoolData> {
    Arc::new(PoolData::observed_at(
        symbol.to_string(),
        "ethereum".to_string(),
        dex.to_string(),
        address.to_string(),
        format!("{}/USDC", symbol),
        price_usd,
        0,
        0,
        "geckoterminal".to_string(),
        1_700_000_000,
    ))
}

fn quote(symbol: &str, price_usd: u64) -> CexPrice {
    CexPrice {
        symbol: symbol.to_string(),
        price_krw: price_usd * 1400,
        price_usd,
        timestamp: 1_700_000_000,
    }
}

#[test]
fn dex_dex_boundary_spread_raises_one_alert() {
    let pools = vec![
        pool("ETH", "uniswap", "0xaaa", 3000 * USD),
        pool("ETH", "sushiswap", "0xbbb", 3090 * USD),
    ];
    let detector = ArbitrageDetector::new(30_000);
    let alerts = detector.detect_dex_dex_at(&pools, 42);
    assert_eq!(alerts.len(), 1);
    let alert = &alerts[0];
    assert_eq!(alert.symbol, "ETH");
    assert_eq!(alert.arb_type, ArbType::DexToDex);
    assert_eq!(alert.low_price, 3000 * USD);
    assert_eq!(alert.high_price, 3090 * USD);
    assert_eq!(alert.low_source, "uniswap:0xaaa");
    assert_eq!(alert.high_source, "sushiswap:0xbbb");
    assert_eq!(alert.diff_pct, 3_000_000);
    assert_eq!(alert.timestamp, 42);
}

#[test]
fn dex_dex_just_above_boundary_raises_none() {
    let pools = vec![
        pool("ETH", "uniswap", "0xaaa", 3000 * USD),
        pool("ETH", "sushiswap", "0xbbb", 3090 * USD),
    ];
    let detector = ArbitrageDetector::new(31_000);
    assert!(detector.detect_dex_dex_at(&pools, 42).is_empty());
}

#[test]
fn dex_dex_order_of_pools_does_not_change_the_sides() {
    let pools = vec![
        pool("ETH", "sushiswap", "0xbbb", 3090 * USD),
        pool("ETH", "uniswap", "0xaaa", 3000 * USD),
    ];
    let detector = ArbitrageDetector::new(30_000);
    let alerts = detector.detect_dex_dex_at(&pools, 42);
    assert_eq!(alerts.len(), 1);
    assert_eq!(alerts[0].low_source, "uniswap:0xaaa");
    assert_eq!(alerts[0].high_source, "sushiswap:0xbbb");
}

#[test]
fn single_pool_never_raises_dex_dex_alert() {
    let pools = vec![pool("ETH", "uniswap", "0xaaa", 3000 * USD)];
    for threshold in [0u64, 1, 30_000, 1_000_000, u64::MAX] {
        let detector = ArbitrageDetector::new(threshold);
        assert!(detector.detect_dex_dex_at(&pools, 1).is_empty());
    }
}

#[test]
fn single_pool_among_other_groups_raises_no_alert_for_its_symbol() {
    let pools = vec![
        pool("BTC", "uniswap", "0x111", 60_000 * USD),
        pool("ETH", "uniswap", "0xaaa", 3000 * USD),
        pool("BTC", "curve", "0x222", 66_000 * USD),
    ];
    let detector = ArbitrageDetector::new(0);
    let alerts = detector.detect_dex_dex_at(&pools, 1);
    assert_eq!(alerts.len(), 1);
    assert_eq!(alerts[0].symbol, "BTC");
}

#[test]
fn dex_dex_skips_group_with_unknown_lowest_price() {
    let pools = vec![
        pool("ETH", "uniswap", "0xaaa", 0),
        pool("ETH", "sushiswap", "0xbbb", 3090 * USD),
    ];
    let detector = ArbitrageDetector::new(0);
    assert!(detector.detect_dex_dex_at(&pools, 1).is_empty());
}

#[test]
fn dex_dex_picks_first_of_equal_extremes() {
    let pools = vec![
        pool("ETH", "a", "0x1", 100 * USD),
        pool("ETH", "b", "0x2", 200 * USD),
        pool("ETH", "c", "0x3", 100 * USD),
        pool("ETH", "d", "0x4", 200 * USD),
    ];
    let detector = ArbitrageDetector::new(500_000);
    let alerts = detector.detect_dex_dex_at(&pools, 1);
    assert_eq!(alerts.len(), 1);
    assert_eq!(alerts[0].low_source, "a:0x1");
    assert_eq!(alerts[0].high_source, "b:0x2");
    assert_eq!(alerts[0].diff_pct, 100_000_000);
}

#[test]
fn dex_dex_alerts_follow_the_cheapest_pools() {
    let pools = vec![
        pool("BTC", "a", "0x1", 66_000 * USD),
        pool("ETH", "b", "0x2", 3000 * USD),
        pool("BTC", "c", "0x3", 60_000 * USD),
        pool("ETH", "d", "0x4", 3300 * USD),
    ];
    let detector = ArbitrageDetector::new(50_000);
    let alerts = detector.detect_dex_dex_at(&pools, 1);
    assert_eq!(alerts.len(), 2);
    assert_eq!(alerts[0].symbol, "ETH");
    assert_eq!(alerts[1].symbol, "BTC");
}

#[test]
fn dex_dex_is_repeatable_on_one_snapshot() {
    let pools = vec![
        pool("ETH", "uniswap", "0xaaa", 3000 * USD),
        pool("ETH", "sushiswap", "0xbbb", 3300 * USD),
    ];
    let detector = ArbitrageDetector::new(30_000);
    let first = detector.detect_dex_dex_at(&pools, 9);
    let second = detector.detect_dex_dex_at(&pools, 9);
    assert_eq!(first.len(), second.len());
    assert_eq!(first[0].low_source, second[0].low_source);
    assert_eq!(first[0].diff_pct, second[0].diff_pct);
}

#[test]
fn dex_dex_with_clock_matches_explicit_time_but_for_timestamp() {
    let pools = vec![
        pool("ETH", "uniswap", "0xaaa", 3000 * USD),
        pool("ETH", "sushiswap", "0xbbb", 3300 * USD),
    ];
    let detector = ArbitrageDetector::new(30_000);
    let alerts = detector.detect_dex_dex(&pools);
    assert_eq!(alerts.len(), 1);
    assert_eq!(alerts[0].diff_pct, 10_000_000);
    assert!(alerts[0].timestamp > 1_600_000_000);
}

#[test]
fn dex_cex_alert_with_cheaper_dex() {
    let pools = vec![pool("ETH", "uniswap", "0xaaa", 95 * USD)];
    let prices = vec![quote("ETH", 100 * USD)];
    let detector = ArbitrageDetector::new(30_000);
    let alerts = detector.detect_dex_cex_at(&pools, &prices, 7);
    assert_eq!(alerts.len(), 1);
    let alert = &alerts[0];
    assert_eq!(alert.arb_type, ArbType::DexToCex);
    assert_eq!(alert.symbol, "ETH");
    assert_eq!(alert.low_price, 95 * USD);
    assert_eq!(alert.low_source, "uniswap:0xaaa");
    assert_eq!(alert.high_price, 100 * USD);
    assert_eq!(alert.high_source, "upbit");
    assert_eq!(alert.diff_pct, 5_263_157);
    let as_percent = alert.diff_pct as f64 / 1_000_000.0;
    assert!((as_percent - 5.26).abs() < 0.01);
    assert_eq!(alert.timestamp, 7);
}

#[test]
fn dex_cex_alert_with_cheaper_exchange() {
    let pools = vec![pool("ETH", "uniswap", "0xaaa", 100 * USD)];
    let prices = vec![quote("ETH", 95 * USD)];
    let detector = ArbitrageDetector::new(30_000);
    let alerts = detector.detect_dex_cex_at(&pools, &prices, 7);
    assert_eq!(alerts.len(), 1);
    assert_eq!(alerts[0].low_source, "upbit");
    assert_eq!(alerts[0].low_price, 95 * USD);
    assert_eq!(alerts[0].high_source, "uniswap:0xaaa");
    assert_eq!(alerts[0].high_price, 100 * USD);
}

#[test]
fn dex_cex_equal_prices_put_exchange_on_low_side() {
    let pools = vec![pool("ETH", "uniswap", "0xaaa", 100 * USD)];
    let prices = vec![quote("ETH", 100 * USD)];
    let detector = ArbitrageDetector::new(0);
    let alerts = detector.detect_dex_cex_at(&pools, &prices, 7);
    assert_eq!(alerts.len(), 1);
    assert_eq!(alerts[0].low_source, "upbit");
    assert_eq!(alerts[0].diff_pct, 0);
}

#[test]
fn dex_cex_needs_quote_and_known_prices() {
    let detector = ArbitrageDetector::new(0);
    let pools = vec![pool("ETH", "uniswap", "0xaaa", 95 * USD)];
    assert!(detector.detect_dex_cex_at(&pools, &[], 7).is_empty());
    assert!(detector.detect_dex_cex_at(&pools, &[quote("BTC", 100 * USD)], 7).is_empty());
    assert!(detector.detect_dex_cex_at(&pools, &[quote("ETH", 0)], 7).is_empty());
    let unknown = vec![pool("ETH", "uniswap", "0xaaa", 0)];
    assert!(detector.detect_dex_cex_at(&unknown, &[quote("ETH", 100 * USD)], 7).is_empty());
}

#[test]
fn dex_cex_uses_last_quote_of_a_symbol() {
    let pools = vec![pool("ETH", "uniswap", "0xaaa", 95 * USD)];
    let prices = vec![quote("ETH", 200 * USD), quote("ETH", 100 * USD)];
    let detector = ArbitrageDetector::new(30_000);
    let alerts = detector.detect_dex_cex_at(&pools, &prices, 7);
    assert_eq!(alerts.len(), 1);
    assert_eq!(alerts[0].high_price, 100 * USD);
}

#[test]
fn dex_cex_below_threshold_raises_none() {
    let pools = vec![pool("ETH", "uniswap", "0xaaa", 99 * USD)];
    let prices = vec![quote("ETH", 100 * USD)];
    let detector = ArbitrageDetector::new(30_000);
    assert!(detector.detect_dex_cex_at(&pools, &prices, 7).is_empty());
}

#[test]
fn dex_cex_with_clock_reads_current_time() {
    let pools = vec![pool("ETH", "uniswap", "0xaaa", 95 * USD)];
    let prices = vec![quote("ETH", 100 * USD)];
    let detector = ArbitrageDetector::new(30_000);
    let alerts = detector.detect_dex_cex(&pools, &prices);
    assert_eq!(alerts.len(), 1);
    assert!(alerts[0].timestamp > 1_600_000_000);
}

#[test]
fn threshold_can_be_replaced() {
    let mut detector = ArbitrageDetector::new(30_000);
    assert_eq!(detector.threshold(), 30_000);
    detector.set_threshold(31_000);
    assert_eq!(detector.threshold(), 31_000);
}

#[test]
fn threshold_arithmetic_is_exact_at_extremes() {
    assert!(reaches_threshold(1, u64::MAX, u64::MAX));
    assert!(!reaches_threshold(u64::MAX, u64::MAX, 1));
    assert!(reaches_threshold(u64::MAX, u64::MAX, 0));
    assert!(!reaches_threshold(0, 5, 0));
    assert!(!reaches_threshold(5, 4, 0));
    assert_eq!(percent_spread(1, u64::MAX), (u64::MAX as u128 - 1) * 100_000_000);
    assert_eq!(percent_spread(3, 4), 33_333_333);
}

#[test]
fn alert_from_pools_labels_both_sides() {
    let low = pool("ETH", "uniswap", "0xaaa", 100 * USD);
    let high = pool("ETH", "curve", "0xccc", 150 * USD);
    let alert = ArbitrageAlert::from_pools_at(&low, &high, 5);
    assert_eq!(alert.symbol, "ETH");
    assert_eq!(alert.low_source, "uniswap:0xaaa");
    assert_eq!(alert.high_source, "curve:0xccc");
    assert_eq!(alert.diff_pct, 50_000_000);
    assert_eq!(alert.timestamp, 5);
    let stamped = ArbitrageAlert::from_pools(&low, &high);
    assert_eq!(stamped.diff_pct, 50_000_000);
    assert!(stamped.timestamp > 1_600_000_000);
    let copy = stamped.clone();
    assert_eq!(copy.low_source, stamped.low_source);
}
