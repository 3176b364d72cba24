use dex_gatherer::config::FilterConfig;
use dex_gatherer::models::PoolData;
use dex_gatherer::services::PoolFilter;

const USD: u64 = 1_000_000;

fn record(price_usd: u64, lp_usd: u64, volume_usd: u64) -> PoolData {
    PoolData::observed_at(
        "ETH".to_string(),
        "ethereum".to_string(),
        "uniswap".to_string(),
        "0xabc".to_string(),
        "ETH/USDC".to_string(),
        price_usd,
        lp_usd,
        volume_usd,
        "geckoterminal".to_string(),
        1_700_000_000,
    )
}

fn strict_filter() -> PoolFilter {
    PoolFilter::new(&FilterConfig {
        min_lp: 10_000 * USD,
        min_volume: 5_000 * USD,
        min_tx_count: 10,
    })
}

#[test]
fn deep_pool_with_volume_is_valid() {
    let filter = strict_filter();
    assert!(filter.is_valid(&record(3000 * USD, 50_000 * USD, 20_000 * USD)));
}

#[test]
fn shallow_pool_without_volume_is_invalid_under_both_rules() {
    let filter = strict_filter();
    assert!(!filter.is_valid(&record(3000 * USD, 40 * USD, 0)));
    assert!(!filter.is_valid(&record(0, 40 * USD, 0)));
}

#[test]
fn deep_pool_needs_volume() {
    let filter = strict_filter();
    assert!(filter.is_valid(&record(0, 10_000 * USD, 5_000 * USD)));
    assert!(!filter.is_valid(&record(0, 10_000 * USD, 5_000 * USD - 1)));
    assert!(!filter.is_valid(&record(0, 1_000_000 * USD, 0)));
}

#[test]
fn thin_pool_passes_on_tradeable_amount() {
    let filter = strict_filter();
    assert!(filter.is_valid(&record(0, 5_000 * USD, 5_000 * USD)));
    assert!(!filter.is_valid(&record(0, 5_000 * USD - 1, 5_000 * USD)));
    assert!(!filter.is_valid(&record(0, 5_000 * USD, 5_000 * USD - 1)));
    assert!(filter.is_valid(&record(0, 9_999 * USD, 20_000 * USD)));
}

#[test]
fn validity_is_monotone_on_samples() {
    let filter = strict_filter();
    let lps = [0, 40 * USD, 4_999 * USD, 5_000 * USD, 9_999 * USD, 10_000 * USD, 50_000 * USD];
    let volumes = [0, 4_999 * USD, 5_000 * USD, 20_000 * USD];
    for (i, lp) in lps.iter().enumerate() {
        for (j, volume) in volumes.iter().enumerate() {
            if filter.is_valid(&record(0, *lp, *volume)) {
                for more_lp in &lps[i..] {
                    for more_volume in &volumes[j..] {
                        assert!(filter.is_valid(&record(0, *more_lp, *more_volume)));
                    }
                }
            }
        }
    }
}

#[test]
fn max_trade_is_two_percent_of_liquidity() {
    let filter = strict_filter();
    assert_eq!(filter.calculate_max_trade(&record(0, 50_000 * USD, 0)), 1_000 * USD);
    assert_eq!(filter.calculate_max_trade(&record(0, 40 * USD, 0)), 800_000);
    assert_eq!(filter.calculate_max_trade(&record(0, 49, 0)), 0);
    assert_eq!(filter.calculate_max_trade(&record(0, u64::MAX, 0)), u64::MAX / 50);
}

#[test]
fn thresholds_can_be_read() {
    let filter = strict_filter();
    assert_eq!(filter.min_lp(), 10_000 * USD);
    assert_eq!(filter.min_volume(), 5_000 * USD);
    assert_eq!(filter.min_tx_count(), 10);
    assert!(!filter.price_only());
}

#[test]
fn thresholds_can_be_replaced() {
    let mut filter = strict_filter();
    let pool = record(0, 20_000 * USD, 1_000 * USD);
    assert!(!filter.is_valid(&pool));
    filter.set_min_volume(1_000 * USD);
    assert!(filter.is_valid(&pool));
    filter.set_min_lp(30_000 * USD);
    assert!(filter.is_valid(&pool));
    let thin = record(0, 4_000 * USD, 1_000 * USD);
    assert!(!filter.is_valid(&thin));
    filter.set_min_lp(4_000 * USD);
    assert!(filter.is_valid(&thin));
}

#[test]
fn price_only_mode_is_off_by_default_and_can_be_switched() {
    let mut filter = strict_filter();
    let priced = record(3000 * USD, 0, 0);
    assert!(!filter.is_valid(&priced));
    filter.set_price_only(true);
    assert!(filter.is_valid(&priced));
    assert!(!filter.is_valid(&record(0, 0, 0)));
    assert!(filter.is_valid(&record(0, 50_000 * USD, 20_000 * USD)));
    filter.set_price_only(false);
    assert!(!filter.is_valid(&priced));
}
