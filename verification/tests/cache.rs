use dex_gatherer::models::PoolData;
use dex_gatherer::services::cache::cache_key;
use dex_gatherer::services::cache::PoolCache;

const USD: u64 = 1_000_000;

fn record(source: &str, chain: &str, address: &str, price_usd: u64) -> PoolData {
    PoolData::observed_at(
        "ETH".to_string(),
        chain.to_string(),
        "uniswap".to_string(),
        address.to_string(),
        "ETH/USDC".to_string(),
        price_usd,
        50_000 * USD,
        20_000 * USD,
        source.to_string(),
        1_700_000_000,
    )
}

#[test]
fn upsert_of_same_key_keeps_size_and_latest_value() {
    let mut cache = PoolCache::new_at(120, 1000);
    let first = record("gecko", "ethereum", "0xabc", 3000 * USD);
    let second = record("gecko", "ethereum", "0xabc", 3100 * USD);
    cache.insert_at(cache_key(&first), first, 1000);
    assert_eq!(cache.len(), 1);
    cache.insert_at(cache_key(&second), second, 1001);
    assert_eq!(cache.len(), 1);
    let all = cache.get_all_at(1002);
    assert_eq!(all.len(), 1);
    assert_eq!(all[0].price_usd, 3100 * USD);
    let found = cache.get("gecko:ethereum:0xabc").unwrap();
    assert_eq!(found.price_usd, 3100 * USD);
}

#[test]
fn entry_is_listed_until_its_age_reaches_ttl() {
    let mut cache = PoolCache::new_at(120, 1000);
    let pool = record("gecko", "ethereum", "0xabc", 3000 * USD);
    cache.insert_at(cache_key(&pool), pool, 1000);
    assert_eq!(cache.get_all_at(1000).len(), 1);
    assert_eq!(cache.get_all_at(1119).len(), 1);
    assert_eq!(cache.get_all_at(1120).len(), 0);
    assert_eq!(cache.get_all_at(1121).len(), 0);
    assert_eq!(cache.len(), 1);
    assert!(cache.get("gecko:ethereum:0xabc").is_some());
    assert_eq!(cache.get_all_at(999).len(), 1);
}

#[test]
fn zero_ttl_lists_nothing_inserted_in_the_past() {
    let mut cache = PoolCache::new_at(0, 1000);
    let pool = record("gecko", "ethereum", "0xabc", 3000 * USD);
    cache.insert_at(cache_key(&pool), pool, 1000);
    assert!(cache.get_all_at(1000).is_empty());
    assert_eq!(cache.len(), 1);
}

#[test]
fn same_address_from_two_sources_makes_two_entries() {
    let mut cache = PoolCache::new_at(120, 1000);
    let one = record("gecko", "ethereum", "0xabc", 3000 * USD);
    let other = record("kyberswap", "ethereum", "0xabc", 3050 * USD);
    assert_ne!(cache_key(&one), cache_key(&other));
    cache.insert_at(cache_key(&one), one, 1000);
    cache.insert_at(cache_key(&other), other, 1000);
    assert_eq!(cache.len(), 2);
    assert_eq!(cache.get("gecko:ethereum:0xabc").unwrap().price_usd, 3000 * USD);
    assert_eq!(cache.get("kyberswap:ethereum:0xabc").unwrap().price_usd, 3050 * USD);
    let all = cache.get_all_at(1001);
    assert_eq!(all.len(), 2);
    assert_eq!(all[0].source, "gecko");
    assert_eq!(all[1].source, "kyberswap");
}

#[test]
fn colons_inside_names_can_make_keys_collide() {
    let one = record("a", "b:c", "0xabc", 1);
    let other = record("a:b", "c", "0xabc", 2);
    assert_eq!(cache_key(&one), cache_key(&other));
}

#[test]
fn cache_key_joins_source_chain_and_address() {
    let pool = record("geckoterminal", "multi", "0xdef", 1);
    assert_eq!(cache_key(&pool), "geckoterminal:multi:0xdef");
    let empty = record("", "", "", 1);
    assert_eq!(cache_key(&empty), "::");
}

#[test]
fn missing_key_is_not_found() {
    let mut cache = PoolCache::new_at(120, 1000);
    assert!(cache.get("gecko:ethereum:0xabc").is_none());
    let pool = record("gecko", "ethereum", "0xabc", 3000 * USD);
    cache.insert_at(cache_key(&pool), pool, 1000);
    assert!(cache.get("gecko:ethereum:0xab").is_none());
    assert!(cache.get("").is_none());
}

#[test]
fn overwrite_keeps_position_of_key() {
    let mut cache = PoolCache::new_at(120, 1000);
    let a = record("a", "x", "0x1", 1);
    let b = record("b", "x", "0x2", 2);
    let a_again = record("a", "x", "0x1", 3);
    cache.insert_at(cache_key(&a), a, 1000);
    cache.insert_at(cache_key(&b), b, 1000);
    cache.insert_at(cache_key(&a_again), a_again, 1010);
    let all = cache.get_all_at(1011);
    assert_eq!(all.len(), 2);
    assert_eq!(all[0].price_usd, 3);
    assert_eq!(all[1].price_usd, 2);
}

#[test]
fn overwrite_renews_the_entry() {
    let mut cache = PoolCache::new_at(100, 0);
    let a = record("a", "x", "0x1", 1);
    let renewed = record("a", "x", "0x1", 2);
    cache.insert_at(cache_key(&a), a, 0);
    cache.insert_at(cache_key(&renewed), renewed, 90);
    assert_eq!(cache.get_all_at(150).len(), 1);
    assert_eq!(cache.get_all_at(190).len(), 0);
}

#[test]
fn cleanup_waits_for_its_interval() {
    let mut cache = PoolCache::new_at(10, 1000);
    let pool = record("gecko", "ethereum", "0xabc", 3000 * USD);
    cache.insert_at(cache_key(&pool), pool, 1000);
    assert_eq!(cache.cleanup_at(1059), 0);
    assert_eq!(cache.len(), 1);
    assert_eq!(cache.cleanup_at(1060), 1);
    assert_eq!(cache.len(), 0);
}

#[test]
fn cleanup_removes_only_expired_entries_and_restarts_interval() {
    let mut cache = PoolCache::new_at(100, 0);
    let old = record("a", "x", "0x1", 1);
    let young = record("b", "x", "0x2", 2);
    cache.insert_at(cache_key(&old), old, 0);
    cache.insert_at(cache_key(&young), young, 50);
    assert_eq!(cache.cleanup_at(100), 1);
    assert_eq!(cache.len(), 1);
    assert!(cache.get("a:x:0x1").is_none());
    assert!(cache.get("b:x:0x2").is_some());
    assert_eq!(cache.cleanup_at(155), 0);
    assert_eq!(cache.len(), 1);
    assert_eq!(cache.cleanup_at(160), 1);
    assert_eq!(cache.len(), 0);
}

#[test]
fn cleanup_with_nothing_expired_removes_nothing() {
    let mut cache = PoolCache::new_at(1000, 0);
    let pool = record("a", "x", "0x1", 1);
    cache.insert_at(cache_key(&pool), pool, 0);
    assert_eq!(cache.cleanup_at(60), 0);
    assert_eq!(cache.len(), 1);
}

#[test]
fn clock_reading_operations_agree_with_explicit_time() {
    let mut cache = PoolCache::new(120);
    assert_eq!(cache.ttl(), 120);
    let pool = record("gecko", "ethereum", "0xabc", 3000 * USD);
    cache.insert(cache_key(&pool), pool);
    assert_eq!(cache.len(), 1);
    assert_eq!(cache.get_all().len(), 1);
    assert_eq!(cache.cleanup_if_needed(), 0);
    assert_eq!(cache.len(), 1);
}

#[test]
fn extreme_times_do_not_overflow() {
    let mut cache = PoolCache::new_at(u64::MAX, i64::MIN);
    let pool = record("a", "x", "0x1", 1);
    cache.insert_at(cache_key(&pool), pool, i64::MIN);
    assert_eq!(cache.get_all_at(i64::MAX - 1).len(), 1);
    assert_eq!(cache.get_all_at(i64::MAX).len(), 0);
    assert_eq!(cache.cleanup_at(i64::MAX - 1), 0);
    assert_eq!(cache.len(), 1);
    let mut short = PoolCache::new_at(1, i64::MAX);
    let pool = record("a", "x", "0x1", 1);
    short.insert_at(cache_key(&pool), pool, i64::MAX);
    assert_eq!(short.get_all_at(i64::MIN).len(), 1);
    assert_eq!(short.cleanup_at(i64::MIN), 0);
}
