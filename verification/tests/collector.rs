use std::cell::Cell;
use std::sync::atomic::{AtomicUsize, Ordering};
use std::sync::Arc;

use dex_gatherer::config::FilterConfig;
use dex_gatherer::models::PoolData;
use dex_gatherer::services::cache::PoolCache;
use dex_gatherer::services::collector::{
    Attempt, CollectionRun, CollectorResult, CollectorStats, FetchOutcome, PoolCollector, Step,
    DEFAULT_PERMITS, FETCH_TIMEOUT_SECS, MAX_RETRIES, RETRY_DELAY_MS,
};
use dex_gatherer::services::PoolFilter;
use dex_gatherer::sources::{PoolSource, SourceError};

const USD: u64 = 1_000_000;

fn record(symbol: &str, source: &str, address: &str, lp_usd: u64, volume_usd: u64) -> PoolData {
    PoolData::observed_at(
        symbol.to_string(),
        "ethereum".to_string(),
        "uniswap".to_string(),
        address.to_string(),
        format!("{}/USDC", symbol),
        3000 * USD,
        lp_usd,
        volume_usd,
        source.to_string(),
        1_700_000_000,
    )
}

fn collector() -> PoolCollector {
    let filter = PoolFilter::new(&FilterConfig {
        min_lp: 10_000 * USD,
        min_volume: 5_000 * USD,
        min_tx_count: 0,
    });
    PoolCollector::new(PoolCache::new_at(120, 0), filter)
}

struct Healthy {
    calls: AtomicUsize,
}

impl PoolSource for Healthy {
    fn name(&self) -> String {
        "healthy".to_string()
    }

    fn fetch_pools(&self, symbol: &str) -> Result<Vec<PoolData>, SourceError> {
        self.calls.fetch_add(1, Ordering::SeqCst);
        Ok(vec![
            record(symbol, "healthy", &format!("0x{}", symbol), 50_000 * USD, 20_000 * USD),
            record(symbol, "healthy", &format!("0xthin{}", symbol), 40 * USD, 0),
        ])
    }
}

struct Broken {
    calls: AtomicUsize,
}

impl PoolSource for Broken {
    fn name(&self) -> String {
        "broken".to_string()
    }

    fn fetch_pools(&self, _symbol: &str) -> Result<Vec<PoolData>, SourceError> {
        self.calls.fetch_add(1, Ordering::SeqCst);
        Err(SourceError::Network("connection refused".to_string()))
    }
}

struct Flaky {
    calls: AtomicUsize,
}

impl PoolSource for Flaky {
    fn name(&self) -> String {
        "flaky".to_string()
    }

    fn fetch_pools(&self, symbol: &str) -> Result<Vec<PoolData>, SourceError> {
        let call = self.calls.fetch_add(1, Ordering::SeqCst);
        if call % 3 == 2 {
            Ok(vec![record(symbol, "flaky", "0xf", 50_000 * USD, 20_000 * USD)])
        } else {
            Err(SourceError::RateLimit)
        }
    }
}

struct Silent;

impl PoolSource for Silent {
    fn name(&self) -> String {
        "silent".to_string()
    }

    fn fetch_pools(&self, _symbol: &str) -> Result<Vec<PoolData>, SourceError> {
        Ok(Vec::new())
    }
}

fn symbols() -> Vec<String> {
    vec!["ETH".to_string(), "BTC".to_string(), "SOL".to_string()]
}

#[test]
fn partial_failure_is_accounted_for() {
    let healthy = Arc::new(Healthy { calls: AtomicUsize::new(0) });
    let broken = Arc::new(Broken { calls: AtomicUsize::new(0) });
    let sources: Vec<Arc<dyn PoolSource>> = vec![healthy.clone(), broken.clone()];
    let pauses = Cell::new(0u64);
    let mut collector = collector();
    let result = collector.collect_all(&sources, &symbols(), &|delay: u64| {
        pauses.set(pauses.get() + delay);
    });
    assert_eq!(result, CollectorResult { total: 3, successful: 3, failed: 3 });
    assert_eq!(result.successful + result.failed, 3 * 2);
    assert_eq!(healthy.calls.load(Ordering::SeqCst), 3);
    assert_eq!(broken.calls.load(Ordering::SeqCst), 9);
    assert_eq!(pauses.get(), 6 * RETRY_DELAY_MS);
    let cached = collector.get_cached_pools_at(1);
    let mut addresses: Vec<String> = cached.iter().map(|pool| pool.pool_address.clone()).collect();
    addresses.sort();
    assert_eq!(addresses, vec!["0xBTC", "0xETH", "0xSOL"]);
    assert!(collector.cache().get("healthy:ethereum:0xETH").is_some());
    assert!(collector.cache().get("healthy:ethereum:0xthinETH").is_none());
    let stats = collector.get_stats();
    assert_eq!(
        stats,
        CollectorStats { total_requests: 12, successful: 3, failed: 3, pools_collected: 3 }
    );
}

#[test]
fn empty_symbol_list_is_a_no_op() {
    let healthy = Arc::new(Healthy { calls: AtomicUsize::new(0) });
    let sources: Vec<Arc<dyn PoolSource>> = vec![healthy.clone()];
    let mut collector = collector();
    let result = collector.collect_all(&sources, &[], &|_delay: u64| {});
    assert_eq!(result, CollectorResult { total: 0, successful: 0, failed: 0 });
    assert_eq!(healthy.calls.load(Ordering::SeqCst), 0);
    assert_eq!(collector.get_stats(), CollectorStats::default());
    assert_eq!(collector.cache().len(), 0);
}

#[test]
fn no_sources_is_a_no_op() {
    let mut collector = collector();
    let result = collector.collect_all(&[], &symbols(), &|_delay: u64| {});
    assert_eq!(result, CollectorResult { total: 0, successful: 0, failed: 0 });
}

#[test]
fn empty_answer_is_a_success() {
    let sources: Vec<Arc<dyn PoolSource>> = vec![Arc::new(Silent)];
    let mut collector = collector();
    let result = collector.collect_all(&sources, &symbols(), &|_delay: u64| {});
    assert_eq!(result, CollectorResult { total: 0, successful: 3, failed: 0 });
}

#[test]
fn total_failure_yields_all_failed_result() {
    let sources: Vec<Arc<dyn PoolSource>> = vec![
        Arc::new(Broken { calls: AtomicUsize::new(0) }),
        Arc::new(Broken { calls: AtomicUsize::new(0) }),
    ];
    let mut collector = collector();
    let result = collector.collect_all(&sources, &symbols(), &|_delay: u64| {});
    assert_eq!(result, CollectorResult { total: 0, successful: 0, failed: 6 });
    assert_eq!(collector.cache().len(), 0);
}

#[test]
fn third_attempt_can_still_succeed() {
    let flaky = Arc::new(Flaky { calls: AtomicUsize::new(0) });
    let sources: Vec<Arc<dyn PoolSource>> = vec![flaky.clone()];
    let mut collector = collector();
    let result = collector.collect_all(&sources, &symbols(), &|_delay: u64| {});
    assert_eq!(result, CollectorResult { total: 3, successful: 3, failed: 0 });
    assert_eq!(flaky.calls.load(Ordering::SeqCst), 9);
    assert_eq!(collector.cache().len(), 1);
    assert_eq!(collector.get_stats().total_requests, 9);
}

#[test]
fn counters_accumulate_over_runs() {
    let sources: Vec<Arc<dyn PoolSource>> = vec![Arc::new(Healthy { calls: AtomicUsize::new(0) })];
    let mut collector = collector();
    collector.collect_all(&sources, &symbols(), &|_delay: u64| {});
    collector.collect_all(&sources, &symbols(), &|_delay: u64| {});
    let stats = collector.get_stats();
    assert_eq!(stats.successful, 6);
    assert_eq!(stats.pools_collected, 6);
    assert_eq!(collector.cache().len(), 3);
}

#[test]
fn in_flight_fetches_never_exceed_permits() {
    let permits = 4;
    let mut run = CollectionRun::begin(2, 10, permits);
    let mut started = 0;
    let mut settled = 0;
    let mut round = 0;
    loop {
        match run.next_step() {
            Step::Start { source, symbol } => {
                started += 1;
                assert!(source < 2 && symbol < 10);
            }
            Step::Wait => {
                assert!(run.in_flight() > 0);
                round += 1;
                if round % 2 == 0 {
                    assert!(run.complete_success(1));
                } else {
                    assert!(run.complete_failure());
                }
                settled += 1;
            }
            Step::Done(result) => {
                assert_eq!(result.successful + result.failed, 20);
                assert_eq!(result.total, result.successful);
                break;
            }
        }
        assert!(run.in_flight() <= permits);
        assert_eq!(run.in_flight(), started - settled);
    }
    assert_eq!(started, 20);
    assert_eq!(settled, 20);
}

#[test]
fn limiter_is_saturated_before_waiting() {
    let mut run = CollectionRun::begin(1, 5, 3);
    assert_eq!(run.next_step(), Step::Start { source: 0, symbol: 0 });
    assert_eq!(run.next_step(), Step::Start { source: 0, symbol: 1 });
    assert_eq!(run.next_step(), Step::Start { source: 0, symbol: 2 });
    assert_eq!(run.next_step(), Step::Wait);
    assert_eq!(run.in_flight(), 3);
    assert!(run.complete_success(2));
    assert_eq!(run.next_step(), Step::Start { source: 0, symbol: 3 });
    assert_eq!(run.next_step(), Step::Wait);
}

#[test]
fn next_source_begins_only_when_current_has_settled() {
    let mut run = CollectionRun::begin(2, 2, 5);
    assert_eq!(run.next_step(), Step::Start { source: 0, symbol: 0 });
    assert_eq!(run.next_step(), Step::Start { source: 0, symbol: 1 });
    assert_eq!(run.next_step(), Step::Wait);
    assert!(run.complete_success(1));
    assert_eq!(run.next_step(), Step::Wait);
    assert!(run.complete_failure());
    assert_eq!(run.next_step(), Step::Start { source: 1, symbol: 0 });
    assert_eq!(run.next_step(), Step::Start { source: 1, symbol: 1 });
    assert!(run.complete_success(0));
    assert!(run.complete_success(4));
    assert_eq!(
        run.next_step(),
        Step::Done(CollectorResult { total: 5, successful: 3, failed: 1 })
    );
    assert_eq!(
        run.next_step(),
        Step::Done(CollectorResult { total: 5, successful: 3, failed: 1 })
    );
    assert_eq!(run.result(), CollectorResult { total: 5, successful: 3, failed: 1 });
}

#[test]
fn settling_without_fetch_in_flight_changes_nothing() {
    let mut run = CollectionRun::begin(1, 1, 1);
    assert!(!run.complete_success(3));
    assert!(!run.complete_failure());
    assert_eq!(run.result(), CollectorResult { total: 0, successful: 0, failed: 0 });
    assert_eq!(run.next_step(), Step::Start { source: 0, symbol: 0 });
}

#[test]
fn run_without_work_is_done_at_once() {
    let mut no_symbols = CollectionRun::begin(3, 0, 2);
    assert_eq!(
        no_symbols.next_step(),
        Step::Done(CollectorResult { total: 0, successful: 0, failed: 0 })
    );
    let mut no_sources = CollectionRun::begin(0, 3, 2);
    assert_eq!(
        no_sources.next_step(),
        Step::Done(CollectorResult { total: 0, successful: 0, failed: 0 })
    );
}

#[test]
fn stored_record_count_saturates() {
    let mut run = CollectionRun::begin(1, 2, 2);
    run.next_step();
    run.next_step();
    assert!(run.complete_success(usize::MAX));
    assert!(run.complete_success(5));
    assert_eq!(run.result().total, usize::MAX);
}

#[test]
fn begin_run_checks_permits_and_size() {
    let mut collector = collector();
    assert_eq!(collector.permits(), DEFAULT_PERMITS);
    assert!(collector.begin_run(7, 200).is_some());
    assert!(collector.begin_run(usize::MAX, 2).is_none());
    assert!(collector.begin_run(usize::MAX, 1).is_some());
    collector.set_permits(0);
    assert!(collector.begin_run(7, 200).is_none());
    collector.set_permits(50);
    assert_eq!(collector.permits(), 50);
    let mut run = collector.begin_run(1, 60).unwrap();
    let mut started = 0;
    while let Step::Start { .. } = run.next_step() {
        started += 1;
    }
    assert_eq!(started, 50);
}

#[test]
fn failed_attempts_are_retried_until_the_limit() {
    let mut collector = collector();
    let mut run = collector.begin_run(1, 1).unwrap();
    assert_eq!(
        collector.on_attempt(&mut run, 1, FetchOutcome::TimedOut, 0),
        Attempt::Ignored
    );
    assert_eq!(collector.get_stats().total_requests, 0);
    run.next_step();
    assert_eq!(
        collector.on_attempt(&mut run, 1, FetchOutcome::TimedOut, 0),
        Attempt::Retry { delay_ms: 500 }
    );
    assert_eq!(run.in_flight(), 1);
    assert_eq!(
        collector.on_attempt(&mut run, 2, FetchOutcome::Failed(SourceError::NotFound), 0),
        Attempt::Retry { delay_ms: RETRY_DELAY_MS }
    );
    assert_eq!(
        collector.on_attempt(
            &mut run,
            MAX_RETRIES,
            FetchOutcome::Failed(SourceError::Parse("bad".to_string())),
            0
        ),
        Attempt::Settled
    );
    assert_eq!(run.in_flight(), 0);
    assert_eq!(run.result(), CollectorResult { total: 0, successful: 0, failed: 1 });
    assert_eq!(
        collector.get_stats(),
        CollectorStats { total_requests: 3, successful: 0, failed: 1, pools_collected: 0 }
    );
    assert_eq!(FETCH_TIMEOUT_SECS, 10);
}

#[test]
fn fetched_batch_is_filtered_and_stored() {
    let mut collector = collector();
    let mut run = collector.begin_run(1, 1).unwrap();
    run.next_step();
    let batch = vec![
        record("ETH", "gecko", "0x1", 50_000 * USD, 20_000 * USD),
        record("ETH", "gecko", "0x2", 40 * USD, 0),
        record("ETH", "gecko", "0x1", 60_000 * USD, 20_000 * USD),
        record("ETH", "gecko", "0x3", 5_000 * USD, 5_000 * USD),
    ];
    assert_eq!(
        collector.on_attempt(&mut run, 1, FetchOutcome::Fetched(batch), 77),
        Attempt::Settled
    );
    assert_eq!(run.result(), CollectorResult { total: 3, successful: 1, failed: 0 });
    assert_eq!(collector.cache().len(), 2);
    assert_eq!(
        collector.cache().get("gecko:ethereum:0x1").unwrap().lp_reserve_usd,
        60_000 * USD
    );
    assert!(collector.cache().get("gecko:ethereum:0x2").is_none());
    assert_eq!(collector.get_cached_pools_at(77 + 119).len(), 2);
    assert_eq!(collector.get_cached_pools_at(77 + 120).len(), 0);
    assert_eq!(collector.get_stats().pools_collected, 3);
    assert_eq!(collector.cleanup_cache_at(77 + 120), 2);
    assert_eq!(collector.cache().len(), 0);
    assert!(collector.get_cached_pools().is_empty());
}

#[test]
fn store_reports_accepted_records() {
    let mut collector = collector();
    let batch = vec![
        record("ETH", "gecko", "0x1", 50_000 * USD, 20_000 * USD),
        record("ETH", "gecko", "0x2", 40 * USD, 0),
    ];
    assert_eq!(collector.store_at(&batch, 5), 1);
    assert_eq!(collector.store_at(&[], 5), 0);
    assert_eq!(collector.cache().len(), 1);
    assert_eq!(collector.get_stats(), CollectorStats::default());
}
