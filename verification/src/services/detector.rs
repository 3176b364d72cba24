//! Detection of price dispersion between venues.
//!
//! Both detectors are functions of a snapshot and the threshold. Pools of one
//! token form a group; within a group the cheapest and the dearest pool are
//! the first ones, in snapshot order, that have the lowest and the highest price.

use std::sync::Arc;
use vstd::prelude::*;
use vstd::hash_map::StringHashMap;
use crate::clock::unix_now;
use crate::models::alert::dex_dex_alert;
use crate::models::alert::label_of;
use crate::models::alert::percent_spread;
use crate::models::alert::reaches_threshold;
use crate::models::alert::spread_pct;
use crate::models::alert::spread_reaches;
use crate::models::alert::venue_label;
use crate::models::alert::AlertRecord;
use crate::models::alert::ArbType;
use crate::models::alert::ArbitrageAlert;
use crate::models::pool::PoolData;
use crate::models::pool::PoolRecord;
use crate::sources::upbit::CexPrice;
use crate::sources::upbit::CexQuote;

verus! {

/// The values of a snapshot of shared pool handles.
pub open spec fn pool_records(pools: Seq<Arc<PoolData>>) -> Seq<PoolRecord> {
    pools.map_values(|p: Arc<PoolData>| p@)
}

/// The values of a list of reference prices.
pub open spec fn cex_quotes(prices: Seq<CexPrice>) -> Seq<CexQuote> {
    prices.map_values(|p: CexPrice| p@)
}

/// The values of a list of alerts.
pub open spec fn alert_records(alerts: Seq<ArbitrageAlert>) -> Seq<AlertRecord> {
    alerts.map_values(|a: ArbitrageAlert| a@)
}

/// How many of the first `upto` pools quote `symbol`.
pub open spec fn group_size(pools: Seq<PoolRecord>, symbol: Seq<char>, upto: int) -> nat
    decreases upto,
{
    if upto <= 0 {
        0
    } else {
        let rest = group_size(pools, symbol, upto - 1);
        if pools[upto - 1].symbol == symbol {
            rest + 1
        } else {
            rest
        }
    }
}

/// The index of the cheapest of the first `upto` pools that quote `symbol`,
/// the earliest one where several are equally cheap; `-1` where there is none.
pub open spec fn lowest_index(pools: Seq<PoolRecord>, symbol: Seq<char>, upto: int) -> int
    decreases upto,
{
    if upto <= 0 {
        -1
    } else {
        let rest = lowest_index(pools, symbol, upto - 1);
        if pools[upto - 1].symbol == symbol && (rest < 0 || pools[upto - 1].price_usd
            < pools[rest].price_usd) {
            upto - 1
        } else {
            rest
        }
    }
}

/// The index of the dearest of the first `upto` pools that quote `symbol`,
/// the earliest one where several are equally dear; `-1` where there is none.
pub open spec fn highest_index(pools: Seq<PoolRecord>, symbol: Seq<char>, upto: int) -> int
    decreases upto,
{
    if upto <= 0 {
        -1
    } else {
        let rest = highest_index(pools, symbol, upto - 1);
        if pools[upto - 1].symbol == symbol && (rest < 0 || pools[upto - 1].price_usd
            > pools[rest].price_usd) {
            upto - 1
        } else {
            rest
        }
    }
}

/// What the pool at `index` contributes to the alerts between pools: the alert
/// of its group if it is the group's cheapest pool, the group has at least two
/// pools and the spread reaches the threshold; otherwise nothing.
pub open spec fn dex_dex_alert_at(
    pools: Seq<PoolRecord>,
    threshold: nat,
    timestamp: int,
    index: int,
) -> Seq<AlertRecord> {
    let symbol = pools[index].symbol;
    let high = highest_index(pools, symbol, pools.len() as int);
    if lowest_index(pools, symbol, pools.len() as int) == index && group_size(
        pools,
        symbol,
        pools.len() as int,
    ) >= 2 && spread_reaches(pools[index].price_usd, pools[high].price_usd, threshold) {
        seq![dex_dex_alert(pools[index], pools[high], timestamp)]
    } else {
        Seq::empty()
    }
}

/// The alerts that the first `upto` pools contribute, in snapshot order.
pub open spec fn dex_dex_alerts_upto(
    pools: Seq<PoolRecord>,
    threshold: nat,
    timestamp: int,
    upto: int,
) -> Seq<AlertRecord>
    decreases upto,
{
    if upto <= 0 {
        Seq::empty()
    } else {
        dex_dex_alerts_upto(pools, threshold, timestamp, upto - 1) + dex_dex_alert_at(
            pools,
            threshold,
            timestamp,
            upto - 1,
        )
    }
}

/// The alerts between pools of a snapshot: one for each token whose cheapest
/// and dearest pool are at least `threshold` millionths apart, ordered by the
/// position of the cheapest pool.
pub open spec fn dex_dex_alerts(pools: Seq<PoolRecord>, threshold: nat, timestamp: int) -> Seq<
    AlertRecord,
> {
    dex_dex_alerts_upto(pools, threshold, timestamp, pools.len() as int)
}

/// The label of the exchange side of an alert.
pub open spec fn cex_label() -> Seq<char> {
    "upbit"@
}

/// The index of the last of the first `upto` reference prices for `symbol`;
/// `-1` where there is none.
pub open spec fn cex_index(prices: Seq<CexQuote>, symbol: Seq<char>, upto: int) -> int
    decreases upto,
{
    if upto <= 0 {
        -1
    } else if prices[upto - 1].symbol == symbol {
        upto - 1
    } else {
        cex_index(prices, symbol, upto - 1)
    }
}

/// The alert between a pool and a reference price, the lower price first.
/// Where both prices are equal the exchange is the low side.
pub open spec fn dex_cex_alert(pool: PoolRecord, cex_price: nat, timestamp: int) -> AlertRecord {
    if pool.price_usd < cex_price {
        AlertRecord {
            symbol: pool.symbol,
            arb_type: ArbType::DexToCex,
            low_price: pool.price_usd,
            low_source: venue_label(pool.dex, pool.pool_address),
            high_price: cex_price,
            high_source: cex_label(),
            diff_pct: spread_pct(pool.price_usd, cex_price),
            timestamp,
        }
    } else {
        AlertRecord {
            symbol: pool.symbol,
            arb_type: ArbType::DexToCex,
            low_price: cex_price,
            low_source: cex_label(),
            high_price: pool.price_usd,
            high_source: venue_label(pool.dex, pool.pool_address),
            diff_pct: spread_pct(cex_price, pool.price_usd),
            timestamp,
        }
    }
}

/// What one pool contributes to the alerts against the exchange: an alert if
/// a reference price exists for its token, both prices are known and they are
/// at least `threshold` millionths apart; otherwise nothing.
pub open spec fn dex_cex_alert_for(
    pool: PoolRecord,
    prices: Seq<CexQuote>,
    threshold: nat,
    timestamp: int,
) -> Seq<AlertRecord> {
    let at = cex_index(prices, pool.symbol, prices.len() as int);
    if at >= 0 && pool.price_usd > 0 && prices[at].price_usd > 0 && spread_reaches(
        if pool.price_usd < prices[at].price_usd {
            pool.price_usd
        } else {
            prices[at].price_usd
        },
        if pool.price_usd < prices[at].price_usd {
            prices[at].price_usd
        } else {
            pool.price_usd
        },
        threshold,
    ) {
        seq![dex_cex_alert(pool, prices[at].price_usd, timestamp)]
    } else {
        Seq::empty()
    }
}

/// The alerts that the first `upto` pools contribute against the exchange.
pub open spec fn dex_cex_alerts_upto(
    pools: Seq<PoolRecord>,
    prices: Seq<CexQuote>,
    threshold: nat,
    timestamp: int,
    upto: int,
) -> Seq<AlertRecord>
    decreases upto,
{
    if upto <= 0 {
        Seq::empty()
    } else {
        dex_cex_alerts_upto(pools, prices, threshold, timestamp, upto - 1) + dex_cex_alert_for(
            pools[upto - 1],
            prices,
            threshold,
            timestamp,
        )
    }
}

/// The alerts of a snapshot against the exchange, in snapshot order.
pub open spec fn dex_cex_alerts(
    pools: Seq<PoolRecord>,
    prices: Seq<CexQuote>,
    threshold: nat,
    timestamp: int,
) -> Seq<AlertRecord> {
    dex_cex_alerts_upto(pools, prices, threshold, timestamp, pools.len() as int)
}

/// The alerts between pools followed by the alerts against the exchange.
pub open spec fn all_alerts(
    pools: Seq<PoolRecord>,
    prices: Seq<CexQuote>,
    threshold: nat,
    timestamp: int,
) -> Seq<AlertRecord> {
    dex_dex_alerts(pools, threshold, timestamp) + dex_cex_alerts(
        pools,
        prices,
        threshold,
        timestamp,
    )
}

/// What the scan knows of one group after a prefix of the snapshot.
#[derive(Clone, Copy)]
struct GroupAcc {
    count: usize,
    low: usize,
    high: usize,
}

/// The scan's table agrees with the group of `symbol` among the first `upto` pools.
spec fn group_tracked(
    table: Map<Seq<char>, GroupAcc>,
    pools: Seq<PoolRecord>,
    symbol: Seq<char>,
    upto: int,
) -> bool {
    if table.contains_key(symbol) {
        &&& table[symbol].count == group_size(pools, symbol, upto)
        &&& 1 <= table[symbol].count <= upto
        &&& table[symbol].low == lowest_index(pools, symbol, upto)
        &&& table[symbol].high == highest_index(pools, symbol, upto)
        &&& table[symbol].low < upto
        &&& table[symbol].high < upto
    } else {
        &&& group_size(pools, symbol, upto) == 0
        &&& lowest_index(pools, symbol, upto) == -1
        &&& highest_index(pools, symbol, upto) == -1
    }
}

/// The lookup table agrees with the reference prices among the first `upto`.
spec fn quote_tracked(
    table: Map<Seq<char>, usize>,
    prices: Seq<CexQuote>,
    symbol: Seq<char>,
    upto: int,
) -> bool {
    if table.contains_key(symbol) {
        table[symbol] == cex_index(prices, symbol, upto) && table[symbol] < upto
    } else {
        cex_index(prices, symbol, upto) == -1
    }
}

/// Scans a snapshot once and records each group's size, cheapest and dearest pool.
fn scan_groups(pools: &[Arc<PoolData>]) -> (table: StringHashMap<GroupAcc>)
    ensures
        forall|symbol: Seq<char>| #[trigger]
            group_tracked(table@, pool_records(pools@), symbol, pools@.len() as int),
{
    let ghost recs = pool_records(pools@);
    let mut table: StringHashMap<GroupAcc> = StringHashMap::new();
    let mut k: usize = 0;
    while k < pools.len()
        invariant
            0 <= k <= pools.len(),
            recs == pool_records(pools@),
            forall|symbol: Seq<char>| #[trigger] group_tracked(table@, recs, symbol, k as int),
        decreases pools.len() - k,
    {
        let pool = &pools[k];
        let ghost before = table@;
        let ghost sym = pool.symbol@;
        assert(group_tracked(before, recs, sym, k as int));
        let acc = match table.get(pool.symbol.as_str()) {
            Some(seen) => {
                let low_pool = &pools[seen.low];
                let high_pool = &pools[seen.high];
                GroupAcc {
                    count: seen.count + 1,
                    low: if pool.price_usd < low_pool.price_usd {
                        k
                    } else {
                        seen.low
                    },
                    high: if pool.price_usd > high_pool.price_usd {
                        k
                    } else {
                        seen.high
                    },
                }
            },
            None => GroupAcc { count: 1, low: k, high: k },
        };
        table.insert(pool.symbol.clone(), acc);
        proof {
            assert forall|symbol: Seq<char>| #[trigger]
                group_tracked(table@, recs, symbol, k + 1) by {
                assert(group_tracked(before, recs, symbol, k as int));
            }
        }
        k += 1;
    }
    table
}

/// Records for each token the position of its last reference price.
fn index_quotes(prices: &[CexPrice]) -> (table: StringHashMap<usize>)
    ensures
        forall|symbol: Seq<char>| #[trigger]
            quote_tracked(table@, cex_quotes(prices@), symbol, prices@.len() as int),
{
    let ghost quotes = cex_quotes(prices@);
    let mut table: StringHashMap<usize> = StringHashMap::new();
    let mut k: usize = 0;
    while k < prices.len()
        invariant
            0 <= k <= prices.len(),
            quotes == cex_quotes(prices@),
            forall|symbol: Seq<char>| #[trigger] quote_tracked(table@, quotes, symbol, k as int),
        decreases prices.len() - k,
    {
        let ghost before = table@;
        table.insert(prices[k].symbol.clone(), k);
        proof {
            assert forall|symbol: Seq<char>| #[trigger]
                quote_tracked(table@, quotes, symbol, k + 1) by {
                assert(quote_tracked(before, quotes, symbol, k as int));
            }
        }
        k += 1;
    }
    table
}

/// Finds price dispersion in snapshots of the pool cache.
#[derive(Debug, Clone, Copy)]
pub struct ArbitrageDetector {
    threshold: u64,
}

impl ArbitrageDetector {
    /// The least spread that raises an alert, in parts per million.
    pub closed spec fn spec_threshold(&self) -> nat {
        self.threshold as nat
    }

    /// A detector with the given threshold in parts per million.
    pub fn new(threshold: u64) -> (detector: Self)
        ensures
            detector.spec_threshold() == threshold,
    {
        ArbitrageDetector { threshold }
    }

    /// The threshold in parts per million.
    pub fn threshold(&self) -> (threshold: u64)
        ensures
            threshold == self.spec_threshold(),
    {
        self.threshold
    }

    /// Replaces the threshold.
    pub fn set_threshold(&mut self, threshold: u64)
        ensures
            final(self).spec_threshold() == threshold,
    {
        self.threshold = threshold;
    }

    /// The alerts between pools of one snapshot, stamped with `timestamp`.
    pub fn detect_dex_dex_at(&self, pools: &[Arc<PoolData>], timestamp: i64) -> (alerts: Vec<
        ArbitrageAlert,
    >)
        ensures
            alert_records(alerts@) == dex_dex_alerts(
                pool_records(pools@),
                self.spec_threshold(),
                timestamp as int,
            ),
    {
        let ghost recs = pool_records(pools@);
        let table = scan_groups(pools);
        let mut alerts: Vec<ArbitrageAlert> = Vec::new();
        let mut i: usize = 0;
        while i < pools.len()
            invariant
                0 <= i <= pools.len(),
                recs == pool_records(pools@),
                forall|symbol: Seq<char>| #[trigger]
                    group_tracked(table@, recs, symbol, pools@.len() as int),
                alert_records(alerts@) == dex_dex_alerts_upto(
                    recs,
                    self.spec_threshold(),
                    timestamp as int,
                    i as int,
                ),
            decreases pools.len() - i,
        {
            let pool = &pools[i];
            assert(group_tracked(table@, recs, pool.symbol@, pools@.len() as int));
            match table.get(pool.symbol.as_str()) {
                Some(group) => {
                    if group.low == i && group.count >= 2 {
                        let high = &pools[group.high];
                        if reaches_threshold(pool.price_usd, high.price_usd, self.threshold) {
                            let alert = ArbitrageAlert::from_pools_at(pool, high, timestamp);
                            alerts.push(alert);
                        }
                    }
                },
                None => {},
            }
            i += 1;
        }
        alerts
    }

    /// The alerts between pools of one snapshot, stamped with the current time.
    ///
    /// But for the timestamp, the result is a function of the snapshot and
    /// the threshold.
    pub fn detect_dex_dex(&self, pools: &[Arc<PoolData>]) -> (alerts: Vec<ArbitrageAlert>)
        ensures
            exists|timestamp: int|
                alert_records(alerts@) == dex_dex_alerts(
                    pool_records(pools@),
                    self.spec_threshold(),
                    timestamp,
                ),
    {
        let now: i64 = unix_now();
        self.detect_dex_dex_at(pools, now)
    }

    /// The alerts of one snapshot against the exchange, stamped with `timestamp`.
    pub fn detect_dex_cex_at(
        &self,
        pools: &[Arc<PoolData>],
        cex_prices: &[CexPrice],
        timestamp: i64,
    ) -> (alerts: Vec<ArbitrageAlert>)
        ensures
            alert_records(alerts@) == dex_cex_alerts(
                pool_records(pools@),
                cex_quotes(cex_prices@),
                self.spec_threshold(),
                timestamp as int,
            ),
    {
        let ghost recs = pool_records(pools@);
        let ghost quotes = cex_quotes(cex_prices@);
        let table = index_quotes(cex_prices);
        let mut alerts: Vec<ArbitrageAlert> = Vec::new();
        let mut i: usize = 0;
        while i < pools.len()
            invariant
                0 <= i <= pools.len(),
                recs == pool_records(pools@),
                quotes == cex_quotes(cex_prices@),
                forall|symbol: Seq<char>| #[trigger]
                    quote_tracked(table@, quotes, symbol, cex_prices@.len() as int),
                alert_records(alerts@) == dex_cex_alerts_upto(
                    recs,
                    quotes,
                    self.spec_threshold(),
                    timestamp as int,
                    i as int,
                ),
            decreases pools.len() - i,
        {
            let pool = &pools[i];
            assert(quote_tracked(table@, quotes, pool.symbol@, cex_prices@.len() as int));
            match table.get(pool.symbol.as_str()) {
                Some(at) => {
                    let cex = &cex_prices[*at];
                    if pool.price_usd > 0 && cex.price_usd > 0 {
                        let alert = if pool.price_usd < cex.price_usd {
                            if reaches_threshold(pool.price_usd, cex.price_usd, self.threshold) {
                                proof {
                                    reveal_strlit("upbit");
                                }
                                Some(
                                    ArbitrageAlert {
                                        symbol: pool.symbol.clone(),
                                        arb_type: ArbType::DexToCex,
                                        low_price: pool.price_usd,
                                        low_source: label_of(&pool.dex, &pool.pool_address),
                                        high_price: cex.price_usd,
                                        high_source: String::from_str("upbit"),
                                        diff_pct: percent_spread(pool.price_usd, cex.price_usd),
                                        timestamp,
                                    },
                                )
                            } else {
                                None
                            }
                        } else {
                            if reaches_threshold(cex.price_usd, pool.price_usd, self.threshold) {
                                Some(
                                    ArbitrageAlert {
                                        symbol: pool.symbol.clone(),
                                        arb_type: ArbType::DexToCex,
                                        low_price: cex.price_usd,
                                        low_source: String::from_str("upbit"),
                                        high_price: pool.price_usd,
                                        high_source: label_of(&pool.dex, &pool.pool_address),
                                        diff_pct: percent_spread(cex.price_usd, pool.price_usd),
                                        timestamp,
                                    },
                                )
                            } else {
                                None
                            }
                        };
                        match alert {
                            Some(alert) => {
                                alerts.push(alert);
                            },
                            None => {},
                        }
                    }
                },
                None => {},
            }
            i += 1;
        }
        alerts
    }

    /// The alerts of one snapshot against the exchange, stamped with the
    /// current time.
    ///
    /// But for the timestamp, the result is a function of the snapshot, the
    /// reference prices and the threshold.
    pub fn detect_dex_cex(&self, pools: &[Arc<PoolData>], cex_prices: &[CexPrice]) -> (alerts:
        Vec<ArbitrageAlert>)
        ensures
            exists|timestamp: int|
                alert_records(alerts@) == dex_cex_alerts(
                    pool_records(pools@),
                    cex_quotes(cex_prices@),
                    self.spec_threshold(),
                    timestamp,
                ),
    {
        let now: i64 = unix_now();
        self.detect_dex_cex_at(pools, cex_prices, now)
    }

    /// The alerts between pools followed by the alerts against the exchange,
    /// all stamped with `timestamp`.
    pub fn detect_all_at(
        &self,
        pools: &[Arc<PoolData>],
        cex_prices: &[CexPrice],
        timestamp: i64,
    ) -> (alerts: Vec<ArbitrageAlert>)
        ensures
            alert_records(alerts@) == all_alerts(
                pool_records(pools@),
                cex_quotes(cex_prices@),
                self.spec_threshold(),
                timestamp as int,
            ),
    {
        let mut alerts = self.detect_dex_dex_at(pools, timestamp);
        let mut against_cex = self.detect_dex_cex_at(pools, cex_prices, timestamp);
        alerts.append(&mut against_cex);
        alerts
    }
}

} // verus!
