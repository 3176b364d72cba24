//! Laws of the detectors, stated over their specifications.

use vstd::prelude::*;
use crate::models::alert::spread_reaches;
use crate::models::alert::AlertRecord;
use crate::models::alert::ArbType;
use crate::models::pool::PoolRecord;
use crate::services::detector::dex_cex_alerts;
use crate::services::detector::dex_cex_alerts_upto;
use crate::services::detector::dex_dex_alerts;
use crate::services::detector::dex_dex_alerts_upto;
use crate::services::detector::group_size;
use crate::services::detector::highest_index;
use crate::services::detector::lowest_index;
use crate::sources::upbit::CexQuote;

verus! {

/// Whether the pool at `low` is the first cheapest of the first `upto` pools
/// that quote `symbol`: it quotes the token, no pool of the group is cheaper,
/// and every earlier pool of the group is dearer.
pub open spec fn is_first_cheapest(
    pools: Seq<PoolRecord>,
    symbol: Seq<char>,
    upto: int,
    low: int,
) -> bool {
    &&& 0 <= low < upto
    &&& pools[low].symbol == symbol
    &&& forall|j: int|
        0 <= j < upto && (#[trigger] pools[j]).symbol == symbol ==> pools[low].price_usd
            <= pools[j].price_usd
    &&& forall|j: int|
        0 <= j < low && (#[trigger] pools[j]).symbol == symbol ==> pools[low].price_usd
            < pools[j].price_usd
}

/// Whether the pool at `high` is the first dearest of the first `upto` pools
/// that quote `symbol`.
pub open spec fn is_first_dearest(
    pools: Seq<PoolRecord>,
    symbol: Seq<char>,
    upto: int,
    high: int,
) -> bool {
    &&& 0 <= high < upto
    &&& pools[high].symbol == symbol
    &&& forall|j: int|
        0 <= j < upto && (#[trigger] pools[j]).symbol == symbol ==> pools[high].price_usd
            >= pools[j].price_usd
    &&& forall|j: int|
        0 <= j < high && (#[trigger] pools[j]).symbol == symbol ==> pools[high].price_usd
            > pools[j].price_usd
}

/// A group has a cheapest pool exactly when it is not empty, and that pool is
/// the first cheapest of the group.
pub proof fn lowest_is_first_minimum(pools: Seq<PoolRecord>, symbol: Seq<char>, upto: int)
    requires
        0 <= upto <= pools.len(),
    ensures
        group_size(pools, symbol, upto) == 0 <==> lowest_index(pools, symbol, upto) == -1,
        -1 <= lowest_index(pools, symbol, upto) < upto,
        group_size(pools, symbol, upto) <= upto,
        lowest_index(pools, symbol, upto) == -1 ==> forall|j: int|
            0 <= j < upto ==> (#[trigger] pools[j]).symbol != symbol,
        lowest_index(pools, symbol, upto) >= 0 ==> is_first_cheapest(
            pools,
            symbol,
            upto,
            lowest_index(pools, symbol, upto),
        ),
    decreases upto,
{
    if upto > 0 {
        lowest_is_first_minimum(pools, symbol, upto - 1);
    }
}

/// A group has a dearest pool exactly when it is not empty, and that pool is
/// the first dearest of the group.
pub proof fn highest_is_first_maximum(pools: Seq<PoolRecord>, symbol: Seq<char>, upto: int)
    requires
        0 <= upto <= pools.len(),
    ensures
        group_size(pools, symbol, upto) == 0 <==> highest_index(pools, symbol, upto) == -1,
        -1 <= highest_index(pools, symbol, upto) < upto,
        highest_index(pools, symbol, upto) == -1 ==> forall|j: int|
            0 <= j < upto ==> (#[trigger] pools[j]).symbol != symbol,
        highest_index(pools, symbol, upto) >= 0 ==> is_first_dearest(
            pools,
            symbol,
            upto,
            highest_index(pools, symbol, upto),
        ),
    decreases upto,
{
    if upto > 0 {
        highest_is_first_maximum(pools, symbol, upto - 1);
    }
}

proof fn lone_pool_upto(
    pools: Seq<PoolRecord>,
    threshold: nat,
    timestamp: int,
    symbol: Seq<char>,
    upto: int,
)
    requires
        0 <= upto <= pools.len(),
        group_size(pools, symbol, pools.len() as int) <= 1,
    ensures
        forall|i: int|
            0 <= i < dex_dex_alerts_upto(pools, threshold, timestamp, upto).len()
                ==> #[trigger] dex_dex_alerts_upto(pools, threshold, timestamp, upto)[i].symbol
                != symbol,
    decreases upto,
{
    if upto > 0 {
        lone_pool_upto(pools, threshold, timestamp, symbol, upto - 1);
    }
}

/// A token quoted by a single pool, or by none, raises no alert between
/// pools, whatever the threshold.
pub proof fn single_pool_raises_no_alert(
    pools: Seq<PoolRecord>,
    threshold: nat,
    timestamp: int,
    symbol: Seq<char>,
)
    requires
        group_size(pools, symbol, pools.len() as int) <= 1,
    ensures
        forall|i: int|
            0 <= i < dex_dex_alerts(pools, threshold, timestamp).len()
                ==> #[trigger] dex_dex_alerts(pools, threshold, timestamp)[i].symbol != symbol,
{
    lone_pool_upto(pools, threshold, timestamp, symbol, pools.len() as int);
}

proof fn dex_dex_sides_upto(pools: Seq<PoolRecord>, threshold: nat, timestamp: int, upto: int)
    requires
        0 <= upto <= pools.len(),
    ensures
        forall|i: int|
            0 <= i < dex_dex_alerts_upto(pools, threshold, timestamp, upto).len() ==> {
                let alert = #[trigger] dex_dex_alerts_upto(pools, threshold, timestamp, upto)[i];
                let low = lowest_index(pools, alert.symbol, pools.len() as int);
                let high = highest_index(pools, alert.symbol, pools.len() as int);
                &&& 0 <= low < upto
                &&& 0 <= high < pools.len()
                &&& alert.low_price == pools[low].price_usd
                &&& alert.high_price == pools[high].price_usd
                &&& pools[low].symbol == alert.symbol
            },
        forall|i: int, j: int|
            0 <= i < j < dex_dex_alerts_upto(pools, threshold, timestamp, upto).len()
                ==> (#[trigger] dex_dex_alerts_upto(pools, threshold, timestamp, upto)[i]).symbol
                != (#[trigger] dex_dex_alerts_upto(pools, threshold, timestamp, upto)[j]).symbol,
    decreases upto,
{
    if upto > 0 {
        dex_dex_sides_upto(pools, threshold, timestamp, upto - 1);
        let symbol = pools[upto - 1].symbol;
        highest_is_first_maximum(pools, symbol, pools.len() as int);
        lowest_is_first_minimum(pools, symbol, pools.len() as int);
    }
}

/// An alert between pools quotes the prices of the cheapest and the
/// dearest pool of its token, so every pool of the token is priced between
/// the two sides; and no token raises two alerts.
pub proof fn dex_dex_alert_brackets_its_group(
    pools: Seq<PoolRecord>,
    threshold: nat,
    timestamp: int,
)
    ensures
        forall|i: int, j: int|
            0 <= i < dex_dex_alerts(pools, threshold, timestamp).len() && 0 <= j < pools.len() && (
            #[trigger] pools[j]).symbol == (#[trigger] dex_dex_alerts(
                pools,
                threshold,
                timestamp,
            )[i]).symbol ==> dex_dex_alerts(pools, threshold, timestamp)[i].low_price
                <= pools[j].price_usd <= dex_dex_alerts(pools, threshold, timestamp)[i].high_price,
        forall|i: int, j: int|
            0 <= i < j < dex_dex_alerts(pools, threshold, timestamp).len() ==> (
            #[trigger] dex_dex_alerts(pools, threshold, timestamp)[i]).symbol != (
            #[trigger] dex_dex_alerts(pools, threshold, timestamp)[j]).symbol,
{
    dex_dex_sides_upto(pools, threshold, timestamp, pools.len() as int);
    let alerts = dex_dex_alerts(pools, threshold, timestamp);
    assert forall|i: int, j: int|
        0 <= i < alerts.len() && 0 <= j < pools.len() && (#[trigger] pools[j]).symbol == (
        #[trigger] alerts[i]).symbol implies alerts[i].low_price <= pools[j].price_usd
        <= alerts[i].high_price by {
        lowest_is_first_minimum(pools, alerts[i].symbol, pools.len() as int);
        highest_is_first_maximum(pools, alerts[i].symbol, pools.len() as int);
    }
}

/// What holds of every alert that a detector raises with a given threshold.
pub open spec fn alert_is_justified(
    alert: AlertRecord,
    kind: ArbType,
    threshold: nat,
    timestamp: int,
) -> bool {
    &&& alert.arb_type == kind
    &&& alert.timestamp == timestamp
    &&& spread_reaches(alert.low_price, alert.high_price, threshold)
}

proof fn dex_dex_justified_upto(
    pools: Seq<PoolRecord>,
    threshold: nat,
    timestamp: int,
    upto: int,
)
    requires
        0 <= upto <= pools.len(),
    ensures
        dex_dex_alerts_upto(pools, threshold, timestamp, upto).len() <= upto,
        forall|i: int|
            0 <= i < dex_dex_alerts_upto(pools, threshold, timestamp, upto).len()
                ==> alert_is_justified(
                #[trigger] dex_dex_alerts_upto(pools, threshold, timestamp, upto)[i],
                ArbType::DexToDex,
                threshold,
                timestamp,
            ),
    decreases upto,
{
    if upto > 0 {
        dex_dex_justified_upto(pools, threshold, timestamp, upto - 1);
    }
}

/// Every alert between pools has a known low price, a high price that is not
/// lower, and a spread that reaches the threshold. There are at most as many
/// alerts as pools.
pub proof fn dex_dex_alerts_are_justified(pools: Seq<PoolRecord>, threshold: nat, timestamp: int)
    ensures
        dex_dex_alerts(pools, threshold, timestamp).len() <= pools.len(),
        forall|i: int|
            0 <= i < dex_dex_alerts(pools, threshold, timestamp).len() ==> alert_is_justified(
                #[trigger] dex_dex_alerts(pools, threshold, timestamp)[i],
                ArbType::DexToDex,
                threshold,
                timestamp,
            ),
{
    dex_dex_justified_upto(pools, threshold, timestamp, pools.len() as int);
}

proof fn dex_cex_justified_upto(
    pools: Seq<PoolRecord>,
    prices: Seq<CexQuote>,
    threshold: nat,
    timestamp: int,
    upto: int,
)
    requires
        0 <= upto <= pools.len(),
    ensures
        dex_cex_alerts_upto(pools, prices, threshold, timestamp, upto).len() <= upto,
        forall|i: int|
            0 <= i < dex_cex_alerts_upto(pools, prices, threshold, timestamp, upto).len()
                ==> alert_is_justified(
                #[trigger] dex_cex_alerts_upto(pools, prices, threshold, timestamp, upto)[i],
                ArbType::DexToCex,
                threshold,
                timestamp,
            ),
    decreases upto,
{
    if upto > 0 {
        dex_cex_justified_upto(pools, prices, threshold, timestamp, upto - 1);
    }
}

/// Every alert against the exchange has a known low price, a high price that
/// is not lower, and a spread that reaches the threshold. There is at most
/// one alert for each pool.
pub proof fn dex_cex_alerts_are_justified(
    pools: Seq<PoolRecord>,
    prices: Seq<CexQuote>,
    threshold: nat,
    timestamp: int,
)
    ensures
        dex_cex_alerts(pools, prices, threshold, timestamp).len() <= pools.len(),
        forall|i: int|
            0 <= i < dex_cex_alerts(pools, prices, threshold, timestamp).len()
                ==> alert_is_justified(
                #[trigger] dex_cex_alerts(pools, prices, threshold, timestamp)[i],
                ArbType::DexToCex,
                threshold,
                timestamp,
            ),
{
    dex_cex_justified_upto(pools, prices, threshold, timestamp, pools.len() as int);
}

/// Without reference prices no pool raises an alert against the exchange.
pub proof fn no_quotes_no_alerts(pools: Seq<PoolRecord>, threshold: nat, timestamp: int, upto: int)
    requires
        0 <= upto <= pools.len(),
    ensures
        dex_cex_alerts_upto(pools, Seq::empty(), threshold, timestamp, upto) =~= Seq::empty(),
    decreases upto,
{
    if upto > 0 {
        no_quotes_no_alerts(pools, threshold, timestamp, upto - 1);
    }
}

} // verus!
