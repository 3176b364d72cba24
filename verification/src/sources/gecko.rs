//! Records from the pool search of GeckoTerminal.

use vstd::prelude::*;
use crate::models::pool::PoolData;
use crate::models::pool::PoolRecord;

verus! {

/// What the status of a response means to a provider.
#[derive(Debug, Clone, Copy, PartialEq, Eq, Structural)]
pub enum HttpVerdict {
    /// The provider throttles: the fetch fails.
    RateLimited,
    /// The provider has no answer: the fetch succeeds with no record.
    NoData,
    /// The body holds the answer.
    Read,
}

/// What a status means: 429 throttles, any status outside 200 to 299 is no
/// answer, the rest is read.
pub open spec fn verdict_of(status: u16) -> HttpVerdict {
    if status == 429 {
        HttpVerdict::RateLimited
    } else if 200 <= status <= 299 {
        HttpVerdict::Read
    } else {
        HttpVerdict::NoData
    }
}

/// Decides what the status of a response means.
pub fn http_verdict(status: u16) -> (verdict: HttpVerdict)
    ensures
        verdict == verdict_of(status),
{
    if status == 429 {
        HttpVerdict::RateLimited
    } else if 200 <= status && status <= 299 {
        HttpVerdict::Read
    } else {
        HttpVerdict::NoData
    }
}

/// The address of the pool search for a symbol.
pub fn search_url(symbol: &str) -> (url: String)
    ensures
        url@ == "https://api.geckoterminal.com/api/v2/search/pools?query="@ + symbol@,
{
    String::from_str("https://api.geckoterminal.com/api/v2/search/pools?query=").concat(symbol)
}

/// One pool of a search result. Amounts are in millionths of a dollar, and
/// missing where the response had none that could be read.
#[derive(Debug)]
pub struct GeckoPool {
    pub name: String,
    pub address: String,
    pub price_usd: Option<u64>,
    pub reserve_usd: Option<u64>,
    pub volume_usd: Option<u64>,
    pub dex: Option<String>,
}

/// The mathematical value of a [`GeckoPool`].
pub struct GeckoPoolRecord {
    pub name: Seq<char>,
    pub address: Seq<char>,
    pub price_usd: Option<nat>,
    pub reserve_usd: Option<nat>,
    pub volume_usd: Option<nat>,
    pub dex: Option<Seq<char>>,
}

impl View for GeckoPool {
    type V = GeckoPoolRecord;

    open spec fn view(&self) -> GeckoPoolRecord {
        GeckoPoolRecord {
            name: self.name@,
            address: self.address@,
            price_usd: match self.price_usd {
                Some(value) => Some(value as nat),
                None => None,
            },
            reserve_usd: match self.reserve_usd {
                Some(value) => Some(value as nat),
                None => None,
            },
            volume_usd: match self.volume_usd {
                Some(value) => Some(value as nat),
                None => None,
            },
            dex: match self.dex {
                Some(name) => Some(name@),
                None => None,
            },
        }
    }
}

/// The values of a search result.
pub open spec fn gecko_pool_records(pools: Seq<GeckoPool>) -> Seq<GeckoPoolRecord> {
    pools.map_values(|pool: GeckoPool| pool@)
}

/// The record of a pool with a price. The search spans all chains, so the
/// chain is `multi`; missing liquidity and volume count as zero, and a pool
/// without a venue is on `unknown`.
pub open spec fn gecko_record(symbol: Seq<char>, pool: GeckoPoolRecord, now: int) -> PoolRecord {
    PoolRecord {
        symbol,
        chain: "multi"@,
        dex: match pool.dex {
            Some(name) => name,
            None => "unknown"@,
        },
        pool_address: pool.address,
        pair: pool.name,
        price_usd: pool.price_usd->0,
        lp_reserve_usd: match pool.reserve_usd {
            Some(value) => value,
            None => 0,
        },
        volume_24h: match pool.volume_usd {
            Some(value) => value,
            None => 0,
        },
        fee_tier: None,
        source: "geckoterminal"@,
        timestamp: now,
    }
}

/// The records of the first `upto` pools of a search result: one for each
/// pool that has a price.
pub open spec fn gecko_records_upto(
    symbol: Seq<char>,
    pools: Seq<GeckoPoolRecord>,
    now: int,
    upto: int,
) -> Seq<PoolRecord>
    decreases upto,
{
    if upto <= 0 {
        Seq::empty()
    } else if pools[upto - 1].price_usd is Some {
        gecko_records_upto(symbol, pools, now, upto - 1).push(
            gecko_record(symbol, pools[upto - 1], now),
        )
    } else {
        gecko_records_upto(symbol, pools, now, upto - 1)
    }
}

/// Builds the records of a search result, stamped with `now`.
pub fn gecko_pools(symbol: &str, found: &[GeckoPool], now: i64) -> (pools: Vec<PoolData>)
    ensures
        pools@.map_values(|pool: PoolData| pool@) == gecko_records_upto(
            symbol@,
            gecko_pool_records(found@),
            now as int,
            found@.len() as int,
        ),
{
    let ghost records = gecko_pool_records(found@);
    let mut pools: Vec<PoolData> = Vec::new();
    let mut i: usize = 0;
    while i < found.len()
        invariant
            0 <= i <= found@.len(),
            records == gecko_pool_records(found@),
            pools@.map_values(|pool: PoolData| pool@) == gecko_records_upto(
                symbol@,
                records,
                now as int,
                i as int,
            ),
        decreases found@.len() - i,
    {
        let entry = &found[i];
        match entry.price_usd {
            Some(price) => {
                let dex = match &entry.dex {
                    Some(name) => name.clone(),
                    None => String::from_str("unknown"),
                };
                let reserve = match entry.reserve_usd {
                    Some(value) => value,
                    None => 0,
                };
                let volume = match entry.volume_usd {
                    Some(value) => value,
                    None => 0,
                };
                let pool = PoolData::observed_at(
                    String::from_str(symbol),
                    String::from_str("multi"),
                    dex,
                    entry.address.clone(),
                    entry.name.clone(),
                    price,
                    reserve,
                    volume,
                    String::from_str("geckoterminal"),
                    now,
                );
                pools.push(pool);
            },
            None => {},
        }
        i += 1;
    }
    pools
}

} // verus!
