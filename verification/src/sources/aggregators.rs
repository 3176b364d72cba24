//! Records from the route answers of swap aggregators and from the token
//! search of Matcha.

use vstd::prelude::*;
use crate::decimal::decimal;
use crate::decimal::decimal_text;
use crate::models::pool::PoolData;
use crate::models::pool::PoolRecord;
use crate::sources::meta_agg::hop_records;
use crate::sources::meta_agg::hop_venue;
use crate::sources::meta_agg::pool_views;
use crate::sources::meta_agg::quote_record;
use crate::sources::meta_agg::usdc_pair;
use crate::sources::meta_agg::RouteHop;
use crate::sources::meta_agg::RouteHopRecord;
use crate::text::contains_text;
use crate::text::occurs_in;
use crate::text::same_but_ascii_case;
use crate::text::same_text_but_case;
use crate::text::to_upper;
use crate::text::uppercase;

verus! {

/// The name of a chain in the records of a route; `None` for a chain that
/// routes are not asked on.
pub open spec fn route_chain_label(chain_id: u32) -> Option<Seq<char>> {
    if chain_id == 1 {
        Some("ethereum"@)
    } else if chain_id == 56 {
        Some("bsc"@)
    } else if chain_id == 137 {
        Some("polygon"@)
    } else if chain_id == 42161 {
        Some("arbitrum"@)
    } else if chain_id == 10 {
        Some("optimism"@)
    } else if chain_id == 8453 {
        Some("base"@)
    } else {
        None
    }
}

/// Looks up the name of a chain that routes are asked on.
pub fn route_chain_name(chain_id: u32) -> (name: Option<&'static str>)
    ensures
        match name {
            Some(text) => route_chain_label(chain_id) == Some(text@),
            None => route_chain_label(chain_id) is None,
        },
{
    match chain_id {
        1 => Some("ethereum"),
        56 => Some("bsc"),
        137 => Some("polygon"),
        42161 => Some("arbitrum"),
        10 => Some("optimism"),
        8453 => Some("base"),
        _ => None,
    }
}

/// The name of a chain in the records of the token search; `other` for a
/// chain that the table does not list.
pub open spec fn search_chain_label(chain_id: u64) -> Seq<char> {
    if chain_id == 1 {
        "ethereum"@
    } else if chain_id == 56 {
        "bsc"@
    } else if chain_id == 137 {
        "polygon"@
    } else if chain_id == 42161 {
        "arbitrum"@
    } else if chain_id == 8453 {
        "base"@
    } else if chain_id == 10 {
        "optimism"@
    } else if chain_id == 43114 {
        "avalanche"@
    } else if chain_id == 534352 {
        "scroll"@
    } else if chain_id == 59144 {
        "linea"@
    } else if chain_id == 5000 {
        "mantle"@
    } else {
        "other"@
    }
}

/// Looks up the name of a chain of the token search.
pub fn search_chain_name(chain_id: u64) -> (name: &'static str)
    ensures
        name@ == search_chain_label(chain_id),
{
    match chain_id {
        1 => "ethereum",
        56 => "bsc",
        137 => "polygon",
        42161 => "arbitrum",
        8453 => "base",
        10 => "optimism",
        43114 => "avalanche",
        534352 => "scroll",
        59144 => "linea",
        5000 => "mantle",
        _ => "other",
    }
}

/// The records of the first `upto` hops of a route: one for each hop that
/// names a pool, under the pool's name after `prefix`, at the price of the
/// route, which counts as zero where it could not be read.
pub open spec fn route_hop_records(
    symbol: Seq<char>,
    chain: Seq<char>,
    hops: Seq<RouteHopRecord>,
    amount: Option<u64>,
    source: Seq<char>,
    prefix: Seq<char>,
    now: int,
    upto: int,
) -> Seq<PoolRecord>
    decreases upto,
{
    if upto <= 0 {
        Seq::empty()
    } else if hops[upto - 1].pool.len() > 0 {
        route_hop_records(symbol, chain, hops, amount, source, prefix, now, upto - 1).push(
            quote_record(
                symbol,
                chain,
                hop_venue(hops[upto - 1], source),
                prefix + hops[upto - 1].pool,
                usdc_pair(symbol),
                match amount {
                    Some(value) => value as nat,
                    None => 0,
                },
                source,
                now,
            ),
        )
    } else {
        route_hop_records(symbol, chain, hops, amount, source, prefix, now, upto - 1)
    }
}

/// The records after the route of one chain was read: those of the hops are
/// appended, and a record under `fallback` if no record is there by then
/// and the amount of the route could be read.
pub open spec fn route_read(
    pools: Seq<PoolRecord>,
    symbol: Seq<char>,
    chain: Seq<char>,
    hops: Seq<RouteHopRecord>,
    amount: Option<u64>,
    source: Seq<char>,
    prefix: Seq<char>,
    fallback: Seq<char>,
    now: int,
) -> Seq<PoolRecord> {
    let with_hops = pools + route_hop_records(
        symbol,
        chain,
        hops,
        amount,
        source,
        prefix,
        now,
        hops.len() as int,
    );
    if with_hops.len() == 0 && amount is Some {
        with_hops.push(
            quote_record(
                symbol,
                chain,
                source,
                fallback,
                usdc_pair(symbol),
                amount->0 as nat,
                source,
                now,
            ),
        )
    } else {
        with_hops
    }
}

/// Reads the route of one chain into the records of a fetch.
pub fn read_route(
    pools: &mut Vec<PoolData>,
    symbol: &str,
    chain: &str,
    hops: &[RouteHop],
    amount: Option<u64>,
    source: &str,
    prefix: &str,
    fallback: &str,
    now: i64,
)
    ensures
        pool_views(final(pools)@) == route_read(
            pool_views(old(pools)@),
            symbol@,
            chain@,
            hop_records(hops@),
            amount,
            source@,
            prefix@,
            fallback@,
            now as int,
        ),
{
    let ghost start = pool_views(pools@);
    let ghost records = hop_records(hops@);
    let price: u64 = match amount {
        Some(value) => value,
        None => 0,
    };
    let mut i: usize = 0;
    while i < hops.len()
        invariant
            0 <= i <= hops@.len(),
            records == hop_records(hops@),
            price == match amount {
                Some(value) => value,
                None => 0,
            },
            pool_views(pools@) == start + route_hop_records(
                symbol@,
                chain@,
                records,
                amount,
                source@,
                prefix@,
                now as int,
                i as int,
            ),
        decreases hops@.len() - i,
    {
        let hop = &hops[i];
        let ghost before = pools@;
        if !hop.pool.as_str().is_empty() {
            let venue = match &hop.exchange {
                Some(name) => name.clone(),
                None => String::from_str(source),
            };
            let pool = PoolData::observed_at(
                String::from_str(symbol),
                String::from_str(chain),
                venue,
                String::from_str(prefix).concat(hop.pool.as_str()),
                String::from_str(symbol).concat("/USDC"),
                price,
                0,
                0,
                String::from_str(source),
                now,
            );
            pools.push(pool);
            assert(pool_views(pools@) =~= pool_views(before).push(pool@));
        }
        i += 1;
    }
    if pools.len() == 0 {
        match amount {
            Some(value) => {
                let pool = PoolData::observed_at(
                    String::from_str(symbol),
                    String::from_str(chain),
                    String::from_str(source),
                    String::from_str(fallback),
                    String::from_str(symbol).concat("/USDC"),
                    value,
                    0,
                    0,
                    String::from_str(source),
                    now,
                );
                pools.push(pool);
            },
            None => {},
        }
    }
}

/// The address that stands for the whole of a route: the aggregator's tag,
/// the chain as the aggregator names it, and `aggregated`.
pub open spec fn whole_route_address(tag: Seq<char>, chain: Seq<char>) -> Seq<char> {
    tag + ":"@ + chain + ":aggregated"@
}

/// Builds the address that stands for the whole of a route.
pub fn whole_route_label(tag: &str, chain: &str) -> (address: String)
    ensures
        address@ == whole_route_address(tag@, chain@),
{
    let mut address = String::from_str(tag);
    address.append(":");
    address.append(chain);
    address.append(":aggregated");
    address
}

/// The aggregators whose routes name pools by address.
#[derive(Debug, Clone, Copy, PartialEq, Eq, Structural)]
pub enum Aggregator {
    ParaSwap,
    KyberSwap,
    OpenOcean,
}

/// The name of an aggregator in its records.
pub open spec fn aggregator_source(aggregator: Aggregator) -> Seq<char> {
    match aggregator {
        Aggregator::ParaSwap => "paraswap"@,
        Aggregator::KyberSwap => "kyberswap"@,
        Aggregator::OpenOcean => "openocean"@,
    }
}

/// The tag of an aggregator in the address that stands for a whole route.
pub open spec fn aggregator_tag(aggregator: Aggregator) -> Seq<char> {
    match aggregator {
        Aggregator::ParaSwap => "paraswap"@,
        Aggregator::KyberSwap => "kyber"@,
        Aggregator::OpenOcean => "openocean"@,
    }
}

/// Reads the route that an aggregator found on one chain into the records
/// of a fetch. `chain` is the chain's name in the records and `slug` its
/// name in the aggregator's addresses.
pub fn read_aggregator_route(
    pools: &mut Vec<PoolData>,
    aggregator: Aggregator,
    symbol: &str,
    chain: &str,
    slug: &str,
    hops: &[RouteHop],
    amount: Option<u64>,
    now: i64,
)
    ensures
        pool_views(final(pools)@) == route_read(
            pool_views(old(pools)@),
            symbol@,
            chain@,
            hop_records(hops@),
            amount,
            aggregator_source(aggregator),
            Seq::empty(),
            whole_route_address(aggregator_tag(aggregator), slug@),
            now as int,
        ),
{
    let source = match aggregator {
        Aggregator::ParaSwap => "paraswap",
        Aggregator::KyberSwap => "kyberswap",
        Aggregator::OpenOcean => "openocean",
    };
    let tag = match aggregator {
        Aggregator::ParaSwap => "paraswap",
        Aggregator::KyberSwap => "kyber",
        Aggregator::OpenOcean => "openocean",
    };
    let fallback = whole_route_label(tag, slug);
    proof {
        reveal_strlit("");
        assert(""@ =~= Seq::<char>::empty());
    }
    read_route(pools, symbol, chain, hops, amount, source, "", fallback.as_str(), now);
}

/// What precedes the name of a pool in a 1inch record: `1inch`, the chain's
/// number, and a colon after each.
pub open spec fn one_inch_prefix(chain_id: u32) -> Seq<char> {
    "1inch:"@ + decimal(chain_id as nat) + ":"@
}

/// The records of a 1inch route on one chain; none for a chain that routes
/// are not asked on.
pub open spec fn one_inch_records(
    symbol: Seq<char>,
    chain_id: u32,
    hops: Seq<RouteHopRecord>,
    amount: Option<u64>,
    now: int,
) -> Seq<PoolRecord> {
    match route_chain_label(chain_id) {
        Some(chain) => route_read(
            Seq::empty(),
            symbol,
            chain,
            hops,
            amount,
            "1inch"@,
            one_inch_prefix(chain_id),
            whole_route_address("1inch"@, decimal(chain_id as nat)),
            now,
        ),
        None => Seq::empty(),
    }
}

/// Builds the records of a 1inch route on one chain.
pub fn one_inch_pools(
    symbol: &str,
    chain_id: u32,
    hops: &[RouteHop],
    amount: Option<u64>,
    now: i64,
) -> (pools: Vec<PoolData>)
    ensures
        pool_views(pools@) == one_inch_records(
            symbol@,
            chain_id,
            hop_records(hops@),
            amount,
            now as int,
        ),
{
    let mut pools: Vec<PoolData> = Vec::new();
    match route_chain_name(chain_id) {
        Some(chain) => {
            let number = decimal_text(chain_id as u64);
            let mut prefix = String::from_str("1inch:");
            prefix.append(number.as_str());
            prefix.append(":");
            let fallback = whole_route_label("1inch", number.as_str());
            read_route(
                &mut pools,
                symbol,
                chain,
                hops,
                amount,
                "1inch",
                prefix.as_str(),
                fallback.as_str(),
                now,
            );
        },
        None => {},
    }
    pools
}

/// The records of a 0x price on one chain: one under the address
/// `aggregated` if the chain is served and the price could be read.
pub open spec fn zero_x_records(
    symbol: Seq<char>,
    chain_id: u32,
    price_usd: Option<u64>,
    now: int,
) -> Seq<PoolRecord> {
    if (chain_id == 1 || chain_id == 56 || chain_id == 137) && price_usd is Some {
        seq![
            PoolRecord {
                symbol,
                chain: route_chain_label(chain_id)->0,
                dex: "0x"@,
                pool_address: "aggregated"@,
                pair: usdc_pair(symbol),
                price_usd: price_usd->0 as nat,
                lp_reserve_usd: 0,
                volume_24h: 0,
                fee_tier: None,
                source: "0x"@,
                timestamp: now,
            },
        ]
    } else {
        Seq::empty()
    }
}

/// Builds the records of a 0x price on one chain.
pub fn zero_x_pools(symbol: &str, chain_id: u32, price_usd: Option<u64>, now: i64) -> (pools: Vec<
    PoolData,
>)
    ensures
        pool_views(pools@) == zero_x_records(symbol@, chain_id, price_usd, now as int),
{
    let mut pools: Vec<PoolData> = Vec::new();
    if chain_id == 1 || chain_id == 56 || chain_id == 137 {
        match (route_chain_name(chain_id), price_usd) {
            (Some(chain), Some(price)) => {
                let pool = PoolData::observed_at(
                    String::from_str(symbol),
                    String::from_str(chain),
                    String::from_str("0x"),
                    String::from_str("aggregated"),
                    String::from_str(symbol).concat("/USDC"),
                    price,
                    0,
                    0,
                    String::from_str("0x"),
                    now,
                );
                pools.push(pool);
            },
            _ => {},
        }
    }
    pools
}

/// How many tokens of a search result are read.
pub const TOKENS_READ: usize = 10;

/// One token of a search result.
#[derive(Debug)]
pub struct TokenHit {
    pub symbol: String,
    pub chain_id: u64,
    pub address: String,
    pub name: String,
    pub decimals: u64,
}

/// The mathematical value of a [`TokenHit`].
pub struct TokenHitRecord {
    pub symbol: Seq<char>,
    pub chain_id: u64,
    pub address: Seq<char>,
    pub name: Seq<char>,
    pub decimals: u64,
}

impl View for TokenHit {
    type V = TokenHitRecord;

    open spec fn view(&self) -> TokenHitRecord {
        TokenHitRecord {
            symbol: self.symbol@,
            chain_id: self.chain_id,
            address: self.address@,
            name: self.name@,
            decimals: self.decimals,
        }
    }
}

/// The values of a search result.
pub open spec fn hit_records(hits: Seq<TokenHit>) -> Seq<TokenHitRecord> {
    hits.map_values(|hit: TokenHit| hit@)
}

/// Whether a token of a search result answers a search for `symbol`: its
/// symbol is the same but for the case of ASCII letters, or holds the
/// symbol when both are in upper case.
pub open spec fn hit_matches(hit: Seq<char>, symbol: Seq<char>) -> bool {
    same_but_ascii_case(hit, symbol) || occurs_in(uppercase(symbol), uppercase(hit))
}

/// The record of a token of a search result: where the token lives, without
/// a price.
pub open spec fn hit_record(hit: TokenHitRecord, now: int) -> PoolRecord {
    quote_record(
        hit.symbol,
        search_chain_label(hit.chain_id),
        "matcha"@,
        hit.address,
        hit.name + " ("@ + decimal(hit.decimals as nat) + ")"@,
        0,
        "matcha"@,
        now,
    )
}

/// The records of the first `upto` tokens of a search result: one for each
/// token that answers the search and has an address.
pub open spec fn hit_records_upto(
    symbol: Seq<char>,
    hits: Seq<TokenHitRecord>,
    now: int,
    upto: int,
) -> Seq<PoolRecord>
    decreases upto,
{
    if upto <= 0 {
        Seq::empty()
    } else if hit_matches(hits[upto - 1].symbol, symbol) && hits[upto - 1].address.len() > 0 {
        hit_records_upto(symbol, hits, now, upto - 1).push(hit_record(hits[upto - 1], now))
    } else {
        hit_records_upto(symbol, hits, now, upto - 1)
    }
}

/// Builds the records of the first [`TOKENS_READ`] tokens of a search result.
pub fn matcha_pools(symbol: &str, hits: &[TokenHit], now: i64) -> (pools: Vec<PoolData>)
    ensures
        pool_views(pools@) == hit_records_upto(
            symbol@,
            hit_records(hits@),
            now as int,
            if hits@.len() < 10 {
                hits@.len() as int
            } else {
                10
            },
        ),
{
    let ghost records = hit_records(hits@);
    let wanted = to_upper(symbol);
    let limit: usize = if hits.len() < TOKENS_READ {
        hits.len()
    } else {
        TOKENS_READ
    };
    let mut pools: Vec<PoolData> = Vec::new();
    let mut i: usize = 0;
    while i < limit
        invariant
            0 <= i <= limit <= hits@.len(),
            records == hit_records(hits@),
            wanted@ == uppercase(symbol@),
            pool_views(pools@) == hit_records_upto(symbol@, records, now as int, i as int),
        decreases limit - i,
    {
        let hit = &hits[i];
        let matches = same_text_but_case(hit.symbol.as_str(), symbol) || contains_text(
            to_upper(hit.symbol.as_str()).as_str(),
            wanted.as_str(),
        );
        if matches && !hit.address.as_str().is_empty() {
            let mut pair = hit.name.clone();
            pair.append(" (");
            pair.append(decimal_text(hit.decimals).as_str());
            pair.append(")");
            let pool = PoolData::observed_at(
                hit.symbol.clone(),
                String::from_str(search_chain_name(hit.chain_id)),
                String::from_str("matcha"),
                hit.address.clone(),
                pair,
                0,
                0,
                0,
                String::from_str("matcha"),
                now,
            );
            pools.push(pool);
        }
        i += 1;
    }
    pools
}

/// The address of the token search for a symbol.
pub fn token_search_url(symbol: &str) -> (url: String)
    ensures
        url@
            == "https://matcha.xyz/api/tokens/search?chainId=1,8453,56,42161,43114,10,137,534352,59144,5000,34443,130&limit=15&query="@
            + symbol@,
{
    String::from_str(
        "https://matcha.xyz/api/tokens/search?chainId=1,8453,56,42161,43114,10,137,534352,59144,5000,34443,130&limit=15&query=",
    ).concat(symbol)
}

} // verus!
