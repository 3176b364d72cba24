//! Token addresses by chain, and the records that the token table yields.

use vstd::prelude::*;
use vstd::hash_map::StringHashMap;
use crate::clock::unix_now;
use crate::decimal::decimal;
use crate::decimal::decimal_text;
use crate::models::pool::PoolData;
use crate::models::pool::PoolRecord;
use crate::sources::PoolSource;
use crate::sources::SourceError;
use crate::text::to_upper;
use crate::text::uppercase;

verus! {

/// The address of the USDC contract on a chain; the Ethereum address for a
/// chain that the table does not list.
pub open spec fn usdc_address(chain_id: u32) -> Seq<char> {
    if chain_id == 1 {
        "0xA0b86991c6218b36c1d19D4a2e9Eb0cE3606eB48"@
    } else if chain_id == 56 {
        "0x8AC76a51cc950d9822D68b83fE1Ad97B32Cd580d"@
    } else if chain_id == 137 {
        "0x2791Bca1f2de4661ED88A30C99A7a9449Aa84174"@
    } else if chain_id == 42161 {
        "0xaf88d065e77c8cC2239327C5EDb3A432268e5831"@
    } else if chain_id == 10 {
        "0x7F5c764cBc14f9669B88837ca1490cCa17c31607"@
    } else if chain_id == 8453 {
        "0x833589fCD6eDb6E08f4c7C32D4f71b54bdA02913"@
    } else if chain_id == 43114 {
        "0xB97EF9Ef8734C71904D8002F8b6Bc66Dd9c48a6E"@
    } else {
        "0xA0b86991c6218b36c1d19D4a2e9Eb0cE3606eB48"@
    }
}

/// Looks up the address of the USDC contract on a chain.
pub fn get_usdc_address(chain_id: u32) -> (address: &'static str)
    ensures
        address@ == usdc_address(chain_id),
{
    match chain_id {
        1 => "0xA0b86991c6218b36c1d19D4a2e9Eb0cE3606eB48",
        56 => "0x8AC76a51cc950d9822D68b83fE1Ad97B32Cd580d",
        137 => "0x2791Bca1f2de4661ED88A30C99A7a9449Aa84174",
        42161 => "0xaf88d065e77c8cC2239327C5EDb3A432268e5831",
        10 => "0x7F5c764cBc14f9669B88837ca1490cCa17c31607",
        8453 => "0x833589fCD6eDb6E08f4c7C32D4f71b54bdA02913",
        43114 => "0xB97EF9Ef8734C71904D8002F8b6Bc66Dd9c48a6E",
        _ => "0xA0b86991c6218b36c1d19D4a2e9Eb0cE3606eB48",
    }
}

/// The name of a chain in the records of the token table; `other` for a
/// chain that the table of names does not list.
pub open spec fn chain_label(chain_id: u32) -> Seq<char> {
    if chain_id == 1 {
        "ethereum"@
    } else if chain_id == 56 {
        "bsc"@
    } else if chain_id == 137 {
        "polygon"@
    } else if chain_id == 42161 {
        "arbitrum"@
    } else if chain_id == 10 {
        "optimism"@
    } else if chain_id == 8453 {
        "base"@
    } else if chain_id == 43114 {
        "avalanche"@
    } else if chain_id == 130 {
        "unichain"@
    } else {
        "other"@
    }
}

/// Looks up the name of a chain.
pub fn chain_name(chain_id: u32) -> (name: &'static str)
    ensures
        name@ == chain_label(chain_id),
{
    match chain_id {
        1 => "ethereum",
        56 => "bsc",
        137 => "polygon",
        42161 => "arbitrum",
        10 => "optimism",
        8453 => "base",
        43114 => "avalanche",
        130 => "unichain",
        _ => "other",
    }
}

/// The address of a token on one chain.
#[derive(Debug)]
pub struct TokenAddress {
    pub chain_id: u32,
    pub address: String,
}

impl Clone for TokenAddress {
    fn clone(&self) -> (copy: Self)
        ensures
            copy == *self,
    {
        TokenAddress { chain_id: self.chain_id, address: self.address.clone() }
    }
}

/// The record that the token table yields for one address of a token.
pub open spec fn token_record(symbol: Seq<char>, chain_id: u32, address: Seq<char>, now: int) -> PoolRecord {
    PoolRecord {
        symbol,
        chain: chain_label(chain_id),
        dex: "matcha-data"@,
        pool_address: address,
        pair: symbol + " token"@,
        price_usd: 0,
        lp_reserve_usd: 0,
        volume_24h: 0,
        fee_tier: None,
        source: "matcha"@,
        timestamp: now,
    }
}

/// The records that the token table yields for a token, one for each address.
pub open spec fn token_records(symbol: Seq<char>, addresses: Seq<TokenAddress>, now: int) -> Seq<
    PoolRecord,
> {
    Seq::new(
        addresses.len(),
        |i: int| token_record(symbol, addresses[i].chain_id, addresses[i].address@, now),
    )
}

/// The address among `addresses` of a token on a chain: that of the first
/// entry of the chain.
pub open spec fn address_on_chain(addresses: Seq<TokenAddress>, chain_id: u32, from: int) -> Option<
    Seq<char>,
>
    decreases addresses.len() - from,
{
    if from < 0 || from >= addresses.len() {
        None
    } else if addresses[from].chain_id == chain_id {
        Some(addresses[from].address@)
    } else {
        address_on_chain(addresses, chain_id, from + 1)
    }
}

/// The addresses of tokens by upper-case symbol.
pub struct TokenTable {
    tokens: StringHashMap<Vec<TokenAddress>>,
}

impl View for TokenTable {
    type V = Map<Seq<char>, Seq<TokenAddress>>;

    closed spec fn view(&self) -> Map<Seq<char>, Seq<TokenAddress>> {
        self.tokens@.map_values(|addresses: Vec<TokenAddress>| addresses@)
    }
}

/// The addresses that a table holds for a symbol, whatever its case; none
/// for a symbol that the table does not list.
pub open spec fn addresses_of(table: Map<Seq<char>, Seq<TokenAddress>>, symbol: Seq<char>) -> Seq<
    TokenAddress,
> {
    if table.contains_key(uppercase(symbol)) {
        table[uppercase(symbol)]
    } else {
        Seq::empty()
    }
}

impl TokenTable {
    /// A table without tokens.
    pub fn new() -> (table: Self)
        ensures
            table@ == Map::<Seq<char>, Seq<TokenAddress>>::empty(),
    {
        let table = TokenTable { tokens: StringHashMap::new() };
        table
    }

    /// Sets the addresses of a token, given its symbol as the table keys it.
    pub fn insert(&mut self, symbol: String, addresses: Vec<TokenAddress>)
        ensures
            final(self)@ == old(self)@.insert(symbol@, addresses@),
    {
        self.tokens.insert(symbol, addresses);
    }

    /// The addresses of a token on all chains.
    pub fn resolve(&self, symbol: &str) -> (addresses: Vec<TokenAddress>)
        ensures
            addresses@ == addresses_of(self@, symbol@),
    {
        let key = to_upper(symbol);
        match self.tokens.get(key.as_str()) {
            Some(found) => {
                let mut addresses: Vec<TokenAddress> = Vec::new();
                let mut i: usize = 0;
                while i < found.len()
                    invariant
                        0 <= i <= found@.len(),
                        addresses@ == found@.subrange(0, i as int),
                    decreases found@.len() - i,
                {
                    addresses.push(found[i].clone());
                    i += 1;
                }
                addresses
            },
            None => Vec::new(),
        }
    }

    /// The address of a token on one chain.
    pub fn get_token_address(&self, symbol: &str, chain_id: u32) -> (address: Option<String>)
        ensures
            match address {
                Some(found) => address_on_chain(addresses_of(self@, symbol@), chain_id, 0) == Some(
                    found@,
                ),
                None => address_on_chain(addresses_of(self@, symbol@), chain_id, 0) is None,
            },
    {
        let key = to_upper(symbol);
        match self.tokens.get(key.as_str()) {
            Some(found) => {
                let mut i: usize = 0;
                while i < found.len()
                    invariant
                        0 <= i <= found@.len(),
                        addresses_of(self@, symbol@) == found@,
                        address_on_chain(found@, chain_id, 0) == address_on_chain(
                            found@,
                            chain_id,
                            i as int,
                        ),
                    decreases found@.len() - i,
                {
                    if found[i].chain_id == chain_id {
                        return Some(found[i].address.clone());
                    }
                    i += 1;
                }
                None
            },
            None => None,
        }
    }
}

/// Builds the records for the addresses of a token, stamped with `now`.
pub fn token_pools(symbol: &str, addresses: &[TokenAddress], now: i64) -> (pools: Vec<PoolData>)
    ensures
        pools@.map_values(|pool: PoolData| pool@) == token_records(
            symbol@,
            addresses@,
            now as int,
        ),
{
    let mut pools: Vec<PoolData> = Vec::new();
    let mut i: usize = 0;
    while i < addresses.len()
        invariant
            0 <= i <= addresses@.len(),
            pools@.len() == i,
            forall|j: int|
                0 <= j < i ==> (#[trigger] pools@[j])@ == token_record(
                    symbol@,
                    addresses@[j].chain_id,
                    addresses@[j].address@,
                    now as int,
                ),
        decreases addresses@.len() - i,
    {
        let entry = &addresses[i];
        let pool = PoolData::observed_at(
            String::from_str(symbol),
            String::from_str(chain_name(entry.chain_id)),
            String::from_str("matcha-data"),
            entry.address.clone(),
            String::from_str(symbol).concat(" token"),
            0,
            0,
            0,
            String::from_str("matcha"),
            now,
        );
        pools.push(pool);
        i += 1;
    }
    pools
}

/// A provider that answers from the token table alone: it reports where a
/// token lives, without prices.
pub struct MatchaTokenResolver {
    cache: TokenTable,
}

impl MatchaTokenResolver {
    /// The table that the resolver answers from.
    pub closed spec fn table(&self) -> Map<Seq<char>, Seq<TokenAddress>> {
        self.cache@
    }

    /// A resolver over a token table.
    pub fn new(cache: TokenTable) -> (resolver: Self)
        ensures
            resolver.table() == cache@,
    {
        MatchaTokenResolver { cache }
    }

    /// The addresses of a token on all chains.
    pub fn resolve(&self, symbol: &str) -> (addresses: Vec<TokenAddress>)
        ensures
            addresses@ == addresses_of(self.table(), symbol@),
    {
        self.cache.resolve(symbol)
    }

    /// The records of a token, one for each of its addresses, stamped with `now`.
    pub fn pools_at(&self, symbol: &str, now: i64) -> (pools: Vec<PoolData>)
        ensures
            pools@.map_values(|pool: PoolData| pool@) == token_records(
                symbol@,
                addresses_of(self.table(), symbol@),
                now as int,
            ),
    {
        let addresses = self.cache.resolve(symbol);
        token_pools(symbol, addresses.as_slice(), now)
    }
}

impl PoolSource for MatchaTokenResolver {
    fn name(&self) -> (name: String)
        ensures
            name@ == "Matcha"@,
    {
        String::from_str("Matcha")
    }

    /// Never fails: the answer is the records of the token as of some time.
    fn fetch_pools(&self, symbol: &str) -> (answer: Result<Vec<PoolData>, SourceError>)
        ensures
            answer is Ok,
            exists|now: int|
                answer->Ok_0@.map_values(|pool: PoolData| pool@) == #[trigger] token_records(
                    symbol@,
                    addresses_of(self.table(), symbol@),
                    now,
                ),
    {
        let now: i64 = unix_now();
        let pools = self.pools_at(symbol, now);
        Ok(pools)
    }
}

/// The amount that the aggregators are asked to quote: one token of
/// eighteen decimals.
pub open spec fn quoted_amount() -> Seq<char> {
    "1000000000000000000"@
}

/// A chain as an aggregator addresses it.
#[derive(Debug, Clone, Copy)]
pub struct ChainRoute {
    /// The chain's name in the aggregator's addresses.
    pub slug: &'static str,
    pub chain_id: u32,
    /// The chain's name in the records.
    pub chain_name: &'static str,
}

/// The chains that KyberSwap is asked about.
pub fn kyber_chains() -> (chains: Vec<ChainRoute>)
    ensures
        chains@ == seq![
            ChainRoute { slug: "ethereum", chain_id: 1, chain_name: "ethereum" },
            ChainRoute { slug: "bsc", chain_id: 56, chain_name: "bsc" },
            ChainRoute { slug: "polygon", chain_id: 137, chain_name: "polygon" },
            ChainRoute { slug: "arbitrum", chain_id: 42161, chain_name: "arbitrum" },
        ],
{
    let mut chains: Vec<ChainRoute> = Vec::new();
    chains.push(ChainRoute { slug: "ethereum", chain_id: 1, chain_name: "ethereum" });
    chains.push(ChainRoute { slug: "bsc", chain_id: 56, chain_name: "bsc" });
    chains.push(ChainRoute { slug: "polygon", chain_id: 137, chain_name: "polygon" });
    chains.push(ChainRoute { slug: "arbitrum", chain_id: 42161, chain_name: "arbitrum" });
    chains
}

/// The chains that OpenOcean is asked about.
pub fn openocean_chains() -> (chains: Vec<ChainRoute>)
    ensures
        chains@ == seq![
            ChainRoute { slug: "eth", chain_id: 1, chain_name: "ethereum" },
            ChainRoute { slug: "bsc", chain_id: 56, chain_name: "bsc" },
            ChainRoute { slug: "polygon", chain_id: 137, chain_name: "polygon" },
            ChainRoute { slug: "arbitrum", chain_id: 42161, chain_name: "arbitrum" },
            ChainRoute { slug: "base", chain_id: 8453, chain_name: "base" },
        ],
{
    let mut chains: Vec<ChainRoute> = Vec::new();
    chains.push(ChainRoute { slug: "eth", chain_id: 1, chain_name: "ethereum" });
    chains.push(ChainRoute { slug: "bsc", chain_id: 56, chain_name: "bsc" });
    chains.push(ChainRoute { slug: "polygon", chain_id: 137, chain_name: "polygon" });
    chains.push(ChainRoute { slug: "arbitrum", chain_id: 42161, chain_name: "arbitrum" });
    chains.push(ChainRoute { slug: "base", chain_id: 8453, chain_name: "base" });
    chains
}

/// The chains that ParaSwap is asked about.
pub fn paraswap_chains() -> (chains: Vec<ChainRoute>)
    ensures
        chains@ == seq![
            ChainRoute { slug: "ethereum", chain_id: 1, chain_name: "ethereum" },
            ChainRoute { slug: "bsc", chain_id: 56, chain_name: "bsc" },
            ChainRoute { slug: "polygon", chain_id: 137, chain_name: "polygon" },
            ChainRoute { slug: "arbitrum", chain_id: 42161, chain_name: "arbitrum" },
        ],
{
    kyber_chains()
}

/// The address that asks KyberSwap for a route from a token to USDC.
pub open spec fn kyber_routes_address(slug: Seq<char>, token: Seq<char>, usdc: Seq<char>) -> Seq<
    char,
> {
    "https://aggregator-api.kyberswap.com/"@ + slug + "/api/v1/routes?tokenIn="@ + token
        + "&tokenOut="@ + usdc + "&amountIn=1000000000000000000"@
}

/// Builds the address that asks KyberSwap for a route from a token to USDC.
pub fn kyber_routes_url(slug: &str, token: &str, usdc: &str) -> (url: String)
    ensures
        url@ == kyber_routes_address(slug@, token@, usdc@),
{
    let mut url = String::from_str("https://aggregator-api.kyberswap.com/");
    url.append(slug);
    url.append("/api/v1/routes?tokenIn=");
    url.append(token);
    url.append("&tokenOut=");
    url.append(usdc);
    url.append("&amountIn=1000000000000000000");
    url
}

/// The address that asks OpenOcean for a quote from a token to USDC.
pub open spec fn openocean_quote_address(slug: Seq<char>, token: Seq<char>, usdc: Seq<char>) -> Seq<
    char,
> {
    "https://open-api.openocean.finance/v3/"@ + slug + "/quote?inTokenAddress="@ + token
        + "&outTokenAddress="@ + usdc + "&amount=1000000000000000000&gasPrice=5"@
}

/// Builds the address that asks OpenOcean for a quote from a token to USDC.
pub fn openocean_quote_url(slug: &str, token: &str, usdc: &str) -> (url: String)
    ensures
        url@ == openocean_quote_address(slug@, token@, usdc@),
{
    let mut url = String::from_str("https://open-api.openocean.finance/v3/");
    url.append(slug);
    url.append("/quote?inTokenAddress=");
    url.append(token);
    url.append("&outTokenAddress=");
    url.append(usdc);
    url.append("&amount=1000000000000000000&gasPrice=5");
    url
}

/// The address that asks ParaSwap for a price from a token to USDC.
pub open spec fn paraswap_prices_address(token: Seq<char>, usdc: Seq<char>, chain_id: u32) -> Seq<
    char,
> {
    "https://apiv5.paraswap.io/prices?srcToken="@ + token + "&destToken="@ + usdc
        + "&amount=1000000000000000000&srcDecimals=18&destDecimals=6&network="@ + decimal(
        chain_id as nat,
    )
}

/// Builds the address that asks ParaSwap for a price from a token to USDC.
pub fn paraswap_prices_url(token: &str, usdc: &str, chain_id: u32) -> (url: String)
    ensures
        url@ == paraswap_prices_address(token@, usdc@, chain_id),
{
    let mut url = String::from_str("https://apiv5.paraswap.io/prices?srcToken=");
    url.append(token);
    url.append("&destToken=");
    url.append(usdc);
    url.append("&amount=1000000000000000000&srcDecimals=18&destDecimals=6&network=");
    url.append(decimal_text(chain_id as u64).as_str());
    url
}

/// A record that carries a quoted price and nothing about liquidity.
pub open spec fn quote_record(
    symbol: Seq<char>,
    chain: Seq<char>,
    dex: Seq<char>,
    pool_address: Seq<char>,
    pair: Seq<char>,
    price_usd: nat,
    source: Seq<char>,
    now: int,
) -> PoolRecord {
    PoolRecord {
        symbol,
        chain,
        dex,
        pool_address,
        pair,
        price_usd,
        lp_reserve_usd: 0,
        volume_24h: 0,
        fee_tier: None,
        source,
        timestamp: now,
    }
}

/// The label of a token's pair against USDC.
pub open spec fn usdc_pair(symbol: Seq<char>) -> Seq<char> {
    symbol + "/USDC"@
}

/// The address that stands for an aggregated quote where a route names no pool:
/// the aggregator's tag, the chain's number and the symbol, joined by colons.
pub open spec fn aggregated_address(tag: Seq<char>, chain_id: u32, symbol: Seq<char>) -> Seq<char> {
    tag + ":"@ + decimal(chain_id as nat) + ":"@ + symbol
}

fn quote_pool(
    symbol: &str,
    chain: &str,
    dex: String,
    pool_address: String,
    pair: String,
    price_usd: u64,
    source: &str,
    now: i64,
) -> (pool: PoolData)
    ensures
        pool@ == quote_record(
            symbol@,
            chain@,
            dex@,
            pool_address@,
            pair@,
            price_usd as nat,
            source@,
            now as int,
        ),
{
    PoolData::observed_at(
        String::from_str(symbol),
        String::from_str(chain),
        dex,
        pool_address,
        pair,
        price_usd,
        0,
        0,
        String::from_str(source),
        now,
    )
}

fn aggregated_pool(
    tag: &str,
    source: &str,
    chain: &ChainRoute,
    symbol: &str,
    price_usd: u64,
    now: i64,
) -> (pool: PoolData)
    ensures
        pool@ == quote_record(
            symbol@,
            chain.chain_name@,
            source@,
            aggregated_address(tag@, chain.chain_id, symbol@),
            usdc_pair(symbol@),
            price_usd as nat,
            source@,
            now as int,
        ),
{
    let mut address = String::from_str(tag);
    address.append(":");
    address.append(decimal_text(chain.chain_id as u64).as_str());
    address.append(":");
    address.append(symbol);
    quote_pool(
        symbol,
        chain.chain_name,
        String::from_str(source),
        address,
        String::from_str(symbol).concat("/USDC"),
        price_usd,
        source,
        now,
    )
}

/// One swap of a route: the leg that it belongs to, counted from zero, the
/// pool that it goes through, and the venue if the route names one.
#[derive(Debug)]
pub struct RouteHop {
    pub leg: u32,
    pub pool: String,
    pub exchange: Option<String>,
}

/// The mathematical value of a [`RouteHop`].
pub struct RouteHopRecord {
    pub leg: nat,
    pub pool: Seq<char>,
    pub exchange: Option<Seq<char>>,
}

impl View for RouteHop {
    type V = RouteHopRecord;

    open spec fn view(&self) -> RouteHopRecord {
        RouteHopRecord {
            leg: self.leg as nat,
            pool: self.pool@,
            exchange: match self.exchange {
                Some(name) => Some(name@),
                None => None,
            },
        }
    }
}

/// The values of a route.
pub open spec fn hop_records(hops: Seq<RouteHop>) -> Seq<RouteHopRecord> {
    hops.map_values(|hop: RouteHop| hop@)
}

/// The values of a list of records.
pub open spec fn pool_views(pools: Seq<PoolData>) -> Seq<PoolRecord> {
    pools.map_values(|pool: PoolData| pool@)
}

/// The venue of a hop; the aggregator itself where the route names none.
pub open spec fn hop_venue(hop: RouteHopRecord, aggregator: Seq<char>) -> Seq<char> {
    match hop.exchange {
        Some(name) => name,
        None => aggregator,
    }
}

/// The label of a hop's pair: the pair against USDC and the number of the
/// leg, counted from one.
pub open spec fn hop_pair(symbol: Seq<char>, leg: nat) -> Seq<char> {
    symbol + "/USDC (hop "@ + decimal(leg + 1) + ")"@
}

/// The records of the first `upto` hops of a KyberSwap route: one for each
/// hop that names a pool, at the price of the whole route.
pub open spec fn kyber_hop_records(
    symbol: Seq<char>,
    chain: Seq<char>,
    hops: Seq<RouteHopRecord>,
    amount_out: nat,
    now: int,
    upto: int,
) -> Seq<PoolRecord>
    decreases upto,
{
    if upto <= 0 {
        Seq::empty()
    } else if hops[upto - 1].pool.len() > 0 {
        kyber_hop_records(symbol, chain, hops, amount_out, now, upto - 1).push(
            quote_record(
                symbol,
                chain,
                hop_venue(hops[upto - 1], "kyberswap"@),
                hops[upto - 1].pool,
                hop_pair(symbol, hops[upto - 1].leg),
                amount_out,
                "kyberswap"@,
                now,
            ),
        )
    } else {
        kyber_hop_records(symbol, chain, hops, amount_out, now, upto - 1)
    }
}

/// The records after a KyberSwap route on one chain was read: those of the
/// hops are appended, and a record under an aggregated address if no record
/// is there by then and the route has a price.
pub open spec fn kyber_route_read(
    pools: Seq<PoolRecord>,
    symbol: Seq<char>,
    chain: ChainRoute,
    hops: Seq<RouteHopRecord>,
    amount_out: nat,
    now: int,
) -> Seq<PoolRecord> {
    let with_hops = pools + kyber_hop_records(
        symbol,
        chain.chain_name@,
        hops,
        amount_out,
        now,
        hops.len() as int,
    );
    if with_hops.len() == 0 && amount_out > 0 {
        with_hops.push(
            quote_record(
                symbol,
                chain.chain_name@,
                "kyberswap"@,
                aggregated_address("kyber"@, chain.chain_id, symbol),
                usdc_pair(symbol),
                amount_out,
                "kyberswap"@,
                now,
            ),
        )
    } else {
        with_hops
    }
}

/// Reads a KyberSwap route on one chain into the records of a fetch.
pub fn read_kyber_route(
    pools: &mut Vec<PoolData>,
    symbol: &str,
    chain: &ChainRoute,
    hops: &[RouteHop],
    amount_out: u64,
    now: i64,
)
    ensures
        pool_views(final(pools)@) == kyber_route_read(
            pool_views(old(pools)@),
            symbol@,
            *chain,
            hop_records(hops@),
            amount_out as nat,
            now as int,
        ),
{
    let ghost start = pool_views(pools@);
    let ghost records = hop_records(hops@);
    let mut i: usize = 0;
    while i < hops.len()
        invariant
            0 <= i <= hops@.len(),
            records == hop_records(hops@),
            pool_views(pools@) == start + kyber_hop_records(
                symbol@,
                chain.chain_name@,
                records,
                amount_out as nat,
                now as int,
                i as int,
            ),
        decreases hops@.len() - i,
    {
        let hop = &hops[i];
        let ghost before = pools@;
        if !hop.pool.as_str().is_empty() {
            let venue = match &hop.exchange {
                Some(name) => name.clone(),
                None => String::from_str("kyberswap"),
            };
            let mut pair = String::from_str(symbol);
            pair.append("/USDC (hop ");
            pair.append(decimal_text(hop.leg as u64 + 1).as_str());
            pair.append(")");
            let pool = quote_pool(
                symbol,
                chain.chain_name,
                venue,
                hop.pool.clone(),
                pair,
                amount_out,
                "kyberswap",
                now,
            );
            pools.push(pool);
            assert(pool_views(pools@) =~= pool_views(before).push(pool@));
        }
        i += 1;
    }
    if pools.len() == 0 && amount_out > 0 {
        let pool = aggregated_pool("kyber", "kyberswap", chain, symbol, amount_out, now);
        pools.push(pool);
    }
}

/// The records after an OpenOcean quote on one chain was read: a record
/// under an aggregated address is appended if the quote has a price.
pub open spec fn openocean_quote_read(
    pools: Seq<PoolRecord>,
    symbol: Seq<char>,
    chain: ChainRoute,
    price_usd: nat,
    now: int,
) -> Seq<PoolRecord> {
    if price_usd > 0 {
        pools.push(
            quote_record(
                symbol,
                chain.chain_name@,
                "openocean"@,
                aggregated_address("openocean"@, chain.chain_id, symbol),
                usdc_pair(symbol),
                price_usd,
                "openocean"@,
                now,
            ),
        )
    } else {
        pools
    }
}

/// Reads an OpenOcean quote on one chain into the records of a fetch.
pub fn read_openocean_quote(
    pools: &mut Vec<PoolData>,
    symbol: &str,
    chain: &ChainRoute,
    price_usd: u64,
    now: i64,
)
    ensures
        pool_views(final(pools)@) == openocean_quote_read(
            pool_views(old(pools)@),
            symbol@,
            *chain,
            price_usd as nat,
            now as int,
        ),
{
    if price_usd > 0 {
        let pool = aggregated_pool("openocean", "openocean", chain, symbol, price_usd, now);
        pools.push(pool);
    }
}

/// The records of the first `upto` hops of a ParaSwap route: one for each
/// hop, at the price of the whole route.
pub open spec fn paraswap_hop_records(
    symbol: Seq<char>,
    chain: Seq<char>,
    hops: Seq<RouteHopRecord>,
    price_usd: nat,
    now: int,
    upto: int,
) -> Seq<PoolRecord>
    decreases upto,
{
    if upto <= 0 {
        Seq::empty()
    } else {
        paraswap_hop_records(symbol, chain, hops, price_usd, now, upto - 1).push(
            quote_record(
                symbol,
                chain,
                hop_venue(hops[upto - 1], "paraswap"@),
                hops[upto - 1].pool,
                usdc_pair(symbol),
                price_usd,
                "paraswap"@,
                now,
            ),
        )
    }
}

/// The records after a ParaSwap route on one chain was read: those of the
/// hops are appended, and a record under an aggregated address if no record
/// is there by then and the route has a price.
pub open spec fn paraswap_route_read(
    pools: Seq<PoolRecord>,
    symbol: Seq<char>,
    chain: ChainRoute,
    hops: Seq<RouteHopRecord>,
    price_usd: nat,
    now: int,
) -> Seq<PoolRecord> {
    let with_hops = pools + paraswap_hop_records(
        symbol,
        chain.chain_name@,
        hops,
        price_usd,
        now,
        hops.len() as int,
    );
    if with_hops.len() == 0 && price_usd > 0 {
        with_hops.push(
            quote_record(
                symbol,
                chain.chain_name@,
                "paraswap"@,
                aggregated_address("paraswap"@, chain.chain_id, symbol),
                usdc_pair(symbol),
                price_usd,
                "paraswap"@,
                now,
            ),
        )
    } else {
        with_hops
    }
}

/// Reads a ParaSwap route on one chain into the records of a fetch.
pub fn read_paraswap_route(
    pools: &mut Vec<PoolData>,
    symbol: &str,
    chain: &ChainRoute,
    hops: &[RouteHop],
    price_usd: u64,
    now: i64,
)
    ensures
        pool_views(final(pools)@) == paraswap_route_read(
            pool_views(old(pools)@),
            symbol@,
            *chain,
            hop_records(hops@),
            price_usd as nat,
            now as int,
        ),
{
    let ghost start = pool_views(pools@);
    let ghost records = hop_records(hops@);
    let mut i: usize = 0;
    while i < hops.len()
        invariant
            0 <= i <= hops@.len(),
            records == hop_records(hops@),
            pool_views(pools@) == start + paraswap_hop_records(
                symbol@,
                chain.chain_name@,
                records,
                price_usd as nat,
                now as int,
                i as int,
            ),
        decreases hops@.len() - i,
    {
        let hop = &hops[i];
        let ghost before = pools@;
        let venue = match &hop.exchange {
            Some(name) => name.clone(),
            None => String::from_str("paraswap"),
        };
        let pool = quote_pool(
            symbol,
            chain.chain_name,
            venue,
            hop.pool.clone(),
            String::from_str(symbol).concat("/USDC"),
            price_usd,
            "paraswap",
            now,
        );
        pools.push(pool);
        assert(pool_views(pools@) =~= pool_views(before).push(pool@));
        i += 1;
    }
    if pools.len() == 0 && price_usd > 0 {
        let pool = aggregated_pool("paraswap", "paraswap", chain, symbol, price_usd, now);
        pools.push(pool);
    }
}

} // verus!
