//! Tracking the prices of pools that were saved earlier.

use vstd::prelude::*;
use vstd::utf8::encode_utf8;
use crate::models::pool::PoolData;
use crate::models::pool::PoolRecord;
use crate::text::contains_text;
use crate::text::has_prefix;
use crate::text::occurs_in;
use crate::text::same_text;
use crate::text::sort_texts;
use crate::text::text_at_most;
use crate::text::text_before;
use crate::text::text_order_is_strict;
use crate::text::texts_of;
use crate::text::to_upper;
use crate::text::uppercase;

verus! {

/// The highest price of a pool that is tracked: a billion dollars. A higher
/// one is taken for a reading error.
pub const MAX_PLAUSIBLE_PRICE: u64 = 1_000_000_000_000_000;

/// The mathematical value of a [`SavedPool`].
pub struct SavedRecord {
    pub symbol: Seq<char>,
    pub chain: Seq<char>,
    pub dex: Seq<char>,
    pub pool_address: Seq<char>,
    pub pair: Seq<char>,
    pub source: Seq<char>,
}

/// What is kept of a pool record for tracking: where the pool is, not what
/// it quoted.
#[derive(Debug)]
pub struct SavedPool {
    pub symbol: String,
    pub chain: String,
    pub dex: String,
    pub pool_address: String,
    pub pair: String,
    pub source: String,
}

impl View for SavedPool {
    type V = SavedRecord;

    open spec fn view(&self) -> SavedRecord {
        SavedRecord {
            symbol: self.symbol@,
            chain: self.chain@,
            dex: self.dex@,
            pool_address: self.pool_address@,
            pair: self.pair@,
            source: self.source@,
        }
    }
}

impl Clone for SavedPool {
    fn clone(&self) -> (copy: Self)
        ensures
            copy == *self,
    {
        SavedPool {
            symbol: self.symbol.clone(),
            chain: self.chain.clone(),
            dex: self.dex.clone(),
            pool_address: self.pool_address.clone(),
            pair: self.pair.clone(),
            source: self.source.clone(),
        }
    }
}

/// The mathematical value of a [`PriceData`].
pub struct PricePoint {
    pub symbol: Seq<char>,
    pub chain: Seq<char>,
    pub dex: Seq<char>,
    pub pool_address: Seq<char>,
    pub price_usd: nat,
    pub timestamp: nat,
}

/// The price of a tracked pool at a time, in millionths of a dollar.
#[derive(Debug)]
pub struct PriceData {
    pub symbol: String,
    pub chain: String,
    pub dex: String,
    pub pool_address: String,
    pub price_usd: u64,
    pub timestamp: u64,
}

impl View for PriceData {
    type V = PricePoint;

    open spec fn view(&self) -> PricePoint {
        PricePoint {
            symbol: self.symbol@,
            chain: self.chain@,
            dex: self.dex@,
            pool_address: self.pool_address@,
            price_usd: self.price_usd as nat,
            timestamp: self.timestamp as nat,
        }
    }
}

/// What is kept of a record.
pub open spec fn saved_of(pool: PoolRecord) -> SavedRecord {
    SavedRecord {
        symbol: pool.symbol,
        chain: pool.chain,
        dex: pool.dex,
        pool_address: pool.pool_address,
        pair: pool.pair,
        source: pool.source,
    }
}

/// Whether a record is worth tracking: its address is a contract address
/// (`0x` and 40 more bytes) and no made-up one, its price is plausible, and
/// its pair names its token, whatever the case.
pub open spec fn is_trackable(pool: PoolRecord) -> bool {
    &&& "0x"@.is_prefix_of(pool.pool_address)
    &&& encode_utf8(pool.pool_address).len() == 42
    &&& !occurs_in("kyber:"@, pool.pool_address)
    &&& !occurs_in("openocean:"@, pool.pool_address)
    &&& !occurs_in("paraswap:"@, pool.pool_address)
    &&& pool.price_usd <= 1_000_000_000_000_000
    &&& occurs_in(uppercase(pool.symbol), uppercase(pool.pair))
}

/// The tracked pools after the trackable ones of the first `upto` records
/// were added.
pub open spec fn tracked_after(watched: Seq<SavedRecord>, pools: Seq<PoolRecord>, upto: int) -> Seq<
    SavedRecord,
>
    decreases upto,
{
    if upto <= 0 {
        watched
    } else if is_trackable(pools[upto - 1]) {
        tracked_after(watched, pools, upto - 1).push(saved_of(pools[upto - 1]))
    } else {
        tracked_after(watched, pools, upto - 1)
    }
}

/// How many records were added and how many were left out.
#[derive(Debug, Clone, Copy, PartialEq, Eq, Structural)]
pub struct LoadReport {
    pub loaded: usize,
    pub skipped: usize,
}

/// The price of a token on one chain, in millionths of a dollar.
#[derive(Debug)]
pub struct ChainPrice {
    pub chain: String,
    pub price_usd: u64,
}

/// The mathematical value of a [`ChainPrice`].
pub struct ChainQuote {
    pub chain: Seq<char>,
    pub price_usd: nat,
}

impl View for ChainPrice {
    type V = ChainQuote;

    open spec fn view(&self) -> ChainQuote {
        ChainQuote { chain: self.chain@, price_usd: self.price_usd as nat }
    }
}

/// The prices of one token by chain.
#[derive(Debug)]
pub struct SymbolPrices {
    pub symbol: String,
    pub chains: Vec<ChainPrice>,
}

/// The mathematical value of a [`SymbolPrices`].
pub struct SymbolQuotes {
    pub symbol: Seq<char>,
    pub chains: Seq<ChainQuote>,
}

impl View for SymbolPrices {
    type V = SymbolQuotes;

    open spec fn view(&self) -> SymbolQuotes {
        SymbolQuotes {
            symbol: self.symbol@,
            chains: self.chains@.map_values(|price: ChainPrice| price@),
        }
    }
}

/// One trading pair of a search result: its chain, the symbol of its base
/// token, and its price if one could be read.
#[derive(Debug)]
pub struct PairQuote {
    pub chain_id: String,
    pub base_symbol: String,
    pub price_usd: Option<u64>,
}

/// The mathematical value of a [`PairQuote`].
pub struct PairRecord {
    pub chain_id: Seq<char>,
    pub base_symbol: Seq<char>,
    pub price_usd: Option<nat>,
}

impl View for PairQuote {
    type V = PairRecord;

    open spec fn view(&self) -> PairRecord {
        PairRecord {
            chain_id: self.chain_id@,
            base_symbol: self.base_symbol@,
            price_usd: match self.price_usd {
                Some(price) => Some(price as nat),
                None => None,
            },
        }
    }
}

/// The values of a list of prices by token.
pub open spec fn symbol_quotes(prices: Seq<SymbolPrices>) -> Seq<SymbolQuotes> {
    prices.map_values(|entry: SymbolPrices| entry@)
}

/// The values of a list of pairs.
pub open spec fn pair_records(pairs: Seq<PairQuote>) -> Seq<PairRecord> {
    pairs.map_values(|pair: PairQuote| pair@)
}

/// The values of a list of prices by chain.
pub open spec fn chain_quotes(prices: Seq<ChainPrice>) -> Seq<ChainQuote> {
    prices.map_values(|price: ChainPrice| price@)
}

/// The values of a list of price points.
pub open spec fn price_points_of(points: Seq<PriceData>) -> Seq<PricePoint> {
    points.map_values(|point: PriceData| point@)
}

/// The position of the first of the first `upto` prices for a chain; `-1`
/// where there is none.
pub open spec fn chain_index(chains: Seq<ChainQuote>, chain: Seq<char>, upto: int) -> int
    decreases upto,
{
    if upto <= 0 {
        -1
    } else if chain_index(chains, chain, upto - 1) >= 0 {
        chain_index(chains, chain, upto - 1)
    } else if chains[upto - 1].chain == chain {
        upto - 1
    } else {
        -1
    }
}

/// The position of the last of the first `upto` entries for a token; `-1`
/// where there is none.
pub open spec fn symbol_index(prices: Seq<SymbolQuotes>, symbol: Seq<char>, upto: int) -> int
    decreases upto,
{
    if upto <= 0 {
        -1
    } else if prices[upto - 1].symbol == symbol {
        upto - 1
    } else {
        symbol_index(prices, symbol, upto - 1)
    }
}

/// The price quoted for a token on a chain; zero where none is quoted.
pub open spec fn quoted_price(prices: Seq<SymbolQuotes>, symbol: Seq<char>, chain: Seq<char>) -> nat {
    let entry = symbol_index(prices, symbol, prices.len() as int);
    if entry < 0 {
        0
    } else {
        let at = chain_index(prices[entry].chains, chain, prices[entry].chains.len() as int);
        if at < 0 {
            0
        } else {
            prices[entry].chains[at].price_usd
        }
    }
}

/// The price points of the first `upto` tracked pools: one for each pool
/// whose token has a positive price on the pool's chain.
pub open spec fn price_points_upto(
    pools: Seq<SavedRecord>,
    prices: Seq<SymbolQuotes>,
    timestamp: nat,
    upto: int,
) -> Seq<PricePoint>
    decreases upto,
{
    if upto <= 0 {
        Seq::empty()
    } else {
        let pool = pools[upto - 1];
        let price = quoted_price(prices, pool.symbol, pool.chain);
        if price > 0 {
            price_points_upto(pools, prices, timestamp, upto - 1).push(
                PricePoint {
                    symbol: pool.symbol,
                    chain: pool.chain,
                    dex: pool.dex,
                    pool_address: pool.pool_address,
                    price_usd: price,
                    timestamp,
                },
            )
        } else {
            price_points_upto(pools, prices, timestamp, upto - 1)
        }
    }
}

/// Whether a pair quotes a usable price for a token: its base token is the
/// token, whatever the case, and its price is positive and below a billion
/// dollars.
pub open spec fn pair_quotes_token(pair: PairRecord, symbol: Seq<char>) -> bool {
    uppercase(pair.base_symbol) == uppercase(symbol) && match pair.price_usd {
        Some(price) => 0 < price < 1_000_000_000_000_000,
        None => false,
    }
}

/// The prices of a token by chain that the first `upto` pairs yield: for
/// each chain the price of the first pair that quotes the token there.
pub open spec fn chain_prices_upto(pairs: Seq<PairRecord>, symbol: Seq<char>, upto: int) -> Seq<
    ChainQuote,
>
    decreases upto,
{
    if upto <= 0 {
        Seq::empty()
    } else {
        let before = chain_prices_upto(pairs, symbol, upto - 1);
        let pair = pairs[upto - 1];
        if pair_quotes_token(pair, symbol) && chain_index(
            before,
            pair.chain_id,
            before.len() as int,
        ) < 0 {
            before.push(ChainQuote { chain: pair.chain_id, price_usd: pair.price_usd->0 })
        } else {
            before
        }
    }
}

/// How many pairs of a search result are read.
pub const PAIRS_READ: usize = 20;

fn find_chain(chains: &Vec<ChainPrice>, chain: &str) -> (at: Option<usize>)
    ensures
        match at {
            Some(i) => i == chain_index(chain_quotes(chains@), chain@, chains@.len() as int) && i
                < chains@.len(),
            None => chain_index(chain_quotes(chains@), chain@, chains@.len() as int) == -1,
        },
{
    let ghost quotes = chain_quotes(chains@);
    let mut i: usize = 0;
    while i < chains.len()
        invariant
            0 <= i <= chains@.len(),
            quotes == chain_quotes(chains@),
            chain_index(quotes, chain@, i as int) == -1,
        decreases chains@.len() - i,
    {
        if same_text(chains[i].chain.as_str(), chain) {
            proof {
                first_chain_stays(quotes, chain@, i + 1, chains@.len() as int);
            }
            return Some(i);
        }
        i += 1;
    }
    None
}

proof fn first_chain_stays(chains: Seq<ChainQuote>, chain: Seq<char>, from: int, upto: int)
    requires
        0 < from <= upto <= chains.len(),
        chain_index(chains, chain, from) >= 0,
    ensures
        chain_index(chains, chain, upto) == chain_index(chains, chain, from),
    decreases upto - from,
{
    if from < upto {
        first_chain_stays(chains, chain, from, upto - 1);
    }
}

/// Reads the first [`PAIRS_READ`] pairs of a search result and keeps, for
/// each chain, the price of the first pair that quotes the token.
pub fn first_prices_by_chain(pairs: &[PairQuote], symbol: &str) -> (prices: Vec<ChainPrice>)
    ensures
        chain_quotes(prices@) == chain_prices_upto(
            pair_records(pairs@),
            symbol@,
            if pairs@.len() < 20 {
                pairs@.len() as int
            } else {
                20
            },
        ),
{
    let ghost records = pair_records(pairs@);
    let wanted = to_upper(symbol);
    let limit: usize = if pairs.len() < PAIRS_READ {
        pairs.len()
    } else {
        PAIRS_READ
    };
    let mut prices: Vec<ChainPrice> = Vec::new();
    let mut i: usize = 0;
    while i < limit
        invariant
            0 <= i <= limit <= pairs@.len(),
            records == pair_records(pairs@),
            wanted@ == uppercase(symbol@),
            chain_quotes(prices@) == chain_prices_upto(records, symbol@, i as int),
        decreases limit - i,
    {
        let pair = &pairs[i];
        match pair.price_usd {
            Some(price) => {
                if 0 < price && price < MAX_PLAUSIBLE_PRICE {
                    let base = to_upper(pair.base_symbol.as_str());
                    if same_text(base.as_str(), wanted.as_str()) {
                        if find_chain(&prices, pair.chain_id.as_str()).is_none() {
                            let entry = ChainPrice {
                                chain: pair.chain_id.clone(),
                                price_usd: price,
                            };
                            prices.push(entry);
                        }
                    }
                }
            },
            None => {},
        }
        i += 1;
    }
    prices
}

/// The pools whose prices are tracked.
pub struct PriceMonitor {
    pools: Vec<SavedPool>,
}

impl View for PriceMonitor {
    type V = Seq<SavedRecord>;

    closed spec fn view(&self) -> Seq<SavedRecord> {
        self.pools@.map_values(|pool: SavedPool| pool@)
    }
}

impl PriceMonitor {
    /// A monitor that tracks no pool yet.
    pub fn new() -> (monitor: Self)
        ensures
            monitor@ == Seq::<SavedRecord>::empty(),
    {
        let monitor = PriceMonitor { pools: Vec::new() };
        monitor
    }

    /// Decides whether a record is worth tracking.
    pub fn is_valid_pool(pool: &PoolData) -> (valid: bool)
        ensures
            valid == is_trackable(pool@),
    {
        let address = pool.pool_address.as_str();
        if !has_prefix(address, "0x") || address.as_bytes().len() != 42 {
            return false;
        }
        if contains_text(address, "kyber:") || contains_text(address, "openocean:")
            || contains_text(address, "paraswap:") {
            return false;
        }
        if pool.price_usd > MAX_PLAUSIBLE_PRICE {
            return false;
        }
        let pair_upper = to_upper(pool.pair.as_str());
        let symbol_upper = to_upper(pool.symbol.as_str());
        contains_text(pair_upper.as_str(), symbol_upper.as_str())
    }

    /// Adds the trackable ones of the given records, in their order, and
    /// reports how many were added and how many left out.
    pub fn load_pools(&mut self, pools: &[PoolData]) -> (report: LoadReport)
        ensures
            final(self)@ == tracked_after(
                old(self)@,
                pools@.map_values(|pool: PoolData| pool@),
                pools@.len() as int,
            ),
            report.loaded == final(self)@.len() - old(self)@.len(),
            report.loaded + report.skipped == pools@.len(),
    {
        let ghost records = pools@.map_values(|pool: PoolData| pool@);
        let mut loaded: usize = 0;
        let mut skipped: usize = 0;
        let mut i: usize = 0;
        while i < pools.len()
            invariant
                0 <= i <= pools@.len(),
                records == pools@.map_values(|pool: PoolData| pool@),
                self@ == tracked_after(old(self)@, records, i as int),
                loaded == self@.len() - old(self)@.len(),
                loaded + skipped == i,
            decreases pools@.len() - i,
        {
            let pool = &pools[i];
            if Self::is_valid_pool(pool) {
                let saved = SavedPool {
                    symbol: pool.symbol.clone(),
                    chain: pool.chain.clone(),
                    dex: pool.dex.clone(),
                    pool_address: pool.pool_address.clone(),
                    pair: pool.pair.clone(),
                    source: pool.source.clone(),
                };
                self.pools.push(saved);
                loaded += 1;
            } else {
                skipped += 1;
            }
            i += 1;
        }
        LoadReport { loaded, skipped }
    }

    /// The number of tracked pools.
    pub fn pool_count(&self) -> (count: usize)
        ensures
            count == self@.len(),
    {
        self.pools.len()
    }

    /// The price points of the tracked pools at time `timestamp`: one for
    /// each pool whose token has a positive price on the pool's chain. Of
    /// several entries for a token the last one counts.
    pub fn price_points(&self, prices: &[SymbolPrices], timestamp: u64) -> (points: Vec<PriceData>)
        ensures
            price_points_of(points@) == price_points_upto(
                self@,
                symbol_quotes(prices@),
                timestamp as nat,
                self@.len() as int,
            ),
    {
        let ghost quotes = symbol_quotes(prices@);
        let mut points: Vec<PriceData> = Vec::new();
        let mut i: usize = 0;
        while i < self.pools.len()
            invariant
                0 <= i <= self.pools@.len(),
                quotes == symbol_quotes(prices@),
                price_points_of(points@) == price_points_upto(
                    self@,
                    quotes,
                    timestamp as nat,
                    i as int,
                ),
            decreases self.pools@.len() - i,
        {
            let pool = &self.pools[i];
            let price = quote_for(prices, pool.symbol.as_str(), pool.chain.as_str());
            if price > 0 {
                let point = PriceData {
                    symbol: pool.symbol.clone(),
                    chain: pool.chain.clone(),
                    dex: pool.dex.clone(),
                    pool_address: pool.pool_address.clone(),
                    price_usd: price,
                    timestamp,
                };
                points.push(point);
            }
            i += 1;
        }
        points
    }

    /// The symbols of the tracked pools, each once, in ascending order.
    pub fn get_symbols(&self) -> (symbols: Vec<String>)
        ensures
            forall|i: int, j: int|
                0 <= i < j < symbols@.len() ==> text_before(
                    #[trigger] symbols@[i]@,
                    #[trigger] symbols@[j]@,
                ),
            forall|symbol: Seq<char>|
                texts_of(symbols@).contains(symbol) <==> exists|k: int|
                    0 <= k < self@.len() && (#[trigger] self@[k]).symbol == symbol,
    {
        let mut all: Vec<String> = Vec::new();
        let mut i: usize = 0;
        while i < self.pools.len()
            invariant
                0 <= i <= self.pools@.len(),
                all@.len() == i,
                forall|k: int| 0 <= k < i ==> (#[trigger] all@[k])@ == self.pools@[k].symbol@,
            decreases self.pools@.len() - i,
        {
            all.push(self.pools[i].symbol.clone());
            i += 1;
        }
        let ghost collected = texts_of(all@);
        assert forall|symbol: Seq<char>| collected.contains(symbol) <==> exists|k: int|
            0 <= k < self@.len() && (#[trigger] self@[k]).symbol == symbol by {
            if collected.contains(symbol) {
                let k = choose|k: int| 0 <= k < collected.len() && collected[k] == symbol;
                assert(self@[k].symbol == symbol);
            }
            if exists|k: int| 0 <= k < self@.len() && (#[trigger] self@[k]).symbol == symbol {
                let k = choose|k: int|
                    0 <= k < self@.len() && (#[trigger] self@[k]).symbol == symbol;
                assert(collected[k] == symbol);
            }
        }
        sort_texts(&mut all);
        proof {
            same_texts_same_members(collected, texts_of(all@));
        }
        without_repeats(&all)
    }
}

/// Looks up the price quoted for a token on a chain; zero where none is quoted.
pub fn quote_for(prices: &[SymbolPrices], symbol: &str, chain: &str) -> (price: u64)
    ensures
        price == quoted_price(symbol_quotes(prices@), symbol@, chain@),
{
    let ghost quotes = symbol_quotes(prices@);
    let mut k: usize = prices.len();
    while k > 0
        invariant
            0 <= k <= prices@.len(),
            quotes == symbol_quotes(prices@),
            symbol_index(quotes, symbol@, quotes.len() as int) == symbol_index(
                quotes,
                symbol@,
                k as int,
            ),
        decreases k,
    {
        k -= 1;
        if same_text(prices[k].symbol.as_str(), symbol) {
            return match find_chain(&prices[k].chains, chain) {
                Some(at) => {
                    prices[k].chains[at].price_usd
                },
                None => 0,
            };
        }
    }
    0
}

proof fn same_texts_same_members(left: Seq<Seq<char>>, right: Seq<Seq<char>>)
    requires
        left.to_multiset() == right.to_multiset(),
    ensures
        forall|text: Seq<char>| left.contains(text) <==> right.contains(text),
{
    assert forall|text: Seq<char>| left.contains(text) <==> right.contains(text) by {
        vstd::seq_lib::to_multiset_contains(left, text);
        vstd::seq_lib::to_multiset_contains(right, text);
    }
}

/// Copies a sorted list without the strings that repeat their predecessor.
fn without_repeats(sorted: &Vec<String>) -> (unique: Vec<String>)
    requires
        forall|a: int, b: int|
            0 <= a < b < sorted@.len() ==> text_at_most(
                #[trigger] sorted@[a]@,
                #[trigger] sorted@[b]@,
            ),
    ensures
        forall|a: int, b: int|
            0 <= a < b < unique@.len() ==> text_before(
                #[trigger] unique@[a]@,
                #[trigger] unique@[b]@,
            ),
        forall|text: Seq<char>|
            texts_of(unique@).contains(text) <==> texts_of(sorted@).contains(text),
{
    let mut unique: Vec<String> = Vec::new();
    let ghost mut origin: Seq<int> = Seq::empty();
    let ghost mut slot: Seq<int> = Seq::empty();
    let mut j: usize = 0;
    while j < sorted.len()
        invariant
            0 <= j <= sorted@.len(),
            forall|a: int, b: int|
                0 <= a < b < sorted@.len() ==> text_at_most(
                    #[trigger] sorted@[a]@,
                    #[trigger] sorted@[b]@,
                ),
            origin.len() == unique@.len(),
            slot.len() == j,
            j > 0 ==> unique@.len() > 0 && unique@[unique@.len() - 1]@ == sorted@[j - 1]@,
            forall|a: int|
                0 <= a < unique@.len() ==> 0 <= #[trigger] origin[a] < j && unique@[a]@
                    == sorted@[origin[a]]@,
            forall|p: int|
                0 <= p < j ==> 0 <= #[trigger] slot[p] < unique@.len() && unique@[slot[p]]@
                    == sorted@[p]@,
            forall|a: int, b: int|
                0 <= a < b < unique@.len() ==> text_before(
                    #[trigger] unique@[a]@,
                    #[trigger] unique@[b]@,
                ),
        decreases sorted@.len() - j,
    {
        let ghost kept = unique@;
        let repeated = j > 0 && same_text(sorted[j].as_str(), sorted[j - 1].as_str());
        if !repeated {
            let next = sorted[j].clone();
            proof {
                assert forall|a: int| 0 <= a < kept.len() implies text_before(
                    #[trigger] kept[a]@,
                    next@,
                ) by {
                    let p = origin[a];
                    if sorted@[p]@ == sorted@[j as int]@ {
                        text_order_is_strict(sorted@[j - 1]@, sorted@[j as int]@);
                    }
                }
            }
            unique.push(next);
            proof {
                origin = origin.push(j as int);
                slot = slot.push(kept.len() as int);
            }
        } else {
            proof {
                slot = slot.push(kept.len() - 1);
            }
        }
        j += 1;
    }
    proof {
        assert forall|text: Seq<char>| texts_of(unique@).contains(text) <==> texts_of(
            sorted@,
        ).contains(text) by {
            if texts_of(unique@).contains(text) {
                let a = choose|a: int|
                    0 <= a < texts_of(unique@).len() && texts_of(unique@)[a] == text;
                assert(texts_of(sorted@)[origin[a]] == text);
            }
            if texts_of(sorted@).contains(text) {
                let p = choose|p: int|
                    0 <= p < texts_of(sorted@).len() && texts_of(sorted@)[p] == text;
                assert(texts_of(unique@)[slot[p]] == text);
            }
        }
    }
    unique
}

/// The symbols of the first `upto` price points, each once, in the order in
/// which they first occur.
pub open spec fn point_symbols_upto(points: Seq<PricePoint>, upto: int) -> Seq<Seq<char>>
    decreases upto,
{
    if upto <= 0 {
        Seq::empty()
    } else {
        let before = point_symbols_upto(points, upto - 1);
        if before.contains(points[upto - 1].symbol) {
            before
        } else {
            before.push(points[upto - 1].symbol)
        }
    }
}

/// The sum of the prices of a token among the first `upto` price points.
pub open spec fn price_sum(points: Seq<PricePoint>, symbol: Seq<char>, upto: int) -> nat
    decreases upto,
{
    if upto <= 0 {
        0
    } else if points[upto - 1].symbol == symbol {
        price_sum(points, symbol, upto - 1) + points[upto - 1].price_usd
    } else {
        price_sum(points, symbol, upto - 1)
    }
}

/// The number of price points of a token among the first `upto`.
pub open spec fn price_count(points: Seq<PricePoint>, symbol: Seq<char>, upto: int) -> nat
    decreases upto,
{
    if upto <= 0 {
        0
    } else if points[upto - 1].symbol == symbol {
        price_count(points, symbol, upto - 1) + 1
    } else {
        price_count(points, symbol, upto - 1)
    }
}

/// The average price of a token over its pools, rounded down.
#[derive(Debug)]
pub struct SymbolAverage {
    pub symbol: String,
    pub average_usd: u64,
    pub pools: usize,
}

/// A sum of prices fits the machine, and so does their average.
pub proof fn price_sum_is_bounded(points: Seq<PricePoint>, symbol: Seq<char>, upto: int)
    requires
        0 <= upto <= points.len(),
        forall|i: int| 0 <= i < points.len() ==> (#[trigger] points[i]).price_usd <= u64::MAX,
    ensures
        price_count(points, symbol, upto) <= upto,
        price_sum(points, symbol, upto) <= price_count(points, symbol, upto) * u64::MAX,
        price_count(points, symbol, upto) > 0 ==> price_sum(points, symbol, upto) / price_count(
            points,
            symbol,
            upto,
        ) <= u64::MAX,
    decreases upto,
{
    if upto > 0 {
        price_sum_is_bounded(points, symbol, upto - 1);
        let count = price_count(points, symbol, upto);
        let before = price_count(points, symbol, upto - 1);
        assert(before * u64::MAX + u64::MAX == (before + 1) * u64::MAX) by (nonlinear_arith);
        if count > 0 {
            let sum = price_sum(points, symbol, upto);
            assert(sum / count <= u64::MAX) by (nonlinear_arith)
                requires
                    sum <= count * u64::MAX,
                    count > 0,
            ;
        }
    }
}

fn point_symbols(points: &[PriceData]) -> (symbols: Vec<String>)
    ensures
        texts_of(symbols@) == point_symbols_upto(price_points_of(points@), points@.len() as int),
{
    let ghost records = price_points_of(points@);
    let mut symbols: Vec<String> = Vec::new();
    let mut i: usize = 0;
    while i < points.len()
        invariant
            0 <= i <= points@.len(),
            records == price_points_of(points@),
            texts_of(symbols@) == point_symbols_upto(records, i as int),
        decreases points@.len() - i,
    {
        let mut known = false;
        let mut k: usize = 0;
        while k < symbols.len()
            invariant
                0 <= k <= symbols@.len(),
                i < points@.len(),
                known <==> exists|m: int|
                    0 <= m < k && (#[trigger] texts_of(symbols@)[m]) == points@[i as int].symbol@,
            decreases symbols@.len() - k,
        {
            assert(texts_of(symbols@)[k as int] == symbols@[k as int]@);
            if same_text(symbols[k].as_str(), points[i].symbol.as_str()) {
                known = true;
            }
            k += 1;
        }
        if !known {
            let symbol = points[i].symbol.clone();
            symbols.push(symbol);
        }
        i += 1;
    }
    symbols
}

/// Averages the prices of each token over its price points. The tokens come
/// in the order in which they first occur.
pub fn symbol_averages(points: &[PriceData]) -> (averages: Vec<SymbolAverage>)
    ensures
        averages@.len() == point_symbols_upto(
            price_points_of(points@),
            points@.len() as int,
        ).len(),
        forall|g: int|
            0 <= g < averages@.len() ==> {
                let symbol = (#[trigger] averages@[g]).symbol@;
                let count = price_count(price_points_of(points@), symbol, points@.len() as int);
                &&& symbol == point_symbols_upto(price_points_of(points@), points@.len() as int)[g]
                &&& averages@[g].pools == count
                &&& count > 0 ==> averages@[g].average_usd == price_sum(
                    price_points_of(points@),
                    symbol,
                    points@.len() as int,
                ) / count
            },
{
    let ghost records = price_points_of(points@);
    let symbols = point_symbols(points);
    let ghost listed = point_symbols_upto(records, points@.len() as int);
    let mut averages: Vec<SymbolAverage> = Vec::new();
    let mut g: usize = 0;
    while g < symbols.len()
        invariant
            0 <= g <= symbols@.len(),
            records == price_points_of(points@),
            texts_of(symbols@) == listed,
            averages@.len() == g,
            forall|h: int|
                0 <= h < g ==> {
                    let symbol = (#[trigger] averages@[h]).symbol@;
                    let count = price_count(records, symbol, points@.len() as int);
                    &&& symbol == listed[h]
                    &&& averages@[h].pools == count
                    &&& count > 0 ==> averages@[h].average_usd == price_sum(
                        records,
                        symbol,
                        points@.len() as int,
                    ) / count
                },
        decreases symbols@.len() - g,
    {
        let ghost symbol = symbols@[g as int]@;
        let mut sum: u128 = 0;
        let mut count: usize = 0;
        let mut i: usize = 0;
        while i < points.len()
            invariant
                0 <= i <= points@.len(),
                g < symbols@.len(),
                symbol == symbols@[g as int]@,
                records == price_points_of(points@),
                sum == price_sum(records, symbol, i as int),
                count == price_count(records, symbol, i as int),
                count <= i,
                sum <= count * u64::MAX,
            decreases points@.len() - i,
        {
            if same_text(points[i].symbol.as_str(), symbols[g].as_str()) {
                assert(count * u64::MAX + u64::MAX == (count + 1) * u64::MAX) by (nonlinear_arith);
                assert((count + 1) * u64::MAX <= usize::MAX * u64::MAX) by (nonlinear_arith)
                    requires
                        count + 1 <= usize::MAX,
                ;
                sum = sum + points[i].price_usd as u128;
                count += 1;
            }
            i += 1;
        }
        let average: u64 = if count > 0 {
            let quotient: u128 = sum / (count as u128);
            assert(quotient <= u64::MAX) by (nonlinear_arith)
                requires
                    quotient == sum / (count as u128),
                    sum <= count * u64::MAX,
                    count > 0,
            ;
            quotient as u64
        } else {
            0
        };
        averages.push(SymbolAverage { symbol: symbols[g].clone(), average_usd: average, pools: count });
        g += 1;
    }
    averages
}

} // verus!
