//! Reference prices from the centralized exchange.

use dashmap::DashMap;
use vstd::prelude::*;
use crate::text::has_prefix;
use crate::text::replace_all;
use crate::text::replaced;
use crate::text::to_upper;
use crate::text::uppercase;

verus! {

/// How many won a dollar costs.
pub const KRW_PER_USD: u64 = 1400;

/// The mathematical value of a [`CexPrice`].
pub struct CexQuote {
    pub symbol: Seq<char>,
    pub price_krw: nat,
    pub price_usd: nat,
    pub timestamp: int,
}

/// The latest trade price of a token on the exchange, in millionths of a won
/// and of a dollar.
#[derive(Debug)]
pub struct CexPrice {
    pub symbol: String,
    pub price_krw: u64,
    pub price_usd: u64,
    pub timestamp: i64,
}

impl View for CexPrice {
    type V = CexQuote;

    open spec fn view(&self) -> CexQuote {
        CexQuote {
            symbol: self.symbol@,
            price_krw: self.price_krw as nat,
            price_usd: self.price_usd as nat,
            timestamp: self.timestamp as int,
        }
    }
}

impl Clone for CexPrice {
    fn clone(&self) -> (copy: Self)
        ensures
            copy == *self,
    {
        CexPrice {
            symbol: self.symbol.clone(),
            price_krw: self.price_krw,
            price_usd: self.price_usd,
            timestamp: self.timestamp,
        }
    }
}

/// The sharded concurrent map of the `dashmap` crate.
#[verifier::external_type_specification]
#[verifier::external_body]
#[verifier::reject_recursive_types(K)]
#[verifier::reject_recursive_types(V)]
#[verifier::reject_recursive_types(S)]
pub struct ExDashMap<K, V, S>(DashMap<K, V, S>);

/// The prices that a map holds, by key.
pub uninterp spec fn held_prices(prices: DashMap<String, CexPrice>) -> Map<Seq<char>, CexQuote>;

/// The prices of a map that holds nothing.
pub open spec fn no_quotes() -> Map<Seq<char>, CexQuote> {
    Map::empty()
}

/// Makes an empty map through `DashMap::new`.
#[verifier::external_body]
fn no_prices() -> (fresh: DashMap<String, CexPrice>)
    ensures
        held_prices(fresh) == no_quotes(),
{
    DashMap::new()
}

/// Stores a price through `DashMap::insert`, which puts the value under the
/// key and drops the value that the key held before, if any.
#[verifier::external_body]
fn put_price(prices: &mut DashMap<String, CexPrice>, key: String, price: CexPrice)
    ensures
        held_prices(*final(prices)) == held_prices(*old(prices)).insert(key@, price@),
{
    prices.insert(key, price);
}

/// Reads a price through `DashMap::get`, which hands out the entry of a key
/// that the map holds and nothing otherwise; the value of the entry is copied.
#[verifier::external_body]
fn read_price(prices: &DashMap<String, CexPrice>, key: &str) -> (found: Option<CexPrice>)
    ensures
        match found {
            Some(price) => held_prices(*prices).contains_key(key@) && price@ == held_prices(
                *prices,
            )[key@],
            None => !held_prices(*prices).contains_key(key@),
        },
{
    prices.get(key).map(|entry| entry.value().clone())
}

/// Whether a list holds the value of every key of a map once, in the order
/// of `keys`.
pub open spec fn lists_values(
    listed: Seq<CexQuote>,
    prices: Map<Seq<char>, CexQuote>,
    keys: Seq<Seq<char>>,
) -> bool {
    &&& keys.no_duplicates()
    &&& keys.to_set() == prices.dom()
    &&& listed.len() == keys.len()
    &&& forall|i: int| 0 <= i < keys.len() ==> #[trigger] listed[i] == prices[keys[i]]
}

/// Copies all prices through `DashMap::iter`, which visits every entry of
/// the map once, in an order that the map does not promise.
#[verifier::external_body]
fn read_all_prices(prices: &DashMap<String, CexPrice>) -> (listed: Vec<CexPrice>)
    ensures
        exists|keys: Seq<Seq<char>>| #[trigger]
            lists_values(cex_quotes_of(listed@), held_prices(*prices), keys),
{
    prices.iter().map(|entry| entry.value().clone()).collect()
}

/// The values of a list of prices.
pub open spec fn cex_quotes_of(prices: Seq<CexPrice>) -> Seq<CexQuote> {
    prices.map_values(|price: CexPrice| price@)
}

/// The market code of a token: `KRW-` and the symbol in upper case.
pub open spec fn market_code_of(symbol: Seq<char>) -> Seq<char> {
    "KRW-"@ + uppercase(symbol)
}

/// The token of a market code: the code without `KRW-`.
pub open spec fn symbol_of_code(code: Seq<char>) -> Seq<char> {
    replaced(code, "KRW-"@, Seq::empty())
}

/// The price that a ticker reports, converted at [`KRW_PER_USD`] won to the
/// dollar, rounded down.
pub open spec fn quote_of_ticker(code: Seq<char>, trade_price: nat, timestamp: int) -> CexQuote {
    CexQuote {
        symbol: symbol_of_code(code),
        price_krw: trade_price,
        price_usd: trade_price / 1400,
        timestamp,
    }
}

/// The tokens of the markets that trade against the won, in the order of
/// the first `upto` codes.
pub open spec fn krw_symbols_upto(markets: Seq<Seq<char>>, upto: int) -> Seq<Seq<char>>
    decreases upto,
{
    if upto <= 0 {
        Seq::empty()
    } else if "KRW-"@.is_prefix_of(markets[upto - 1]) {
        krw_symbols_upto(markets, upto - 1).push(symbol_of_code(markets[upto - 1]))
    } else {
        krw_symbols_upto(markets, upto - 1)
    }
}

/// Builds the market code of a token.
pub fn market_code(symbol: &str) -> (code: String)
    ensures
        code@ == market_code_of(symbol@),
{
    let upper = to_upper(symbol);
    String::from_str("KRW-").concat(upper.as_str())
}

/// Builds the market codes of a list of tokens.
pub fn market_codes(symbols: &[String]) -> (codes: Vec<String>)
    ensures
        codes@.len() == symbols@.len(),
        forall|i: int|
            0 <= i < symbols@.len() ==> (#[trigger] codes@[i])@ == market_code_of(symbols@[i]@),
{
    let mut codes: Vec<String> = Vec::new();
    let mut i: usize = 0;
    while i < symbols.len()
        invariant
            0 <= i <= symbols@.len(),
            codes@.len() == i,
            forall|j: int| 0 <= j < i ==> (#[trigger] codes@[j])@ == market_code_of(symbols@[j]@),
        decreases symbols@.len() - i,
    {
        codes.push(market_code(symbols[i].as_str()));
        i += 1;
    }
    codes
}

/// Picks the markets that trade against the won and names their tokens.
pub fn krw_symbols(markets: &[String]) -> (symbols: Vec<String>)
    ensures
        symbols@.map_values(|symbol: String| symbol@) == krw_symbols_upto(
            markets@.map_values(|market: String| market@),
            markets@.len() as int,
        ),
{
    let ghost codes = markets@.map_values(|market: String| market@);
    let mut symbols: Vec<String> = Vec::new();
    let mut i: usize = 0;
    while i < markets.len()
        invariant
            0 <= i <= markets@.len(),
            codes == markets@.map_values(|market: String| market@),
            symbols@.map_values(|symbol: String| symbol@) == krw_symbols_upto(codes, i as int),
        decreases markets@.len() - i,
    {
        if has_prefix(markets[i].as_str(), "KRW-") {
            let symbol = replace_all(markets[i].as_str(), "KRW-", "");
            proof {
                reveal_strlit("");
                assert(""@ =~= Seq::<char>::empty());
            }
            symbols.push(symbol);
        }
        i += 1;
    }
    symbols
}

/// The latest price of each token on the exchange, as the tickers reported it.
pub struct UpbitClient {
    prices: DashMap<String, CexPrice>,
}

impl View for UpbitClient {
    type V = Map<Seq<char>, CexQuote>;

    closed spec fn view(&self) -> Map<Seq<char>, CexQuote> {
        held_prices(self.prices)
    }
}

impl UpbitClient {
    /// A client that has seen no price yet.
    pub fn new() -> (client: Self)
        ensures
            client@ == no_quotes(),
    {
        UpbitClient { prices: no_prices() }
    }

    /// The latest price of a token.
    pub fn get_price(&self, symbol: &str) -> (found: Option<CexPrice>)
        ensures
            match found {
                Some(price) => self@.contains_key(symbol@) && price@ == self@[symbol@],
                None => !self@.contains_key(symbol@),
            },
    {
        read_price(&self.prices, symbol)
    }

    /// The latest price of every token, each once, in no particular order.
    pub fn get_all_prices(&self) -> (listed: Vec<CexPrice>)
        ensures
            exists|keys: Seq<Seq<char>>| #[trigger]
                lists_values(cex_quotes_of(listed@), self@, keys),
    {
        let listed = read_all_prices(&self.prices);
        proof {
            let keys = choose|keys: Seq<Seq<char>>| #[trigger]
                lists_values(cex_quotes_of(listed@), held_prices(self.prices), keys);
            assert(lists_values(cex_quotes_of(listed@), self@, keys));
        }
        listed
    }

    /// Records the trade price that a ticker reports for a market code.
    /// The price replaces the one that the token had.
    pub fn record_ticker(&mut self, code: &str, trade_price: u64, timestamp: i64)
        ensures
            final(self)@ == old(self)@.insert(
                symbol_of_code(code@),
                quote_of_ticker(code@, trade_price as nat, timestamp as int),
            ),
    {
        let symbol = replace_all(code, "KRW-", "");
        proof {
            reveal_strlit("");
            assert(""@ =~= Seq::<char>::empty());
        }
        let price = CexPrice {
            symbol: symbol.clone(),
            price_krw: trade_price,
            price_usd: trade_price / KRW_PER_USD,
            timestamp,
        };
        put_price(&mut self.prices, symbol, price);
    }
}

} // verus!
