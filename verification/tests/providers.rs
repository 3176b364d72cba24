use dex_gatherer::models::PoolData;
use dex_gatherer::services::gap_monitor::{
    first_venue_quote, gap, rank_gaps, reaches_gap, Gap, GapSide, VenuePair,
};
use dex_gatherer::services::price_monitor::{symbol_averages, PriceData};
use dex_gatherer::sources::aggregators::{
    matcha_pools, one_inch_pools, read_aggregator_route, read_route, route_chain_name,
    search_chain_name, token_search_url, whole_route_label, zero_x_pools, Aggregator, TokenHit,
};
use dex_gatherer::sources::gecko::{gecko_pools, http_verdict, search_url, GeckoPool, HttpVerdict};
use dex_gatherer::sources::meta_agg::{
    kyber_chains, kyber_routes_url, openocean_chains, openocean_quote_url, paraswap_chains,
    paraswap_prices_url, read_kyber_route, read_openocean_quote, read_paraswap_route, ChainRoute,
    RouteHop,
};

const USD: u64 = 1_000_000;

fn hop(leg: u32, pool: &str, exchange: Option<&str>) -> RouteHop {
    RouteHop { leg, pool: pool.to_string(), exchange: exchange.map(|name| name.to_string()) }
}

fn ethereum() -> ChainRoute {
    ChainRoute { slug: "ethereum", chain_id: 1, chain_name: "ethereum" }
}

fn assert_quote(pool: &PoolData, dex: &str, address: &str, pair: &str, price: u64, source: &str) {
    assert_eq!(pool.dex, dex);
    assert_eq!(pool.pool_address, address);
    assert_eq!(pool.pair, pair);
    assert_eq!(pool.price_usd, price);
    assert_eq!(pool.lp_reserve_usd, 0);
    assert_eq!(pool.volume_24h, 0);
    assert_eq!(pool.fee_tier, None);
    assert_eq!(pool.source, source);
}

#[test]
fn status_decides_what_a_response_means() {
    assert_eq!(http_verdict(429), HttpVerdict::RateLimited);
    assert_eq!(http_verdict(200), HttpVerdict::Read);
    assert_eq!(http_verdict(299), HttpVerdict::Read);
    assert_eq!(http_verdict(199), HttpVerdict::NoData);
    assert_eq!(http_verdict(300), HttpVerdict::NoData);
    assert_eq!(http_verdict(404), HttpVerdict::NoData);
    assert_eq!(http_verdict(500), HttpVerdict::NoData);
    assert_eq!(http_verdict(0), HttpVerdict::NoData);
}

#[test]
fn gecko_records_need_a_price() {
    let found = vec![
        GeckoPool {
            name: "WETH / USDC".to_string(),
            address: "0x1".to_string(),
            price_usd: Some(3000 * USD),
            reserve_usd: Some(5 * USD),
            volume_usd: Some(7 * USD),
            dex: Some("uniswap_v3".to_string()),
        },
        GeckoPool {
            name: "WETH / DAI".to_string(),
            address: "0x2".to_string(),
            price_usd: None,
            reserve_usd: Some(5 * USD),
            volume_usd: Some(7 * USD),
            dex: Some("curve".to_string()),
        },
        GeckoPool {
            name: "WETH / USDT".to_string(),
            address: "0x3".to_string(),
            price_usd: Some(0),
            reserve_usd: None,
            volume_usd: None,
            dex: None,
        },
    ];
    let pools = gecko_pools("ETH", &found, 12);
    assert_eq!(pools.len(), 2);
    assert_eq!(pools[0].symbol, "ETH");
    assert_eq!(pools[0].chain, "multi");
    assert_eq!(pools[0].dex, "uniswap_v3");
    assert_eq!(pools[0].pool_address, "0x1");
    assert_eq!(pools[0].pair, "WETH / USDC");
    assert_eq!(pools[0].price_usd, 3000 * USD);
    assert_eq!(pools[0].lp_reserve_usd, 5 * USD);
    assert_eq!(pools[0].volume_24h, 7 * USD);
    assert_eq!(pools[0].source, "geckoterminal");
    assert_eq!(pools[0].timestamp, 12);
    assert_eq!(pools[1].dex, "unknown");
    assert_eq!(pools[1].pool_address, "0x3");
    assert_eq!(pools[1].lp_reserve_usd, 0);
    assert_eq!(pools[1].volume_24h, 0);
    assert!(gecko_pools("ETH", &[], 12).is_empty());
    assert_eq!(
        search_url("ETH"),
        "https://api.geckoterminal.com/api/v2/search/pools?query=ETH"
    );
}

#[test]
fn aggregator_addresses() {
    assert_eq!(
        kyber_routes_url("bsc", "0xt", "0xu"),
        "https://aggregator-api.kyberswap.com/bsc/api/v1/routes?tokenIn=0xt&tokenOut=0xu&amountIn=1000000000000000000"
    );
    assert_eq!(
        openocean_quote_url("eth", "0xt", "0xu"),
        "https://open-api.openocean.finance/v3/eth/quote?inTokenAddress=0xt&outTokenAddress=0xu&amount=1000000000000000000&gasPrice=5"
    );
    assert_eq!(
        paraswap_prices_url("0xt", "0xu", 42161),
        "https://apiv5.paraswap.io/prices?srcToken=0xt&destToken=0xu&amount=1000000000000000000&srcDecimals=18&destDecimals=6&network=42161"
    );
    assert_eq!(
        token_search_url("ETH"),
        "https://matcha.xyz/api/tokens/search?chainId=1,8453,56,42161,43114,10,137,534352,59144,5000,34443,130&limit=15&query=ETH"
    );
}

#[test]
fn aggregator_chain_lists() {
    let kyber: Vec<(&str, u32, &str)> =
        kyber_chains().iter().map(|c| (c.slug, c.chain_id, c.chain_name)).collect();
    assert_eq!(
        kyber,
        vec![
            ("ethereum", 1, "ethereum"),
            ("bsc", 56, "bsc"),
            ("polygon", 137, "polygon"),
            ("arbitrum", 42161, "arbitrum")
        ]
    );
    let ocean: Vec<(&str, u32, &str)> =
        openocean_chains().iter().map(|c| (c.slug, c.chain_id, c.chain_name)).collect();
    assert_eq!(
        ocean,
        vec![
            ("eth", 1, "ethereum"),
            ("bsc", 56, "bsc"),
            ("polygon", 137, "polygon"),
            ("arbitrum", 42161, "arbitrum"),
            ("base", 8453, "base")
        ]
    );
    let para: Vec<u32> = paraswap_chains().iter().map(|c| c.chain_id).collect();
    assert_eq!(para, vec![1, 56, 137, 42161]);
}

#[test]
fn kyber_route_yields_one_record_for_each_named_pool() {
    let mut pools = Vec::new();
    let hops = vec![
        hop(0, "0xp1", Some("uniswap")),
        hop(0, "", Some("curve")),
        hop(1, "0xp2", None),
    ];
    read_kyber_route(&mut pools, "ETH", &ethereum(), &hops, 3000 * USD, 5);
    assert_eq!(pools.len(), 2);
    assert_quote(&pools[0], "uniswap", "0xp1", "ETH/USDC (hop 1)", 3000 * USD, "kyberswap");
    assert_quote(&pools[1], "kyberswap", "0xp2", "ETH/USDC (hop 2)", 3000 * USD, "kyberswap");
    assert_eq!(pools[0].symbol, "ETH");
    assert_eq!(pools[0].chain, "ethereum");
    assert_eq!(pools[0].timestamp, 5);
}

#[test]
fn kyber_route_without_pools_falls_back_once() {
    let mut pools = Vec::new();
    read_kyber_route(&mut pools, "ETH", &ethereum(), &[], 0, 5);
    assert!(pools.is_empty());
    read_kyber_route(&mut pools, "ETH", &ethereum(), &[hop(0, "", None)], 3000 * USD, 5);
    assert_eq!(pools.len(), 1);
    assert_quote(&pools[0], "kyberswap", "kyber:1:ETH", "ETH/USDC", 3000 * USD, "kyberswap");
    let bsc = ChainRoute { slug: "bsc", chain_id: 56, chain_name: "bsc" };
    read_kyber_route(&mut pools, "ETH", &bsc, &[], 2990 * USD, 5);
    assert_eq!(pools.len(), 1);
}

#[test]
fn openocean_quote_needs_a_price() {
    let mut pools = Vec::new();
    let base = ChainRoute { slug: "base", chain_id: 8453, chain_name: "base" };
    read_openocean_quote(&mut pools, "ETH", &base, 0, 5);
    assert!(pools.is_empty());
    read_openocean_quote(&mut pools, "ETH", &base, 1, 5);
    read_openocean_quote(&mut pools, "ETH", &ethereum(), 2, 6);
    assert_eq!(pools.len(), 2);
    assert_quote(&pools[0], "openocean", "openocean:8453:ETH", "ETH/USDC", 1, "openocean");
    assert_eq!(pools[0].chain, "base");
    assert_quote(&pools[1], "openocean", "openocean:1:ETH", "ETH/USDC", 2, "openocean");
}

#[test]
fn paraswap_route_keeps_every_address() {
    let mut pools = Vec::new();
    let hops = vec![hop(0, "0xp1", Some("UniswapV3")), hop(0, "", None)];
    read_paraswap_route(&mut pools, "ETH", &ethereum(), &hops, 0, 5);
    assert_eq!(pools.len(), 2);
    assert_quote(&pools[0], "UniswapV3", "0xp1", "ETH/USDC", 0, "paraswap");
    assert_quote(&pools[1], "paraswap", "", "ETH/USDC", 0, "paraswap");
    let mut empty = Vec::new();
    read_paraswap_route(&mut empty, "ETH", &ethereum(), &[], 0, 5);
    assert!(empty.is_empty());
    read_paraswap_route(&mut empty, "ETH", &ethereum(), &[], 9, 5);
    assert_eq!(empty.len(), 1);
    assert_quote(&empty[0], "paraswap", "paraswap:1:ETH", "ETH/USDC", 9, "paraswap");
}

#[test]
fn route_chain_names() {
    assert_eq!(route_chain_name(1), Some("ethereum"));
    assert_eq!(route_chain_name(56), Some("bsc"));
    assert_eq!(route_chain_name(137), Some("polygon"));
    assert_eq!(route_chain_name(42161), Some("arbitrum"));
    assert_eq!(route_chain_name(10), Some("optimism"));
    assert_eq!(route_chain_name(8453), Some("base"));
    assert_eq!(route_chain_name(43114), None);
    assert_eq!(search_chain_name(43114), "avalanche");
    assert_eq!(search_chain_name(534352), "scroll");
    assert_eq!(search_chain_name(59144), "linea");
    assert_eq!(search_chain_name(5000), "mantle");
    assert_eq!(search_chain_name(130), "other");
    assert_eq!(search_chain_name(1), "ethereum");
}

#[test]
fn one_inch_route_prefixes_pool_names() {
    let hops = vec![hop(0, "UNISWAP_V3", Some("1inch-route")), hop(0, "", None), hop(0, "CURVE", None)];
    let pools = one_inch_pools("ETH", 10, &hops, Some(3000 * USD), 5);
    assert_eq!(pools.len(), 2);
    assert_quote(&pools[0], "1inch-route", "1inch:10:UNISWAP_V3", "ETH/USDC", 3000 * USD, "1inch");
    assert_quote(&pools[1], "1inch", "1inch:10:CURVE", "ETH/USDC", 3000 * USD, "1inch");
    assert_eq!(pools[0].chain, "optimism");
    let unpriced = one_inch_pools("ETH", 1, &hops, None, 5);
    assert_eq!(unpriced.len(), 2);
    assert_eq!(unpriced[0].price_usd, 0);
    let fallback = one_inch_pools("ETH", 137, &[], Some(0), 5);
    assert_eq!(fallback.len(), 1);
    assert_quote(&fallback[0], "1inch", "1inch:137:aggregated", "ETH/USDC", 0, "1inch");
    assert!(one_inch_pools("ETH", 137, &[], None, 5).is_empty());
    assert!(one_inch_pools("ETH", 43114, &hops, Some(1), 5).is_empty());
}

#[test]
fn aggregator_routes_fall_back_to_whole_route() {
    let mut pools = Vec::new();
    read_aggregator_route(&mut pools, Aggregator::KyberSwap, "ETH", "ethereum", "ethereum", &[], None, 5);
    assert!(pools.is_empty());
    read_aggregator_route(
        &mut pools,
        Aggregator::KyberSwap,
        "ETH",
        "ethereum",
        "ethereum",
        &[],
        Some(7),
        5,
    );
    assert_eq!(pools.len(), 1);
    assert_quote(&pools[0], "kyberswap", "kyber:ethereum:aggregated", "ETH/USDC", 7, "kyberswap");
    let mut ocean = Vec::new();
    read_aggregator_route(
        &mut ocean,
        Aggregator::OpenOcean,
        "ETH",
        "ethereum",
        "eth",
        &[hop(0, "0xr", Some("UniswapV2")), hop(0, "0xs", None)],
        Some(8),
        5,
    );
    assert_eq!(ocean.len(), 2);
    assert_quote(&ocean[0], "UniswapV2", "0xr", "ETH/USDC", 8, "openocean");
    assert_quote(&ocean[1], "openocean", "0xs", "ETH/USDC", 8, "openocean");
    let mut para = Vec::new();
    read_aggregator_route(&mut para, Aggregator::ParaSwap, "ETH", "bsc", "56", &[], Some(9), 5);
    assert_quote(&para[0], "paraswap", "paraswap:56:aggregated", "ETH/USDC", 9, "paraswap");
    assert_eq!(para[0].chain, "bsc");
    assert_eq!(whole_route_label("x", "y"), "x:y:aggregated");
    let mut plain = Vec::new();
    read_route(&mut plain, "ETH", "c", &[hop(0, "p", None)], None, "s", "pre:", "fb", 1);
    assert_quote(&plain[0], "s", "pre:p", "ETH/USDC", 0, "s");
}

#[test]
fn zero_x_price_yields_one_record_on_served_chains() {
    let pools = zero_x_pools("ETH", 56, Some(3000 * USD), 5);
    assert_eq!(pools.len(), 1);
    assert_quote(&pools[0], "0x", "aggregated", "ETH/USDC", 3000 * USD, "0x");
    assert_eq!(pools[0].chain, "bsc");
    assert!(zero_x_pools("ETH", 56, None, 5).is_empty());
    assert!(zero_x_pools("ETH", 42161, Some(1), 5).is_empty());
}

fn hit(symbol: &str, chain_id: u64, address: &str) -> TokenHit {
    TokenHit {
        symbol: symbol.to_string(),
        chain_id,
        address: address.to_string(),
        name: "Ether".to_string(),
        decimals: 18,
    }
}

#[test]
fn token_search_keeps_matching_tokens_with_address() {
    let hits = vec![
        hit("eth", 1, "0x1"),
        hit("WETH", 59144, "0x2"),
        hit("BTC", 1, "0x3"),
        hit("ETH", 1, ""),
        hit("stETH", 7, "0x5"),
    ];
    let pools = matcha_pools("ETH", &hits, 5);
    assert_eq!(pools.len(), 3);
    assert_quote(&pools[0], "matcha", "0x1", "Ether (18)", 0, "matcha");
    assert_eq!(pools[0].symbol, "eth");
    assert_eq!(pools[0].chain, "ethereum");
    assert_eq!(pools[1].symbol, "WETH");
    assert_eq!(pools[1].chain, "linea");
    assert_eq!(pools[2].symbol, "stETH");
    assert_eq!(pools[2].chain, "other");
}

#[test]
fn token_search_reads_ten_tokens() {
    let mut hits: Vec<TokenHit> = (0..10).map(|_| hit("BTC", 1, "0xb")).collect();
    hits.push(hit("ETH", 1, "0xe"));
    assert!(matcha_pools("ETH", &hits, 5).is_empty());
    hits[9] = hit("ETH", 1, "0xe");
    assert_eq!(matcha_pools("ETH", &hits, 5).len(), 1);
}

fn venue(base: &str, price_usd: Option<u64>) -> VenuePair {
    VenuePair {
        base_symbol: base.to_string(),
        price_usd,
        dex: "uniswap".to_string(),
        chain: "ethereum".to_string(),
    }
}

#[test]
fn first_usable_venue_price_is_found() {
    let pairs = vec![
        venue("WETH", Some(1)),
        venue("ETH", None),
        venue("eth", Some(0)),
        venue("Eth", Some(3000 * USD)),
        venue("ETH", Some(3001 * USD)),
    ];
    assert_eq!(first_venue_quote(&pairs, "eth"), Some(3));
    assert_eq!(first_venue_quote(&pairs, "BTC"), None);
    assert_eq!(first_venue_quote(&[], "ETH"), None);
    let mut late: Vec<VenuePair> = (0..5).map(|_| venue("BTC", Some(1))).collect();
    late.push(venue("ETH", Some(1)));
    assert_eq!(first_venue_quote(&late, "ETH"), None);
    assert_eq!(
        first_venue_quote(&[venue("ETH", Some(1_000_000_000 * USD))], "ETH"),
        None
    );
}

#[test]
fn gaps_are_relative_to_the_venue_price() {
    assert_eq!(gap(105 * USD, 100 * USD), Gap { side: GapSide::Above, size_pct: 5_000_000 });
    assert_eq!(gap(95 * USD, 100 * USD), Gap { side: GapSide::Below, size_pct: 5_000_000 });
    assert_eq!(gap(100, 100), Gap { side: GapSide::Above, size_pct: 0 });
    assert_eq!(gap(0, 3), Gap { side: GapSide::Below, size_pct: 100_000_000 });
    assert_eq!(gap(1, 3), Gap { side: GapSide::Below, size_pct: 66_666_666 });
    assert_eq!(
        gap(u64::MAX, 1),
        Gap { side: GapSide::Above, size_pct: (u64::MAX as u128 - 1) * 100_000_000 }
    );
    assert!(reaches_gap(101 * USD, 100 * USD, 10_000));
    assert!(reaches_gap(99 * USD, 100 * USD, 10_000));
    assert!(!reaches_gap(101 * USD - 1, 100 * USD, 10_000));
    assert!(!reaches_gap(5, 0, 0));
    assert!(reaches_gap(5, 5, 0));
    assert!(!reaches_gap(u64::MAX, u64::MAX, u64::MAX));
    assert!(reaches_gap(0, u64::MAX, 1_000_000));
}

#[test]
fn gaps_are_ranked_largest_first() {
    assert_eq!(rank_gaps(&[3, 9, 3, 0, 9, u128::MAX]), vec![5, 1, 4, 0, 2, 3]);
    assert!(rank_gaps(&[]).is_empty());
    assert_eq!(rank_gaps(&[7]), vec![0]);
}

fn point(symbol: &str, price_usd: u64) -> PriceData {
    PriceData {
        symbol: symbol.to_string(),
        chain: "ethereum".to_string(),
        dex: "uniswap".to_string(),
        pool_address: "0x1".to_string(),
        price_usd,
        timestamp: 1,
    }
}

#[test]
fn prices_are_averaged_by_symbol() {
    let points = vec![
        point("ETH", 3000),
        point("BTC", 60_000),
        point("ETH", 3001),
        point("ETH", 3001),
        point("SOL", u64::MAX),
        point("SOL", u64::MAX),
    ];
    let averages = symbol_averages(&points);
    let rows: Vec<(&str, u64, usize)> = averages
        .iter()
        .map(|row| (row.symbol.as_str(), row.average_usd, row.pools))
        .collect();
    assert_eq!(rows, vec![("ETH", 3000, 3), ("BTC", 60_000, 1), ("SOL", u64::MAX, 2)]);
    assert!(symbol_averages(&[]).is_empty());
}
