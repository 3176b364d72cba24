use std::sync::Arc;

use dex_gatherer::models::PoolData;
use dex_gatherer::services::detector::ArbitrageDetector;
use dex_gatherer::services::distribution::{
    chunk_pools, continues_after, is_ping_kind, is_ping_request, plan_broadcast, pong_reply,
    react, send_timeout, Inbound, LoopEvent, MessageKind, Outbound, Reaction, SendOutcome,
    BROADCAST_INTERVAL_SECS, CHUNK_SIZE, HEARTBEAT_INTERVAL_SECS, SEND_TIMEOUT_SECS,
};
use dex_gatherer::sources::upbit::CexPrice;

const USD: u64 = 1_000_000;

fn pool(symbol: &str, index: usize, price_usd: u64) -> Arc<PoolData> {
    Arc::new(PoolData::observed_at(
        symbol.to_string(),
        "ethereum".to_string(),
        "uniswap".to_string(),
        format!("0x{}", index),
        format!("{}/USDC", symbol),
        price_usd,
        0,
        0,
        "geckoterminal".to_string(),
        1_700_000_000,
    ))
}

fn snapshot(count: usize) -> Vec<Arc<PoolData>> {
    (0..count).map(|i| pool(&format!("T{}", i), i, 100 * USD)).collect()
}

#[test]
fn chunks_cover_the_snapshot_in_order() {
    let pools = snapshot(7);
    let chunks = chunk_pools(&pools, 3);
    let sizes: Vec<usize> = chunks.iter().map(|chunk| chunk.len()).collect();
    assert_eq!(sizes, vec![3, 3, 1]);
    let flat: Vec<String> = chunks
        .iter()
        .flat_map(|chunk| chunk.iter().map(|pool| pool.pool_address.clone()))
        .collect();
    let expected: Vec<String> = pools.iter().map(|pool| pool.pool_address.clone()).collect();
    assert_eq!(flat, expected);
}

#[test]
fn chunking_edge_cases() {
    assert!(chunk_pools(&snapshot(0), 50).is_empty());
    assert_eq!(chunk_pools(&snapshot(50), 50).len(), 1);
    assert_eq!(chunk_pools(&snapshot(51), 50).len(), 2);
    assert_eq!(chunk_pools(&snapshot(51), 50)[1].len(), 1);
    assert_eq!(chunk_pools(&snapshot(3), 1).len(), 3);
    assert_eq!(chunk_pools(&snapshot(3), usize::MAX).len(), 1);
}

#[test]
fn broadcast_sends_chunks_then_alerts() {
    let mut pools = snapshot(120);
    pools.push(pool("ETH", 1000, 3000 * USD));
    pools.push(pool("ETH", 1001, 3300 * USD));
    let prices = vec![CexPrice {
        symbol: "ETH".to_string(),
        price_krw: 0,
        price_usd: 3600 * USD,
        timestamp: 0,
    }];
    let detector = ArbitrageDetector::new(50_000);
    let messages = plan_broadcast(&detector, &pools, &prices, 9);
    assert_eq!(messages.len(), 4);
    let mut sent = 0;
    for message in &messages[..3] {
        match message {
            Outbound::PoolUpdate(chunk) => {
                assert!(chunk.len() <= CHUNK_SIZE);
                assert_eq!(chunk[0].pool_address, pools[sent].pool_address);
                sent += chunk.len();
            }
            Outbound::ArbAlert(_) => panic!("alerts come last"),
        }
    }
    assert_eq!(sent, 122);
    match &messages[3] {
        Outbound::ArbAlert(alerts) => {
            assert_eq!(alerts.len(), 3);
            assert_eq!(alerts[0].low_source, "uniswap:0x1000");
            assert_eq!(alerts[0].high_source, "uniswap:0x1001");
            assert_eq!(alerts[1].high_source, "upbit");
            assert_eq!(alerts[2].high_source, "upbit");
            assert_eq!(alerts[2].timestamp, 9);
        }
        Outbound::PoolUpdate(_) => panic!("the last message holds the alerts"),
    }
}

#[test]
fn broadcast_without_alerts_sends_only_chunks() {
    let detector = ArbitrageDetector::new(50_000);
    let messages = plan_broadcast(&detector, &snapshot(10), &[], 9);
    assert_eq!(messages.len(), 1);
    assert!(matches!(&messages[0], Outbound::PoolUpdate(chunk) if chunk.len() == 10));
    assert!(plan_broadcast(&detector, &[], &[], 9).is_empty());
}

#[test]
fn events_map_to_reactions() {
    assert_eq!(react(&LoopEvent::BroadcastTick), Reaction::Broadcast);
    assert_eq!(react(&LoopEvent::HeartbeatTick), Reaction::SendHeartbeat);
    assert_eq!(react(&LoopEvent::Frame(Inbound::Close)), Reaction::Terminate);
    assert_eq!(react(&LoopEvent::Frame(Inbound::StreamEnd)), Reaction::Terminate);
    assert_eq!(react(&LoopEvent::Frame(Inbound::Pong)), Reaction::Ignore);
    assert_eq!(react(&LoopEvent::Frame(Inbound::Other)), Reaction::Ignore);
    assert_eq!(
        react(&LoopEvent::Frame(Inbound::Text("{\"type\":\"ping\"}".to_string()))),
        Reaction::ReplyPong
    );
    assert_eq!(
        react(&LoopEvent::Frame(Inbound::Text("{\"type\":\"subscribe\"}".to_string()))),
        Reaction::Ignore
    );
    assert_eq!(
        react(&LoopEvent::Frame(Inbound::Text("ping".to_string()))),
        Reaction::Ignore
    );
}

#[test]
fn ping_requests_are_recognised() {
    assert!(is_ping_request("{\"type\":\"ping\"}"));
    assert!(is_ping_request(" { \"id\": 4, \"type\" : \"ping\" } "));
    assert!(is_ping_request("{\"type\":\"pong\",\"type\":\"ping\"}"));
    assert!(!is_ping_request("{\"type\":\"PING\"}"));
    assert!(!is_ping_request("{\"type\":\"pong\"}"));
    assert!(!is_ping_request("{\"type\":1}"));
    assert!(!is_ping_request("{\"kind\":\"ping\"}"));
    assert!(!is_ping_request("[\"type\",\"ping\"]"));
    assert!(!is_ping_request("\"ping\""));
    assert!(!is_ping_request("{\"type\":\"ping\""));
    assert!(!is_ping_request(""));
    assert!(is_ping_kind(Some("ping")));
    assert!(!is_ping_kind(Some("pin")));
    assert!(!is_ping_kind(None));
    assert_eq!(pong_reply(), "{\"type\":\"pong\"}");
}

#[test]
fn unsent_pool_update_or_heartbeat_ends_the_loop() {
    for outcome in [SendOutcome::Failed, SendOutcome::TimedOut] {
        assert!(!continues_after(MessageKind::PoolUpdate, outcome));
        assert!(!continues_after(MessageKind::Heartbeat, outcome));
        assert!(continues_after(MessageKind::ArbAlert, outcome));
        assert!(continues_after(MessageKind::Pong, outcome));
    }
    for kind in [
        MessageKind::PoolUpdate,
        MessageKind::Heartbeat,
        MessageKind::ArbAlert,
        MessageKind::Pong,
    ] {
        assert!(continues_after(kind, SendOutcome::Sent));
    }
}

#[test]
fn only_pool_updates_have_a_send_timeout() {
    assert_eq!(send_timeout(MessageKind::PoolUpdate), Some(SEND_TIMEOUT_SECS));
    assert_eq!(send_timeout(MessageKind::ArbAlert), None);
    assert_eq!(send_timeout(MessageKind::Heartbeat), None);
    assert_eq!(send_timeout(MessageKind::Pong), None);
    assert_eq!(SEND_TIMEOUT_SECS, 5);
    assert_eq!(BROADCAST_INTERVAL_SECS, 30);
    assert_eq!(HEARTBEAT_INTERVAL_SECS, 10);
    assert_eq!(CHUNK_SIZE, 50);
}
