//! The decisions of the loop that serves one connection.
//!
//! The loop waits for whichever comes first of a broadcast tick, a heartbeat
//! tick and an inbound frame. The functions here say what each event asks
//! for and whether the loop goes on after a send; the executor waits, sends
//! and reports back. Nothing is ever queued for a slow client: a pool update
//! or a heartbeat that cannot be sent in time ends the connection.

use std::sync::Arc;
use vstd::prelude::*;
use crate::handles::share;
use crate::json::json_type_field;
use crate::json::read_type_field;
use crate::models::alert::AlertRecord;
use crate::models::alert::ArbitrageAlert;
use crate::models::pool::PoolData;
use crate::models::pool::PoolRecord;
use crate::services::detector::alert_records;
use crate::services::detector::all_alerts;
use crate::services::detector::cex_quotes;
use crate::services::detector::pool_records;
use crate::services::detector::ArbitrageDetector;
use crate::sources::upbit::CexPrice;
use crate::sources::upbit::CexQuote;
use crate::text::same_text;

verus! {

/// The seconds between two broadcasts.
pub const BROADCAST_INTERVAL_SECS: u64 = 30;

/// The seconds between two heartbeats.
pub const HEARTBEAT_INTERVAL_SECS: u64 = 10;

/// The seconds that the send of one pool update may take.
pub const SEND_TIMEOUT_SECS: u64 = 5;

/// The largest number of records in one pool update.
pub const CHUNK_SIZE: usize = 50;

/// A frame that the client sent, or the end of its stream.
#[derive(Debug)]
pub enum Inbound {
    /// The client closed the connection.
    Close,
    /// The stream ended.
    StreamEnd,
    /// The client acknowledged a heartbeat.
    Pong,
    /// The client sent a text.
    Text(String),
    /// Any other frame.
    Other,
}

/// What the loop woke up for.
#[derive(Debug)]
pub enum LoopEvent {
    BroadcastTick,
    HeartbeatTick,
    Frame(Inbound),
}

/// What an event asks the executor to do.
#[derive(Debug, Clone, Copy, PartialEq, Eq, Structural)]
pub enum Reaction {
    /// Take the snapshots and send what `plan_broadcast` lists.
    Broadcast,
    /// Send a heartbeat.
    SendHeartbeat,
    /// Answer a ping request at once.
    ReplyPong,
    /// Nothing to do.
    Ignore,
    /// Leave the loop.
    Terminate,
}

/// The kinds of message that the loop sends.
#[derive(Debug, Clone, Copy, PartialEq, Eq, Structural)]
pub enum MessageKind {
    PoolUpdate,
    ArbAlert,
    Heartbeat,
    Pong,
}

/// How a send ended.
#[derive(Debug, Clone, Copy, PartialEq, Eq, Structural)]
pub enum SendOutcome {
    Sent,
    Failed,
    TimedOut,
}

/// A message of a broadcast.
#[derive(Debug)]
pub enum Outbound {
    /// One chunk of the pool snapshot.
    PoolUpdate(Vec<Arc<PoolData>>),
    /// All alerts of the snapshot.
    ArbAlert(Vec<ArbitrageAlert>),
}

/// The mathematical value of an [`Outbound`].
pub enum OutboundRecord {
    PoolUpdate(Seq<PoolRecord>),
    ArbAlert(Seq<AlertRecord>),
}

impl View for Outbound {
    type V = OutboundRecord;

    open spec fn view(&self) -> OutboundRecord {
        match self {
            Outbound::PoolUpdate(pools) => OutboundRecord::PoolUpdate(pool_records(pools@)),
            Outbound::ArbAlert(alerts) => OutboundRecord::ArbAlert(alert_records(alerts@)),
        }
    }
}

/// The values of a list of messages.
pub open spec fn outbound_records(messages: Seq<Outbound>) -> Seq<OutboundRecord> {
    messages.map_values(|message: Outbound| message@)
}

/// Whether a text asks for a pong: it is a JSON object whose `type` is the
/// string `ping`.
pub open spec fn asks_for_pong(text: Seq<char>) -> bool {
    json_type_field(text) == Some("ping"@)
}

/// Whether the `type` of a control message names a ping request.
pub open spec fn names_ping(kind: Option<Seq<char>>) -> bool {
    kind == Some("ping"@)
}

/// What an event asks for.
pub open spec fn reaction_to(event: LoopEvent) -> Reaction {
    match event {
        LoopEvent::BroadcastTick => Reaction::Broadcast,
        LoopEvent::HeartbeatTick => Reaction::SendHeartbeat,
        LoopEvent::Frame(Inbound::Close) => Reaction::Terminate,
        LoopEvent::Frame(Inbound::StreamEnd) => Reaction::Terminate,
        LoopEvent::Frame(Inbound::Pong) => Reaction::Ignore,
        LoopEvent::Frame(Inbound::Other) => Reaction::Ignore,
        LoopEvent::Frame(Inbound::Text(text)) => if asks_for_pong(text@) {
            Reaction::ReplyPong
        } else {
            Reaction::Ignore
        },
    }
}

/// Whether the loop goes on after a send of a message of kind `kind` ended
/// with `outcome`. Pool updates and heartbeats must arrive; alerts and pongs
/// are sent on a best-effort basis.
pub open spec fn survives_send(kind: MessageKind, outcome: SendOutcome) -> bool {
    match kind {
        MessageKind::PoolUpdate => outcome == SendOutcome::Sent,
        MessageKind::Heartbeat => outcome == SendOutcome::Sent,
        MessageKind::ArbAlert => true,
        MessageKind::Pong => true,
    }
}

/// The number of chunks of at most `size` that `len` items fill.
pub open spec fn chunk_count(len: nat, size: nat) -> nat
    recommends
        size > 0,
{
    ((len + size - 1) / (size as int)) as nat
}

/// The chunk at `index` of a sequence cut into chunks of `size`.
pub open spec fn chunk_at<T>(items: Seq<T>, size: nat, index: int) -> Seq<T>
    recommends
        size > 0,
{
    items.subrange(
        index * size,
        if (index + 1) * size < items.len() {
            (index + 1) * size
        } else {
            items.len() as int
        },
    )
}

/// A sequence cut into chunks of `size`, the last of which may be shorter.
pub open spec fn chunks_of<T>(items: Seq<T>, size: nat) -> Seq<Seq<T>>
    recommends
        size > 0,
{
    Seq::new(chunk_count(items.len(), size), |index: int| chunk_at(items, size, index))
}

/// The messages of one broadcast: the snapshot in chunks of `size`, then all
/// alerts in one message if there are any.
pub open spec fn broadcast_plan(
    pools: Seq<PoolRecord>,
    prices: Seq<CexQuote>,
    threshold: nat,
    timestamp: int,
    size: nat,
) -> Seq<OutboundRecord> {
    let updates = chunks_of(pools, size).map_values(
        |chunk: Seq<PoolRecord>| OutboundRecord::PoolUpdate(chunk),
    );
    let alerts = all_alerts(pools, prices, threshold, timestamp);
    if alerts.len() > 0 {
        updates.push(OutboundRecord::ArbAlert(alerts))
    } else {
        updates
    }
}

/// Decides whether the `type` of a control message names a ping request.
pub fn is_ping_kind(kind: Option<&str>) -> (ping: bool)
    ensures
        ping == names_ping(
            match kind {
                Some(name) => Some(name@),
                None => None,
            },
        ),
{
    match kind {
        Some(name) => same_text(name, "ping"),
        None => false,
    }
}

/// Decides whether a text asks for a pong.
pub fn is_ping_request(text: &str) -> (ping: bool)
    ensures
        ping == asks_for_pong(text@),
{
    match read_type_field(text) {
        Some(kind) => is_ping_kind(Some(kind.as_str())),
        None => is_ping_kind(None),
    }
}

/// The text that answers a ping request.
pub fn pong_reply() -> (reply: String)
    ensures
        reply@ == "{\"type\":\"pong\"}"@,
{
    String::from_str("{\"type\":\"pong\"}")
}

/// Decides what an event asks for.
pub fn react(event: &LoopEvent) -> (reaction: Reaction)
    ensures
        reaction == reaction_to(*event),
{
    match event {
        LoopEvent::BroadcastTick => Reaction::Broadcast,
        LoopEvent::HeartbeatTick => Reaction::SendHeartbeat,
        LoopEvent::Frame(frame) => match frame {
            Inbound::Close => Reaction::Terminate,
            Inbound::StreamEnd => Reaction::Terminate,
            Inbound::Pong => Reaction::Ignore,
            Inbound::Other => Reaction::Ignore,
            Inbound::Text(text) => if is_ping_request(text.as_str()) {
                Reaction::ReplyPong
            } else {
                Reaction::Ignore
            },
        },
    }
}

/// Decides whether the loop goes on after a send.
pub fn continues_after(kind: MessageKind, outcome: SendOutcome) -> (goes_on: bool)
    ensures
        goes_on == survives_send(kind, outcome),
{
    match kind {
        MessageKind::PoolUpdate => outcome == SendOutcome::Sent,
        MessageKind::Heartbeat => outcome == SendOutcome::Sent,
        MessageKind::ArbAlert => true,
        MessageKind::Pong => true,
    }
}

/// The seconds within which a message of kind `kind` must be sent, if its
/// send is bounded.
pub fn send_timeout(kind: MessageKind) -> (limit: Option<u64>)
    ensures
        limit == if kind == MessageKind::PoolUpdate {
            Some(5u64)
        } else {
            None
        },
{
    match kind {
        MessageKind::PoolUpdate => Some(SEND_TIMEOUT_SECS),
        _ => None,
    }
}

/// The values of a list of chunks.
pub open spec fn chunk_records(chunks: Seq<Vec<Arc<PoolData>>>) -> Seq<Seq<PoolRecord>> {
    chunks.map_values(|chunk: Vec<Arc<PoolData>>| pool_records(chunk@))
}

fn copy_range(pools: &[Arc<PoolData>], from: usize, to: usize) -> (copy: Vec<Arc<PoolData>>)
    requires
        from <= to <= pools@.len(),
    ensures
        pool_records(copy@) == pool_records(pools@).subrange(from as int, to as int),
{
    let mut copy: Vec<Arc<PoolData>> = Vec::new();
    let mut i: usize = from;
    while i < to
        invariant
            from <= i <= to <= pools@.len(),
            pool_records(copy@) == pool_records(pools@).subrange(from as int, i as int),
        decreases to - i,
    {
        let shared = share(&pools[i]);
        copy.push(shared);
        assert(pool_records(pools@).subrange(from as int, i + 1) =~= pool_records(
            pools@,
        ).subrange(from as int, i as int).push(pool_records(pools@)[i as int]));
        i += 1;
    }
    copy
}

/// Cuts a snapshot into chunks of `size` handles; the last chunk may be
/// shorter, and an empty snapshot has no chunk.
pub fn chunk_pools(pools: &[Arc<PoolData>], size: usize) -> (chunks: Vec<Vec<Arc<PoolData>>>)
    requires
        size > 0,
    ensures
        chunk_records(chunks@) == chunks_of(pool_records(pools@), size as nat),
{
    let ghost records = pool_records(pools@);
    let n: usize = pools.len();
    let mut chunks: Vec<Vec<Arc<PoolData>>> = Vec::new();
    let mut start: usize = 0;
    assert(0 * size == 0) by (nonlinear_arith);
    assert((0 + size - 1) / (size as int) == 0) by (nonlinear_arith)
        requires
            size > 0,
    ;
    while start < n
        invariant
            size > 0,
            n == pools@.len(),
            records == pool_records(pools@),
            start <= n,
            start < n ==> start == chunks@.len() * size,
            start == n ==> chunks@.len() == chunk_count(n as nat, size as nat),
            forall|j: int|
                0 <= j < chunks@.len() ==> pool_records(#[trigger] chunks@[j]@) == chunk_at(
                    records,
                    size as nat,
                    j,
                ),
        decreases n - start,
    {
        let ghost k = chunks@.len() as int;
        let end: usize = if n - start > size {
            start + size
        } else {
            n
        };
        let chunk = copy_range(pools, start, end);
        proof {
            assert((k + 1) * size == k * size + size) by (nonlinear_arith);
            if end == n {
                assert((n + size - 1) / (size as int) == k + 1) by (nonlinear_arith)
                    requires
                        k * size < n,
                        n <= (k + 1) * size,
                        size > 0,
                ;
            }
        }
        chunks.push(chunk);
        start = end;
    }
    chunks
}

/// Lists the messages of one broadcast at time `timestamp`: the snapshot in
/// chunks of [`CHUNK_SIZE`], then all alerts in one message if there are any.
pub fn plan_broadcast(
    detector: &ArbitrageDetector,
    pools: &[Arc<PoolData>],
    cex_prices: &[CexPrice],
    timestamp: i64,
) -> (messages: Vec<Outbound>)
    ensures
        outbound_records(messages@) == broadcast_plan(
            pool_records(pools@),
            cex_quotes(cex_prices@),
            detector.spec_threshold(),
            timestamp as int,
            50,
        ),
{
    let mut chunks = chunk_pools(pools, CHUNK_SIZE);
    let ghost cut = chunk_records(chunks@);
    let ghost updates = cut.map_values(|chunk: Seq<PoolRecord>| OutboundRecord::PoolUpdate(chunk));
    let mut messages: Vec<Outbound> = Vec::new();
    while chunks.len() > 0
        invariant
            messages@.len() + chunks@.len() == cut.len(),
            updates == cut.map_values(|chunk: Seq<PoolRecord>| OutboundRecord::PoolUpdate(chunk)),
            forall|j: int| 0 <= j < messages@.len() ==> (#[trigger] messages@[j])@ == updates[j],
            forall|j: int|
                0 <= j < chunks@.len() ==> pool_records(#[trigger] chunks@[j]@) == cut[
                    messages@.len() + j
                ],
        decreases chunks@.len(),
    {
        let chunk = chunks.remove(0);
        messages.push(Outbound::PoolUpdate(chunk));
    }
    let alerts = detector.detect_all_at(pools, cex_prices, timestamp);
    if alerts.len() > 0 {
        let message = Outbound::ArbAlert(alerts);
        messages.push(message);
    }
    messages
}

} // verus!
