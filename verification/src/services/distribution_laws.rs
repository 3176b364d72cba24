//! Laws of the connection loop's decisions.

use vstd::prelude::*;
use crate::services::distribution::chunk_at;
use crate::services::distribution::chunk_count;
use crate::services::distribution::chunks_of;
use crate::services::distribution::reaction_to;
use crate::services::distribution::survives_send;
use crate::services::distribution::Inbound;
use crate::services::distribution::LoopEvent;
use crate::services::distribution::MessageKind;
use crate::services::distribution::Reaction;
use crate::services::distribution::SendOutcome;

verus! {

/// No chunk is empty, none holds more than `size` items, and every chunk but
/// the last holds exactly `size`.
pub proof fn chunks_are_bounded<T>(items: Seq<T>, size: nat, index: int)
    requires
        size > 0,
        0 <= index < chunks_of(items, size).len(),
    ensures
        1 <= chunks_of(items, size)[index].len() <= size,
        index + 1 < chunks_of(items, size).len() ==> chunks_of(items, size)[index].len() == size,
{
    let n = items.len() as int;
    let s = size as int;
    let count = chunk_count(items.len(), size) as int;
    assert((count - 1) * s < n && n <= count * s) by (nonlinear_arith)
        requires
            count == (n + s - 1) / s,
            s > 0,
            n >= 0,
            count > 0,
    ;
    assert(index * s < n && (index + 1) * s == index * s + s && index * s >= 0)
        by (nonlinear_arith)
        requires
            0 <= index <= count - 1,
            (count - 1) * s < n,
            s > 0,
    ;
    if index + 1 < count {
        assert((index + 1) * s < n) by (nonlinear_arith)
            requires
                index + 1 <= count - 1,
                (count - 1) * s < n,
                s > 0,
        ;
    }
}

/// The chunks hold the items in order: the item at `at` is item `at % size`
/// of chunk `at / size`.
pub proof fn chunks_hold_every_item<T>(items: Seq<T>, size: nat, at: int)
    requires
        size > 0,
        0 <= at < items.len(),
    ensures
        0 <= at / (size as int) < chunks_of(items, size).len(),
        0 <= at % (size as int) < chunks_of(items, size)[at / (size as int)].len(),
        chunks_of(items, size)[at / (size as int)][at % (size as int)] == items[at],
{
    let n = items.len() as int;
    let s = size as int;
    let k = at / s;
    let r = at % s;
    let count = chunk_count(items.len(), size) as int;
    assert(at == k * s + r && 0 <= r < s && 0 <= k) by (nonlinear_arith)
        requires
            k == at / s,
            r == at % s,
            s > 0,
            at >= 0,
    ;
    assert(k < count) by (nonlinear_arith)
        requires
            count == (n + s - 1) / s,
            at == k * s + r,
            0 <= r,
            at < n,
            s > 0,
            k >= 0,
    ;
    assert((k + 1) * s == k * s + s) by (nonlinear_arith);
}

/// A closed connection and the end of the stream end the loop, and nothing
/// else that arrives does.
pub proof fn only_close_and_stream_end_terminate(event: LoopEvent)
    ensures
        reaction_to(event) == Reaction::Terminate <==> (event == LoopEvent::Frame(Inbound::Close)
            || event == LoopEvent::Frame(Inbound::StreamEnd)),
{
}

/// A pool update or a heartbeat that was not sent, for whatever reason, ends
/// the loop; a failed alert or pong never does.
pub proof fn unsent_data_ends_the_loop(kind: MessageKind, outcome: SendOutcome)
    ensures
        outcome == SendOutcome::Sent ==> survives_send(kind, outcome),
        outcome != SendOutcome::Sent ==> (survives_send(kind, outcome) <==> (kind
            == MessageKind::ArbAlert || kind == MessageKind::Pong)),
{
}

} // verus!
