//! Laws of the collection engine, stated over its specification.

use vstd::prelude::*;
use crate::models::pool::PoolRecord;
use crate::services::cache::composite_key;
use crate::services::cache::key_index;
use crate::services::cache::keys_are_unique;
use crate::services::cache::CacheState;
use crate::services::cache::CachedRecord;
use crate::services::cache_laws::key_index_finds;
use crate::services::cache_laws::upsert_keeps_keys_unique;
use crate::services::cache_laws::upsert_leaves_other_keys;
use crate::services::collector::can_advance;
use crate::services::collector::can_finish;
use crate::services::collector::can_start;
use crate::services::collector::count_accepted;
use crate::services::collector::counted;
use crate::services::collector::run_begun;
use crate::services::collector::run_failed;
use crate::services::collector::run_is_consistent;
use crate::services::collector::run_is_finished;
use crate::services::collector::run_step;
use crate::services::collector::run_stepped;
use crate::services::collector::run_succeeded;
use crate::services::collector::started_fetches_are_bounded;
use crate::services::collector::stored_batch;
use crate::services::collector::RunState;
use crate::services::filter::PoolFilter;

verus! {

/// A run that has just begun is consistent.
pub proof fn begun_run_is_consistent(sources: nat, symbols: nat, permits: nat)
    requires
        permits >= 1,
        sources * symbols <= usize::MAX,
    ensures
        run_is_consistent(run_begun(sources, symbols, permits)),
{
    let run = run_begun(sources, symbols, permits);
    assert(run.source * run.symbols == 0) by (nonlinear_arith)
        requires
            run.source == 0 || run.symbols == 0,
    ;
}

/// The fetches in flight never exceed the permits: a consistent run stays
/// consistent through every step and through the settling of every fetch in
/// flight, and a step starts a fetch only while a permit is free.
pub proof fn run_stays_within_permits(run: RunState, collected: nat)
    requires
        run_is_consistent(run),
    ensures
        run.in_flight <= run.permits,
        run_is_consistent(run_stepped(run)),
        run_stepped(run).in_flight <= run.permits,
        run_step(run) is Start ==> run.in_flight < run.permits && run_stepped(run).in_flight
            == run.in_flight + 1,
        !(run_step(run) is Start) ==> run_stepped(run).in_flight == run.in_flight,
        run.in_flight > 0 ==> run_is_consistent(run_succeeded(run, collected)),
        run.in_flight > 0 ==> run_is_consistent(run_failed(run)),
{
    started_fetches_are_bounded(run);
    assert((run.source + 1) * run.symbols == run.source * run.symbols + run.symbols)
        by (nonlinear_arith);
}

/// When a run has finished, every pair of a source and a symbol has been
/// counted exactly once, as succeeded or as failed.
pub proof fn finished_run_counts_every_pair(run: RunState)
    requires
        run_is_consistent(run),
        run_is_finished(run),
    ensures
        run.successful + run.failed == run.sources * run.symbols,
{
}

/// A run never stalls: while no fetch is in flight, the next step starts a
/// fetch or ends the run. A step ends the run only when all has settled.
pub proof fn idle_run_moves_on(run: RunState)
    requires
        run_is_consistent(run),
    ensures
        run.in_flight == 0 ==> !(run_step(run) is Wait),
        run_step(run) is Done ==> run_is_finished(run_stepped(run)),
        run_step(run) is Wait ==> run_stepped(run) == run,
{
}

/// Settling a fetch moves one fetch from in flight to succeeded or failed,
/// and leaves the other count alone.
pub proof fn settling_counts_once(run: RunState, collected: nat)
    requires
        run_is_consistent(run),
        run.in_flight > 0,
    ensures
        run_succeeded(run, collected).successful + run_succeeded(run, collected).failed
            == run.successful + run.failed + 1,
        run_failed(run).successful + run_failed(run).failed == run.successful + run.failed + 1,
        run_succeeded(run, collected).failed == run.failed,
        run_failed(run).successful == run.successful,
        run_failed(run).pools == run.pools,
        run_succeeded(run, collected).pools >= run.pools,
{
}

/// A counter never decreases, and counting in two parts is counting the sum.
pub proof fn counters_only_grow(count: usize, more: nat, further: nat)
    ensures
        counted(count, more) >= count,
        counted(counted(count, more), further) == counted(count, more + further),
{
}

/// Storing a batch keeps the keys unique and the cache's settings, and
/// stores no more records than the batch holds.
pub proof fn stored_batch_keeps_cache_sound(
    cache: CacheState,
    filter: PoolFilter,
    batch: Seq<PoolRecord>,
    now: int,
    upto: int,
)
    requires
        keys_are_unique(cache.entries),
        0 <= upto <= batch.len(),
    ensures
        keys_are_unique(stored_batch(cache, filter, batch, now, upto).entries),
        stored_batch(cache, filter, batch, now, upto).ttl == cache.ttl,
        stored_batch(cache, filter, batch, now, upto).last_cleanup == cache.last_cleanup,
        count_accepted(filter, batch, upto) <= upto,
        cache.entries.len() <= stored_batch(cache, filter, batch, now, upto).entries.len()
            <= cache.entries.len() + count_accepted(filter, batch, upto),
    decreases upto,
{
    if upto > 0 {
        stored_batch_keeps_cache_sound(cache, filter, batch, now, upto - 1);
        let before = stored_batch(cache, filter, batch, now, upto - 1);
        let pool = batch[upto - 1];
        if filter.accepts(pool) {
            upsert_keeps_keys_unique(
                before.entries,
                CachedRecord {
                    key: composite_key(pool.source, pool.chain, pool.pool_address),
                    pool,
                    inserted_at: now,
                },
            );
        }
    }
}

/// The key under which a record of a batch is stored.
pub open spec fn key_of(pool: PoolRecord) -> Seq<char> {
    composite_key(pool.source, pool.chain, pool.pool_address)
}

/// Every record of a fetched batch that the filter accepts is in the cache
/// afterwards, under its key and with the time of the fetch, unless a later
/// accepted record of the batch has the same key.
pub proof fn accepted_records_are_cached(
    cache: CacheState,
    filter: PoolFilter,
    batch: Seq<PoolRecord>,
    now: int,
    at: int,
    upto: int,
)
    requires
        keys_are_unique(cache.entries),
        0 <= at < upto <= batch.len(),
        filter.accepts(batch[at]),
        forall|later: int|
            at < later < upto && filter.accepts(#[trigger] batch[later]) ==> key_of(batch[later])
                != key_of(batch[at]),
    ensures
        ({
            let after = stored_batch(cache, filter, batch, now, upto).entries;
            let found = key_index(after, key_of(batch[at]), after.len() as int);
            &&& 0 <= found < after.len()
            &&& after[found] == (CachedRecord {
                key: key_of(batch[at]),
                pool: batch[at],
                inserted_at: now,
            })
        }),
    decreases upto,
{
    let before = stored_batch(cache, filter, batch, now, upto - 1);
    let pool = batch[upto - 1];
    let entry = CachedRecord { key: key_of(pool), pool, inserted_at: now };
    stored_batch_keeps_cache_sound(cache, filter, batch, now, upto - 1);
    key_index_finds(
        stored_batch(cache, filter, batch, now, upto).entries,
        key_of(batch[at]),
        stored_batch(cache, filter, batch, now, upto).entries.len() as int,
    );
    if at == upto - 1 {
        upsert_keeps_keys_unique(before.entries, entry);
    } else {
        accepted_records_are_cached(cache, filter, batch, now, at, upto - 1);
        if filter.accepts(pool) {
            upsert_leaves_other_keys(before.entries, entry, key_of(batch[at]));
        }
    }
}

} // verus!
