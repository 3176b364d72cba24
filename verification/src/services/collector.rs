//! The collection engine: which fetch starts next, how a failed attempt is
//! answered, and what a finished fetch does to the cache and the counters.
//!
//! A run visits the sources one after another. Within a source a fetch is
//! started for each symbol, as far as the limiter has permits; the next
//! source begins when every fetch of the current one has settled.

use std::sync::Arc;
use vstd::prelude::*;
use crate::clock::unix_now;
use crate::models::pool::PoolData;
use crate::models::pool::PoolRecord;
use crate::services::cache::cache_key;
use crate::services::cache::cleaned_at;
use crate::services::cache::composite_key;
use crate::services::cache::keys_are_unique;
use crate::services::cache::live_pools;
use crate::services::cache::stored_at;
use crate::services::cache::CacheState;
use crate::services::cache::PoolCache;
use crate::services::collector_laws::stored_batch_keeps_cache_sound;
use crate::services::detector::pool_records;
use crate::services::filter::PoolFilter;
use crate::sources::PoolSource;
use crate::sources::SourceError;

verus! {

/// How many attempts a fetch gets before it counts as failed.
pub const MAX_RETRIES: u32 = 3;

/// The pause between two attempts, in milliseconds.
pub const RETRY_DELAY_MS: u64 = 500;

/// The time that one attempt may take, in seconds.
pub const FETCH_TIMEOUT_SECS: u64 = 10;

/// The number of permits of a collector's limiter unless another is chosen.
pub const DEFAULT_PERMITS: usize = 10;

/// What a run reports when it has finished: the records stored, and the
/// fetches that succeeded and failed.
#[derive(Debug, Clone, Copy, PartialEq, Eq, Structural)]
pub struct CollectorResult {
    pub total: usize,
    pub successful: usize,
    pub failed: usize,
}

/// The mathematical value of a [`CollectionRun`].
pub struct RunState {
    pub sources: nat,
    pub symbols: nat,
    pub permits: nat,
    pub source: nat,
    pub started: nat,
    pub in_flight: nat,
    pub successful: nat,
    pub failed: nat,
    pub pools: nat,
}

/// What the engine asks of its executor.
#[derive(Debug, Clone, Copy, PartialEq, Eq, Structural)]
pub enum Step {
    /// Start fetching the symbol at `symbol` from the source at `source`.
    Start { source: usize, symbol: usize },
    /// Nothing can start before a fetch in flight has settled.
    Wait,
    /// Every fetch has settled.
    Done(CollectorResult),
}

/// What holds of a run in every state: the fetches in flight never exceed
/// the permits, and every fetch that was started is in flight, succeeded or
/// failed.
pub open spec fn run_is_consistent(run: RunState) -> bool {
    &&& run.permits >= 1
    &&& run.sources * run.symbols <= usize::MAX
    &&& run.in_flight <= run.permits
    &&& run.in_flight <= run.started <= run.symbols
    &&& run.source <= run.sources
    &&& run.source == run.sources ==> run.started == 0
    &&& run.symbols == 0 ==> run.source == run.sources
    &&& run.successful + run.failed + run.in_flight == run.source * run.symbols + run.started
    &&& run.pools <= usize::MAX
}

/// Whether every fetch of the run has settled and none is left to start.
pub open spec fn run_is_finished(run: RunState) -> bool {
    run.source == run.sources && run.in_flight == 0
}

/// A run before its first step.
pub open spec fn run_begun(sources: nat, symbols: nat, permits: nat) -> RunState {
    RunState {
        sources,
        symbols,
        permits,
        source: if symbols == 0 {
            sources
        } else {
            0
        },
        started: 0,
        in_flight: 0,
        successful: 0,
        failed: 0,
        pools: 0,
    }
}

/// Whether the next step starts a fetch of the current source.
pub open spec fn can_start(run: RunState) -> bool {
    run.source < run.sources && run.started < run.symbols && run.in_flight < run.permits
}

/// Whether the current source has settled and another one follows.
pub open spec fn can_advance(run: RunState) -> bool {
    run.source + 1 < run.sources && run.started == run.symbols && run.in_flight == 0
}

/// Whether the current source has settled and it was the last one.
pub open spec fn can_finish(run: RunState) -> bool {
    run.source + 1 >= run.sources && (run.source >= run.sources || run.started == run.symbols)
        && run.in_flight == 0
}

/// What the next step asks for.
pub open spec fn run_step(run: RunState) -> Step {
    if can_start(run) {
        Step::Start { source: run.source as usize, symbol: run.started as usize }
    } else if can_advance(run) {
        Step::Start { source: (run.source + 1) as usize, symbol: 0 }
    } else if can_finish(run) {
        Step::Done(
            CollectorResult {
                total: run.pools as usize,
                successful: run.successful as usize,
                failed: run.failed as usize,
            },
        )
    } else {
        Step::Wait
    }
}

/// The state after a step.
pub open spec fn run_stepped(run: RunState) -> RunState {
    if can_start(run) {
        RunState { started: run.started + 1, in_flight: run.in_flight + 1, ..run }
    } else if can_advance(run) {
        RunState { source: run.source + 1, started: 1, in_flight: 1, ..run }
    } else if can_finish(run) {
        RunState { source: run.sources, started: 0, ..run }
    } else {
        run
    }
}

/// The state after a fetch in flight succeeded and `collected` of its
/// records were stored. The count of stored records stops at the largest
/// number that the machine holds.
pub open spec fn run_succeeded(run: RunState, collected: nat) -> RunState {
    RunState {
        in_flight: (run.in_flight - 1) as nat,
        successful: run.successful + 1,
        pools: if run.pools + collected > usize::MAX {
            usize::MAX as nat
        } else {
            run.pools + collected
        },
        ..run
    }
}

/// The state after a fetch in flight failed for good.
pub open spec fn run_failed(run: RunState) -> RunState {
    RunState { in_flight: (run.in_flight - 1) as nat, failed: run.failed + 1, ..run }
}

/// The fetches that a run has started never outnumber the pairs of a source
/// and a symbol.
pub proof fn started_fetches_are_bounded(run: RunState)
    requires
        run_is_consistent(run),
    ensures
        run.successful + run.failed + run.in_flight <= run.sources * run.symbols,
{
    if run.source < run.sources {
        assert((run.source + 1) * run.symbols <= run.sources * run.symbols) by (nonlinear_arith)
            requires
                run.source + 1 <= run.sources,
        ;
        assert((run.source + 1) * run.symbols == run.source * run.symbols + run.symbols)
            by (nonlinear_arith);
    }
}

/// The progress of one call of the collector over all sources and symbols.
pub struct CollectionRun {
    sources: usize,
    symbols: usize,
    permits: usize,
    source: usize,
    started: usize,
    in_flight: usize,
    successful: usize,
    failed: usize,
    pools: usize,
}

impl View for CollectionRun {
    type V = RunState;

    closed spec fn view(&self) -> RunState {
        RunState {
            sources: self.sources as nat,
            symbols: self.symbols as nat,
            permits: self.permits as nat,
            source: self.source as nat,
            started: self.started as nat,
            in_flight: self.in_flight as nat,
            successful: self.successful as nat,
            failed: self.failed as nat,
            pools: self.pools as nat,
        }
    }
}

impl CollectionRun {
    #[verifier::type_invariant]
    spec fn well_formed(&self) -> bool {
        run_is_consistent(self@)
    }

    /// Begins a run over `sources` sources and `symbols` symbols with a
    /// limiter of `permits` permits.
    pub fn begin(sources: usize, symbols: usize, permits: usize) -> (run: Self)
        requires
            permits >= 1,
            sources * symbols <= usize::MAX,
        ensures
            run@ == run_begun(sources as nat, symbols as nat, permits as nat),
            run_is_consistent(run@),
    {
        CollectionRun {
            sources,
            symbols,
            permits,
            source: if symbols == 0 {
                sources
            } else {
                0
            },
            started: 0,
            in_flight: 0,
            successful: 0,
            failed: 0,
            pools: 0,
        }
    }

    /// The number of fetches in flight, which never exceeds the permits.
    pub fn in_flight(&self) -> (count: usize)
        ensures
            count == self@.in_flight,
            run_is_consistent(self@),
    {
        proof {
            use_type_invariant(self);
        }
        self.in_flight
    }

    /// What the run has counted so far.
    pub fn result(&self) -> (result: CollectorResult)
        ensures
            result.total == self@.pools,
            result.successful == self@.successful,
            result.failed == self@.failed,
            run_is_finished(self@) ==> result.successful + result.failed == self@.sources
                * self@.symbols,
    {
        proof {
            use_type_invariant(self);
        }
        CollectorResult { total: self.pools, successful: self.successful, failed: self.failed }
    }

    /// Decides what happens next: a fetch starts if the current source has a
    /// symbol left and the limiter a permit; the next source begins when the
    /// current one has settled; the run is done after the last source; in
    /// every other state the executor has to wait for a fetch to settle.
    pub fn next_step(&mut self) -> (step: Step)
        ensures
            step == run_step(old(self)@),
            final(self)@ == run_stepped(old(self)@),
            run_is_consistent(final(self)@),
            step is Done ==> run_is_finished(final(self)@),
    {
        proof {
            use_type_invariant(&*self);
        }
        if self.source < self.sources && self.started < self.symbols && self.in_flight
            < self.permits {
            let step = Step::Start { source: self.source, symbol: self.started };
            *self = CollectionRun {
                started: self.started + 1,
                in_flight: self.in_flight + 1,
                ..*self
            };
            step
        } else if self.source < self.sources && self.source + 1 < self.sources && self.started
            == self.symbols && self.in_flight == 0 {
            assert((self.source + 1) * self.symbols == self.source * self.symbols + self.symbols)
                by (nonlinear_arith);
            assert((self.source + 1) * self.symbols < self.sources * self.symbols) by (nonlinear_arith)
                requires
                    self.source + 1 < self.sources,
                    self.symbols > 0,
            ;
            let step = Step::Start { source: self.source + 1, symbol: 0 };
            *self = CollectionRun { source: self.source + 1, started: 1, in_flight: 1, ..*self };
            step
        } else if (self.source >= self.sources || (self.source + 1 >= self.sources && self.started
            == self.symbols)) && self.in_flight == 0 {
            assert(self.source < self.sources ==> (self.source + 1) * self.symbols == self.source
                * self.symbols + self.symbols) by (nonlinear_arith);
            let step = Step::Done(
                CollectorResult {
                    total: self.pools,
                    successful: self.successful,
                    failed: self.failed,
                },
            );
            *self = CollectionRun { source: self.sources, started: 0, ..*self };
            step
        } else {
            Step::Wait
        }
    }

    /// Settles a fetch in flight as succeeded, with `collected` records
    /// stored. Answers `false`, and changes nothing, when no fetch is in flight.
    pub fn complete_success(&mut self, collected: usize) -> (settled: bool)
        ensures
            settled == (old(self)@.in_flight > 0),
            settled ==> final(self)@ == run_succeeded(old(self)@, collected as nat),
            !settled ==> final(self)@ == old(self)@,
            run_is_consistent(final(self)@),
    {
        proof {
            use_type_invariant(&*self);
        }
        if self.in_flight == 0 {
            return false;
        }
        proof {
            started_fetches_are_bounded(self@);
        }
        *self = CollectionRun {
            in_flight: self.in_flight - 1,
            successful: self.successful + 1,
            pools: self.pools.saturating_add(collected),
            ..*self
        };
        true
    }

    /// Settles a fetch in flight as failed for good. Answers `false`, and
    /// changes nothing, when no fetch is in flight.
    pub fn complete_failure(&mut self) -> (settled: bool)
        ensures
            settled == (old(self)@.in_flight > 0),
            settled ==> final(self)@ == run_failed(old(self)@),
            !settled ==> final(self)@ == old(self)@,
            run_is_consistent(final(self)@),
    {
        proof {
            use_type_invariant(&*self);
        }
        if self.in_flight == 0 {
            return false;
        }
        proof {
            started_fetches_are_bounded(self@);
        }
        *self = CollectionRun { in_flight: self.in_flight - 1, failed: self.failed + 1, ..*self };
        true
    }
}

/// Counters over the life of a collector. They only grow, and stop at the
/// largest number that the machine holds.
#[derive(Debug, Clone, Copy, PartialEq, Eq, Structural)]
pub struct CollectorStats {
    pub total_requests: usize,
    pub successful: usize,
    pub failed: usize,
    pub pools_collected: usize,
}

impl Default for CollectorStats {
    fn default() -> (stats: Self)
        ensures
            stats == (CollectorStats {
                total_requests: 0,
                successful: 0,
                failed: 0,
                pools_collected: 0,
            }),
    {
        CollectorStats { total_requests: 0, successful: 0, failed: 0, pools_collected: 0 }
    }
}

/// How one attempt to fetch ended.
#[derive(Debug)]
pub enum FetchOutcome {
    /// The provider answered with these records; the list may be empty.
    Fetched(Vec<PoolData>),
    /// The provider reported an error.
    Failed(SourceError),
    /// The attempt took longer than [`FETCH_TIMEOUT_SECS`].
    TimedOut,
}

/// What the engine does about an attempt that has ended.
#[derive(Debug, Clone, Copy, PartialEq, Eq, Structural)]
pub enum Attempt {
    /// The fetch has settled, as succeeded or as failed for good.
    Settled,
    /// The fetch keeps its permit and is tried again after the pause.
    Retry { delay_ms: u64 },
    /// No fetch was in flight: the outcome was dropped.
    Ignored,
}

/// `count` plus `more`, stopping at the largest number that the machine holds.
pub open spec fn counted(count: usize, more: nat) -> usize {
    if count + more > usize::MAX {
        usize::MAX
    } else {
        (count + more) as usize
    }
}

/// Whether an attempt that failed is followed by another, `attempts_made`
/// attempts having been made so far.
pub open spec fn retry_allowed(attempts_made: nat) -> bool {
    attempts_made < 3
}

/// How many of the first `upto` records of a batch the filter accepts.
pub open spec fn count_accepted(filter: PoolFilter, batch: Seq<PoolRecord>, upto: int) -> nat
    decreases upto,
{
    if upto <= 0 {
        0
    } else if filter.accepts(batch[upto - 1]) {
        count_accepted(filter, batch, upto - 1) + 1
    } else {
        count_accepted(filter, batch, upto - 1)
    }
}

/// The cache after the accepted ones of the first `upto` records of a batch
/// were stored in order, each under its composite key, at time `now`.
pub open spec fn stored_batch(
    cache: CacheState,
    filter: PoolFilter,
    batch: Seq<PoolRecord>,
    now: int,
    upto: int,
) -> CacheState
    decreases upto,
{
    if upto <= 0 {
        cache
    } else {
        let before = stored_batch(cache, filter, batch, now, upto - 1);
        let pool = batch[upto - 1];
        if filter.accepts(pool) {
            stored_at(before, composite_key(pool.source, pool.chain, pool.pool_address), pool, now)
        } else {
            before
        }
    }
}

/// The values of a batch of records.
pub open spec fn batch_records(batch: Seq<PoolData>) -> Seq<PoolRecord> {
    batch.map_values(|pool: PoolData| pool@)
}

/// The mathematical value of a [`PoolCollector`].
pub struct CollectorState {
    pub cache: CacheState,
    pub filter: PoolFilter,
    pub permits: nat,
    pub stats: CollectorStats,
}

/// The collector after a batch was fetched at time `now`.
pub open spec fn batch_collected(
    collector: CollectorState,
    batch: Seq<PoolRecord>,
    now: int,
) -> CollectorState {
    CollectorState {
        cache: stored_batch(collector.cache, collector.filter, batch, now, batch.len() as int),
        stats: CollectorStats {
            total_requests: counted(collector.stats.total_requests, 1),
            successful: counted(collector.stats.successful, 1),
            failed: collector.stats.failed,
            pools_collected: counted(
                collector.stats.pools_collected,
                count_accepted(collector.filter, batch, batch.len() as int),
            ),
        },
        ..collector
    }
}

/// The collector after an attempt failed and is tried again.
pub open spec fn attempt_retried(collector: CollectorState) -> CollectorState {
    CollectorState {
        stats: CollectorStats {
            total_requests: counted(collector.stats.total_requests, 1),
            ..collector.stats
        },
        ..collector
    }
}

/// The collector after the last attempt of a fetch failed.
pub open spec fn fetch_abandoned(collector: CollectorState) -> CollectorState {
    CollectorState {
        stats: CollectorStats {
            total_requests: counted(collector.stats.total_requests, 1),
            failed: counted(collector.stats.failed, 1),
            ..collector.stats
        },
        ..collector
    }
}

/// Gathers pool records into the cache and counts what happened.
pub struct PoolCollector {
    cache: PoolCache,
    filter: PoolFilter,
    permits: usize,
    stats: CollectorStats,
}

impl View for PoolCollector {
    type V = CollectorState;

    closed spec fn view(&self) -> CollectorState {
        CollectorState {
            cache: self.cache@,
            filter: self.filter,
            permits: self.permits as nat,
            stats: self.stats,
        }
    }
}

impl PoolCollector {
    /// A collector over `cache` that keeps what `filter` accepts, with a
    /// limiter of [`DEFAULT_PERMITS`] permits and all counters at zero.
    pub fn new(cache: PoolCache, filter: PoolFilter) -> (collector: Self)
        ensures
            collector@ == (CollectorState {
                cache: cache@,
                filter,
                permits: 10,
                stats: CollectorStats {
                    total_requests: 0,
                    successful: 0,
                    failed: 0,
                    pools_collected: 0,
                },
            }),
    {
        PoolCollector {
            cache,
            filter,
            permits: DEFAULT_PERMITS,
            stats: CollectorStats { total_requests: 0, successful: 0, failed: 0, pools_collected: 0 },
        }
    }

    /// Replaces the number of permits of the limiter.
    pub fn set_permits(&mut self, permits: usize)
        ensures
            final(self)@ == (CollectorState { permits: permits as nat, ..old(self)@ }),
    {
        self.permits = permits;
    }

    /// The number of permits of the limiter.
    pub fn permits(&self) -> (permits: usize)
        ensures
            permits == self@.permits,
    {
        self.permits
    }

    /// The counters.
    pub fn get_stats(&self) -> (stats: CollectorStats)
        ensures
            stats == self@.stats,
    {
        self.stats
    }

    /// The cache that the collector fills.
    pub fn cache(&self) -> (cache: &PoolCache)
        ensures
            cache@ == self@.cache,
    {
        &self.cache
    }

    /// Handles to the cached records that are live at time `now`.
    pub fn get_cached_pools_at(&self, now: i64) -> (pools: Vec<Arc<PoolData>>)
        ensures
            pool_records(pools@) == live_pools(self@.cache, now as int),
    {
        self.cache.get_all_at(now)
    }

    /// Handles to the cached records that are live now.
    pub fn get_cached_pools(&self) -> (pools: Vec<Arc<PoolData>>)
        ensures
            exists|now: int| pool_records(pools@) == #[trigger] live_pools(self@.cache, now),
    {
        let pools = self.cache.get_all();
        proof {
            let now = choose|now: int|
                pool_records(pools@) == #[trigger] live_pools(self.cache@, now);
            assert(pool_records(pools@) == live_pools(self@.cache, now));
        }
        pools
    }

    /// Asks the cache for a cleanup at time `now`; returns how many entries
    /// were removed.
    pub fn cleanup_cache_at(&mut self, now: i64) -> (removed: usize)
        ensures
            final(self)@ == (CollectorState {
                cache: cleaned_at(old(self)@.cache, now as int),
                ..old(self)@
            }),
            removed == old(self)@.cache.entries.len() - final(self)@.cache.entries.len(),
    {
        self.cache.cleanup_at(now)
    }

    /// Begins a run over `sources` sources and `symbols` symbols with the
    /// collector's permits. There is no run for a limiter without permits,
    /// nor where the machine cannot count the pairs of a source and a symbol.
    pub fn begin_run(&self, sources: usize, symbols: usize) -> (run: Option<CollectionRun>)
        ensures
            run is Some <==> self@.permits >= 1 && sources * symbols <= usize::MAX,
            run matches Some(begun) ==> begun@ == run_begun(
                sources as nat,
                symbols as nat,
                self@.permits,
            ) && run_is_consistent(begun@),
    {
        if self.permits == 0 {
            return None;
        }
        match sources.checked_mul(symbols) {
            Some(_) => Some(CollectionRun::begin(sources, symbols, self.permits)),
            None => None,
        }
    }

    /// Stores the records of a batch that the filter accepts, in order, each
    /// under its composite key, as inserted at time `now`; returns how many
    /// were stored.
    pub fn store_at(&mut self, batch: &[PoolData], now: i64) -> (stored: usize)
        ensures
            final(self)@ == (CollectorState {
                cache: stored_batch(
                    old(self)@.cache,
                    old(self)@.filter,
                    batch_records(batch@),
                    now as int,
                    batch@.len() as int,
                ),
                ..old(self)@
            }),
            stored == count_accepted(
                old(self)@.filter,
                batch_records(batch@),
                batch@.len() as int,
            ),
            final(self)@.cache.ttl == old(self)@.cache.ttl,
            final(self)@.cache.last_cleanup == old(self)@.cache.last_cleanup,
            keys_are_unique(final(self)@.cache.entries),
            old(self)@.cache.entries.len() <= final(self)@.cache.entries.len()
                <= old(self)@.cache.entries.len() + stored,
            final(self)@.cache.entries.len() <= usize::MAX,
    {
        let ghost records = batch_records(batch@);
        let ghost start = self.cache@;
        let held: usize = self.cache.len();
        assert(held == start.entries.len());
        proof {
            stored_batch_keeps_cache_sound(
                start,
                self.filter,
                records,
                now as int,
                batch@.len() as int,
            );
        }
        let mut stored: usize = 0;
        let mut i: usize = 0;
        while i < batch.len()
            invariant
                0 <= i <= batch@.len(),
                records == batch_records(batch@),
                self.filter == old(self).filter,
                self.permits == old(self).permits,
                self.stats == old(self).stats,
                stored == count_accepted(self.filter, records, i as int),
                stored <= i,
                self.cache@ == stored_batch(start, self.filter, records, now as int, i as int),
                self.cache@.entries.len() <= usize::MAX,
                self.cache@.ttl == start.ttl,
                self.cache@.last_cleanup == start.last_cleanup,
            decreases batch@.len() - i,
        {
            let pool = &batch[i];
            if self.filter.is_valid(pool) {
                let key = cache_key(pool);
                self.cache.insert_at(key, pool.clone(), now);
                stored += 1;
            }
            i += 1;
        }
        stored
    }

    /// Answers the end of one attempt of a fetch of `run`, `attempts_made`
    /// attempts having been made, this one included.
    ///
    /// Records that were fetched are filtered and stored, and the fetch
    /// settles as succeeded. An attempt that failed or ran out of time is
    /// tried again after [`RETRY_DELAY_MS`] until [`MAX_RETRIES`] attempts
    /// were made; then the fetch settles as failed. Every attempt counts as
    /// a request. Without a fetch in flight nothing changes.
    pub fn on_attempt(
        &mut self,
        run: &mut CollectionRun,
        attempts_made: u32,
        outcome: FetchOutcome,
        now: i64,
    ) -> (answer: Attempt)
        ensures
            old(run)@.in_flight == 0 ==> answer == Attempt::Ignored && final(self)@ == old(self)@
                && final(run)@ == old(run)@,
            old(run)@.in_flight > 0 ==> match outcome {
                FetchOutcome::Fetched(batch) => {
                    &&& answer == Attempt::Settled
                    &&& final(self)@ == batch_collected(
                        old(self)@,
                        batch_records(batch@),
                        now as int,
                    )
                    &&& final(run)@ == run_succeeded(
                        old(run)@,
                        count_accepted(
                            old(self)@.filter,
                            batch_records(batch@),
                            batch@.len() as int,
                        ),
                    )
                },
                _ => if retry_allowed(attempts_made as nat) {
                    &&& answer == (Attempt::Retry { delay_ms: 500 })
                    &&& final(self)@ == attempt_retried(old(self)@)
                    &&& final(run)@ == old(run)@
                } else {
                    &&& answer == Attempt::Settled
                    &&& final(self)@ == fetch_abandoned(old(self)@)
                    &&& final(run)@ == run_failed(old(run)@)
                },
            },
            run_is_consistent(final(run)@),
            final(self)@.cache.ttl == old(self)@.cache.ttl,
            final(self)@.cache.last_cleanup == old(self)@.cache.last_cleanup,
            old(self)@.cache.entries.len() <= final(self)@.cache.entries.len(),
            final(self)@.cache.entries.len() - old(self)@.cache.entries.len() <= final(run)@.pools
                - old(run)@.pools || (final(run)@.pools == usize::MAX
                && final(self)@.cache.entries.len() <= usize::MAX),
    {
        if run.in_flight() == 0 {
            return Attempt::Ignored;
        }
        self.stats.total_requests = self.stats.total_requests.saturating_add(1);
        match outcome {
            FetchOutcome::Fetched(batch) => {
                let stored = self.store_at(batch.as_slice(), now);
                self.stats.successful = self.stats.successful.saturating_add(1);
                self.stats.pools_collected = self.stats.pools_collected.saturating_add(stored);
                run.complete_success(stored);
                Attempt::Settled
            },
            _ => {
                if attempts_made < MAX_RETRIES {
                    Attempt::Retry { delay_ms: RETRY_DELAY_MS }
                } else {
                    self.stats.failed = self.stats.failed.saturating_add(1);
                    run.complete_failure();
                    Attempt::Settled
                }
            },
        }
    }

    /// Fetches every symbol from every source, one fetch at a time, source by
    /// source, and stores what the filter accepts.
    ///
    /// A fetch that fails is tried again, after `pause` was called with the
    /// delay in milliseconds, until [`MAX_RETRIES`] attempts were made. No
    /// failure ends the run: a fetch that fails for good is counted and the
    /// run goes on. The two counts of the result add up to the number of
    /// pairs of a source and a symbol, and the collector's counters grow by
    /// what the result reports.
    pub fn collect_all<F: Fn(u64)>(
        &mut self,
        sources: &[Arc<dyn PoolSource>],
        symbols: &[String],
        pause: &F,
    ) -> (result: CollectorResult)
        requires
            sources@.len() * symbols@.len() <= usize::MAX,
            forall|delay_ms: u64| pause.requires((delay_ms,)),
        ensures
            result.successful + result.failed == sources@.len() * symbols@.len(),
            final(self)@.stats.successful == counted(
                old(self)@.stats.successful,
                result.successful as nat,
            ),
            final(self)@.stats.failed == counted(old(self)@.stats.failed, result.failed as nat),
            final(self)@.stats.pools_collected == counted(
                old(self)@.stats.pools_collected,
                result.total as nat,
            ),
            exists|attempts: nat|
                result.successful + result.failed <= attempts <= 3 * (result.successful
                    + result.failed) && final(self)@.stats.total_requests == #[trigger] counted(
                    old(self)@.stats.total_requests,
                    attempts,
                ),
            final(self)@.filter == old(self)@.filter,
            final(self)@.permits == old(self)@.permits,
            final(self)@.cache.ttl == old(self)@.cache.ttl,
            final(self)@.cache.last_cleanup == old(self)@.cache.last_cleanup,
            old(self)@.cache.entries.len() <= final(self)@.cache.entries.len()
                <= old(self)@.cache.entries.len() + result.total,
    {
        let mut run = CollectionRun::begin(sources.len(), symbols.len(), 1);
        let ghost mut attempts_total: nat = 0;
        loop
            invariant
                run_is_consistent(run@),
                run@.in_flight == 0,
                run@.sources == sources@.len(),
                run@.symbols == symbols@.len(),
                run@.permits == 1,
                forall|delay_ms: u64| pause.requires((delay_ms,)),
                self@.stats.successful == counted(old(self)@.stats.successful, run@.successful),
                self@.stats.failed == counted(old(self)@.stats.failed, run@.failed),
                self@.stats.pools_collected == counted(old(self)@.stats.pools_collected, run@.pools),
                run@.successful + run@.failed <= attempts_total <= 3 * (run@.successful
                    + run@.failed),
                self@.stats.total_requests == counted(
                    old(self)@.stats.total_requests,
                    attempts_total,
                ),
                self@.filter == old(self)@.filter,
                self@.permits == old(self)@.permits,
                self@.cache.ttl == old(self)@.cache.ttl,
                self@.cache.last_cleanup == old(self)@.cache.last_cleanup,
                old(self)@.cache.entries.len() <= self@.cache.entries.len() <= old(
                    self,
                )@.cache.entries.len() + run@.pools,
            decreases
                    run@.sources * run@.symbols - (run@.successful + run@.failed),
                    if run_is_finished(run@) {
                        0nat
                    } else {
                        1nat
                    },
        {
            proof {
                started_fetches_are_bounded(run@);
            }
            let ghost before = run@;
            match run.next_step() {
                Step::Start { source, symbol } => {
                    proof {
                        started_fetches_are_bounded(run@);
                    }
                    let mut attempts: u32 = 0;
                    let mut settled = false;
                    while !settled
                        invariant
                            run_is_consistent(run@),
                            run@.sources == sources@.len(),
                            run@.symbols == symbols@.len(),
                            run@.permits == 1,
                            source < sources@.len(),
                            symbol < symbols@.len(),
                            0 <= attempts <= 3,
                            !settled ==> attempts < 3,
                            !settled ==> run@ == run_stepped(before),
                            settled ==> attempts >= 1,
                            settled ==> run@.in_flight == 0 && run@.successful + run@.failed
                                == before.successful + before.failed + 1,
                            run@.in_flight <= 1,
                            !settled ==> run@.in_flight == 1,
                            forall|delay_ms: u64| pause.requires((delay_ms,)),
                            self@.stats.successful == counted(
                                old(self)@.stats.successful,
                                run@.successful,
                            ),
                            self@.stats.failed == counted(old(self)@.stats.failed, run@.failed),
                            self@.stats.pools_collected == counted(
                                old(self)@.stats.pools_collected,
                                run@.pools,
                            ),
                            before.successful + before.failed <= attempts_total - attempts,
                            attempts_total - attempts <= 3 * (before.successful + before.failed),
                            self@.stats.total_requests == counted(
                                old(self)@.stats.total_requests,
                                attempts_total,
                            ),
                            self@.filter == old(self)@.filter,
                            self@.permits == old(self)@.permits,
                            self@.cache.ttl == old(self)@.cache.ttl,
                            self@.cache.last_cleanup == old(self)@.cache.last_cleanup,
                            old(self)@.cache.entries.len() <= self@.cache.entries.len() <= old(
                                self,
                            )@.cache.entries.len() + run@.pools,
                        decreases
                                3 - attempts,
                                if settled {
                                    0nat
                                } else {
                                    1nat
                                },
                    {
                        attempts += 1;
                        proof {
                            attempts_total = attempts_total + 1;
                        }
                        let now: i64 = unix_now();
                        let outcome = match sources[source].fetch_pools(symbols[symbol].as_str()) {
                            Ok(batch) => FetchOutcome::Fetched(batch),
                            Err(error) => FetchOutcome::Failed(error),
                        };
                        match self.on_attempt(&mut run, attempts, outcome, now) {
                            Attempt::Retry { delay_ms } => {
                                pause(delay_ms);
                            },
                            _ => {
                                settled = true;
                            },
                        }
                    }
                },
                Step::Wait => {},
                Step::Done(result) => {
                    return result;
                },
            }
        }
    }
}

} // verus!
