//! The cache of the latest record of each pool.
//!
//! Entries are kept in the order in which their keys first arrived, and an
//! index finds the entry of a key without a scan. An entry is live while its
//! age is below the time to live; reads that enumerate the cache skip the
//! others, and a cleanup that runs at most once a minute removes them.

use std::sync::Arc;
use vstd::prelude::*;
use vstd::hash_map::StringHashMap;
use crate::clock::unix_now;
use crate::handles::share;
use crate::models::pool::PoolData;
use crate::models::pool::PoolRecord;
use crate::services::cache_laws::key_index_finds;
use crate::services::cache_laws::key_index_is_position;
use crate::services::cache_laws::live_entries_are_entries;
use crate::services::cache_laws::upsert_keeps_keys_unique;
use crate::services::detector::pool_records;

verus! {

/// The least number of seconds between two cleanups.
pub const CLEANUP_INTERVAL_SECS: i64 = 60;

/// The mathematical value of a cache entry.
pub struct CachedRecord {
    pub key: Seq<char>,
    pub pool: PoolRecord,
    pub inserted_at: int,
}

/// The mathematical value of a [`PoolCache`].
pub struct CacheState {
    pub entries: Seq<CachedRecord>,
    pub ttl: nat,
    pub last_cleanup: int,
}

/// Whether an entry is younger than `ttl` seconds at time `now`.
pub open spec fn is_live(entry: CachedRecord, ttl: nat, now: int) -> bool {
    now - entry.inserted_at < ttl
}

/// Whether no key occurs twice.
pub open spec fn keys_are_unique(entries: Seq<CachedRecord>) -> bool {
    forall|i: int, j: int|
        0 <= i < j < entries.len() ==> (#[trigger] entries[i]).key != (#[trigger] entries[j]).key
}

/// The position of the last of the first `upto` entries stored under `key`;
/// `-1` where there is none.
pub open spec fn key_index(entries: Seq<CachedRecord>, key: Seq<char>, upto: int) -> int
    decreases upto,
{
    if upto <= 0 {
        -1
    } else if entries[upto - 1].key == key {
        upto - 1
    } else {
        key_index(entries, key, upto - 1)
    }
}

/// The entries after `entry` was stored: it replaces the entry of the same
/// key where there is one, and is appended otherwise.
pub open spec fn upsert(entries: Seq<CachedRecord>, entry: CachedRecord) -> Seq<CachedRecord> {
    let at = key_index(entries, entry.key, entries.len() as int);
    if at >= 0 {
        entries.update(at, entry)
    } else {
        entries.push(entry)
    }
}

/// The entries that are live at time `now`, in their order.
pub open spec fn live_entries(entries: Seq<CachedRecord>, ttl: nat, now: int) -> Seq<
    CachedRecord,
> {
    entries.filter(|entry: CachedRecord| is_live(entry, ttl, now))
}

/// The records of a list of entries.
pub open spec fn pools_of(entries: Seq<CachedRecord>) -> Seq<PoolRecord> {
    entries.map_values(|entry: CachedRecord| entry.pool)
}

/// Whether a cleanup runs at time `now`, the previous one having run at `last`.
pub open spec fn cleanup_is_due(last: int, now: int) -> bool {
    now - last >= 60
}

/// The cache after `pool` was stored under `key` at time `now`.
pub open spec fn stored_at(cache: CacheState, key: Seq<char>, pool: PoolRecord, now: int) -> CacheState {
    CacheState {
        entries: upsert(cache.entries, CachedRecord { key, pool, inserted_at: now }),
        ..cache
    }
}

/// The records of a cache that are live at time `now`, in the order in which
/// their keys first arrived.
pub open spec fn live_pools(cache: CacheState, now: int) -> Seq<PoolRecord> {
    pools_of(live_entries(cache.entries, cache.ttl, now))
}

/// The cache after a cleanup was asked for at time `now`: without its expired
/// entries if the cleanup is due, unchanged if it is not.
pub open spec fn cleaned_at(cache: CacheState, now: int) -> CacheState {
    if cleanup_is_due(cache.last_cleanup, now) {
        CacheState {
            entries: live_entries(cache.entries, cache.ttl, now),
            ttl: cache.ttl,
            last_cleanup: now,
        }
    } else {
        cache
    }
}

/// The key under which a record is cached: its provider, its chain and its
/// pool address, joined by colons.
pub open spec fn composite_key(source: Seq<char>, chain: Seq<char>, pool_address: Seq<char>) -> Seq<
    char,
> {
    source + seq![':'] + chain + seq![':'] + pool_address
}

/// Builds the key under which a record is cached.
pub fn cache_key(pool: &PoolData) -> (key: String)
    ensures
        key@ == composite_key(pool@.source, pool@.chain, pool@.pool_address),
{
    let mut key = pool.source.clone();
    proof {
        reveal_strlit(":");
    }
    key.append(":");
    key.append(pool.chain.as_str());
    key.append(":");
    key.append(pool.pool_address.as_str());
    key
}

struct CachedEntry {
    key: String,
    pool: Arc<PoolData>,
    inserted_at: i64,
}

impl View for CachedEntry {
    type V = CachedRecord;

    closed spec fn view(&self) -> CachedRecord {
        CachedRecord { key: self.key@, pool: self.pool@, inserted_at: self.inserted_at as int }
    }
}

spec fn entry_records(entries: Seq<CachedEntry>) -> Seq<CachedRecord> {
    entries.map_values(|entry: CachedEntry| entry@)
}

/// Whether an index maps the key of every entry to the entry's position,
/// and nothing else to anything.
spec fn is_indexed(records: Seq<CachedRecord>, index: Map<Seq<char>, usize>) -> bool {
    &&& forall|i: int|
        0 <= i < records.len() ==> index.contains_key((#[trigger] records[i]).key)
            && index[records[i].key] == i
    &&& forall|key: Seq<char>| #[trigger]
        index.contains_key(key) ==> index[key] < records.len() && records[index[key] as int].key
            == key
}

proof fn indexed_keys_are_unique(records: Seq<CachedRecord>, index: Map<Seq<char>, usize>)
    requires
        is_indexed(records, index),
    ensures
        keys_are_unique(records),
{
}

/// The latest known record of each pool, by composite key.
pub struct PoolCache {
    entries: Vec<CachedEntry>,
    index: StringHashMap<usize>,
    ttl: u64,
    last_cleanup: i64,
}

impl View for PoolCache {
    type V = CacheState;

    closed spec fn view(&self) -> CacheState {
        CacheState {
            entries: entry_records(self.entries@),
            ttl: self.ttl as nat,
            last_cleanup: self.last_cleanup as int,
        }
    }
}

impl PoolCache {
    #[verifier::type_invariant]
    spec fn well_formed(&self) -> bool {
        is_indexed(entry_records(self.entries@), self.index@)
    }

    /// An empty cache whose entries live `ttl_seconds`, created at time `now`.
    pub fn new_at(ttl_seconds: u64, now: i64) -> (cache: Self)
        ensures
            cache@ == (CacheState {
                entries: Seq::empty(),
                ttl: ttl_seconds as nat,
                last_cleanup: now as int,
            }),
    {
        let entries: Vec<CachedEntry> = Vec::new();
        assert(entry_records(entries@) =~= Seq::empty());
        PoolCache { entries, index: StringHashMap::new(), ttl: ttl_seconds, last_cleanup: now }
    }

    /// An empty cache whose entries live `ttl_seconds`, created now.
    pub fn new(ttl_seconds: u64) -> (cache: Self)
        ensures
            cache@.entries == Seq::<CachedRecord>::empty(),
            cache@.ttl == ttl_seconds,
    {
        let now: i64 = unix_now();
        Self::new_at(ttl_seconds, now)
    }

    /// The number of seconds that an entry lives.
    pub fn ttl(&self) -> (ttl: u64)
        ensures
            ttl == self@.ttl,
    {
        self.ttl
    }

    /// The number of entries stored, expired ones included. No key occurs
    /// twice among them.
    pub fn len(&self) -> (count: usize)
        ensures
            count == self@.entries.len(),
            keys_are_unique(self@.entries),
    {
        proof {
            use_type_invariant(self);
            indexed_keys_are_unique(entry_records(self.entries@), self.index@);
        }
        self.entries.len()
    }

    fn find(&self, key: &str) -> (at: Option<usize>)
        ensures
            match at {
                Some(i) => i == key_index(self@.entries, key@, self@.entries.len() as int),
                None => key_index(self@.entries, key@, self@.entries.len() as int) == -1,
            },
            at matches Some(i) ==> i < self.entries@.len(),
    {
        let ghost records = entry_records(self.entries@);
        proof {
            use_type_invariant(self);
            indexed_keys_are_unique(records, self.index@);
            key_index_finds(records, key@, records.len() as int);
        }
        match self.index.get(key) {
            Some(at) => {
                proof {
                    key_index_is_position(records, *at as int);
                }
                Some(*at)
            },
            None => None,
        }
    }

    /// A handle to the record stored under `key`, whether or not it has expired.
    pub fn get(&self, key: &str) -> (found: Option<Arc<PoolData>>)
        ensures
            match found {
                Some(pool) => {
                    let at = key_index(self@.entries, key@, self@.entries.len() as int);
                    at >= 0 && pool@ == self@.entries[at].pool
                },
                None => key_index(self@.entries, key@, self@.entries.len() as int) == -1,
            },
    {
        match self.find(key) {
            Some(at) => {
                Some(share(&self.entries[at].pool))
            },
            None => None,
        }
    }

    /// Stores `pool` under `key` as inserted at time `now`. An entry of the
    /// same key is overwritten, whatever it held.
    pub fn insert_at(&mut self, key: String, pool: PoolData, now: i64)
        ensures
            final(self)@ == stored_at(old(self)@, key@, pool@, now as int),
            keys_are_unique(final(self)@.entries),
            final(self)@.entries.len() <= usize::MAX,
    {
        proof {
            use_type_invariant(&*self);
            indexed_keys_are_unique(entry_records(self.entries@), self.index@);
        }
        let ghost before = entry_records(self.entries@);
        let ghost record = CachedRecord { key: key@, pool: pool@, inserted_at: now as int };
        let at = self.find(key.as_str());
        proof {
            upsert_keeps_keys_unique(before, record);
            key_index_finds(before, key@, before.len() as int);
        }
        let mut taken = Self::new_at(self.ttl, self.last_cleanup);
        std::mem::swap(self, &mut taken);
        let PoolCache { entries, index, ttl, last_cleanup } = taken;
        let mut entries = entries;
        let mut index = index;
        match at {
            Some(i) => {
                let entry = CachedEntry { key, pool: Arc::new(pool), inserted_at: now };
                entries.set(i, entry);
                assert(entry_records(entries@) =~= before.update(i as int, record));
            },
            None => {
                let entry = CachedEntry { key: key.clone(), pool: Arc::new(pool), inserted_at: now };
                let position = entries.len();
                entries.push(entry);
                index.insert(key, position);
                assert(entry_records(entries@) =~= before.push(record));
            },
        }
        assert(entries.len() == entries@.len());
        *self = PoolCache { entries, index, ttl, last_cleanup };
    }

    /// Stores `pool` under `key` as inserted now.
    ///
    /// But for the time of insertion, the new state is fixed by the arguments.
    pub fn insert(&mut self, key: String, pool: PoolData)
        ensures
            exists|now: int| final(self)@ == #[trigger] stored_at(old(self)@, key@, pool@, now),
            keys_are_unique(final(self)@.entries),
    {
        let now: i64 = unix_now();
        self.insert_at(key, pool, now);
    }

    /// Handles to the records that are live at time `now`, in the order in
    /// which their keys first arrived. Expired entries are skipped, not removed.
    pub fn get_all_at(&self, now: i64) -> (pools: Vec<Arc<PoolData>>)
        ensures
            pool_records(pools@) == live_pools(self@, now as int),
    {
        let ghost records = entry_records(self.entries@);
        let ghost live = |entry: CachedRecord| is_live(entry, self.ttl as nat, now as int);
        let mut pools: Vec<Arc<PoolData>> = Vec::new();
        let mut i: usize = 0;
        assert(pool_records(pools@) =~= pools_of(records.take(0).filter(live))) by {
            reveal(Seq::filter);
        }
        while i < self.entries.len()
            invariant
                0 <= i <= self.entries@.len(),
                records == entry_records(self.entries@),
                live == |entry: CachedRecord| is_live(entry, self.ttl as nat, now as int),
                pool_records(pools@) == pools_of(records.take(i as int).filter(live)),
            decreases self.entries@.len() - i,
        {
            let entry = &self.entries[i];
            assert(records.take(i + 1) =~= records.take(i as int).push(records[i as int]));
            proof {
                records.take(i as int).lemma_filter_push(records[i as int], live);
            }
            if (now as i128) - (entry.inserted_at as i128) < (self.ttl as i128) {
                let shared = share(&entry.pool);
                pools.push(shared);
                assert(pools_of(records.take(i + 1).filter(live)) =~= pools_of(
                    records.take(i as int).filter(live),
                ).push(entry@.pool));
            }
            i += 1;
        }
        assert(records.take(i as int) =~= records);
        pools
    }

    /// Handles to the records that are live now.
    ///
    /// But for the time of the call, the result is fixed by the cache.
    pub fn get_all(&self) -> (pools: Vec<Arc<PoolData>>)
        ensures
            exists|now: int| pool_records(pools@) == #[trigger] live_pools(self@, now),
    {
        let now: i64 = unix_now();
        self.get_all_at(now)
    }

    /// Removes the entries that have expired at time `now`, unless the
    /// previous cleanup ran less than a minute before; returns how many
    /// entries were removed.
    pub fn cleanup_at(&mut self, now: i64) -> (removed: usize)
        ensures
            final(self)@ == cleaned_at(old(self)@, now as int),
            removed == old(self)@.entries.len() - final(self)@.entries.len(),
            keys_are_unique(final(self)@.entries),
            final(self)@.entries.len() <= usize::MAX,
    {
        proof {
            use_type_invariant(&*self);
            indexed_keys_are_unique(entry_records(self.entries@), self.index@);
        }
        assert(self.entries.len() == self.entries@.len());
        if (now as i128) - (self.last_cleanup as i128) < (CLEANUP_INTERVAL_SECS as i128) {
            return 0;
        }
        let ghost records = entry_records(self.entries@);
        let ghost live = |entry: CachedRecord| is_live(entry, self.ttl as nat, now as int);
        let mut kept: Vec<CachedEntry> = Vec::new();
        let mut index: StringHashMap<usize> = StringHashMap::new();
        let mut i: usize = 0;
        assert(entry_records(kept@) =~= records.take(0).filter(live)) by {
            reveal(Seq::filter);
        }
        while i < self.entries.len()
            invariant
                0 <= i <= self.entries@.len(),
                records == entry_records(self.entries@),
                keys_are_unique(records),
                live == |entry: CachedRecord| is_live(entry, self.ttl as nat, now as int),
                entry_records(kept@) == records.take(i as int).filter(live),
                is_indexed(entry_records(kept@), index@),
            decreases self.entries@.len() - i,
        {
            let entry = &self.entries[i];
            let ghost before = kept@;
            let ghost indexed = index@;
            assert(records.take(i + 1) =~= records.take(i as int).push(records[i as int]));
            proof {
                records.take(i as int).lemma_filter_push(records[i as int], live);
                live_entries_are_entries(records.take(i as int), self.ttl as nat, now as int);
            }
            if (now as i128) - (entry.inserted_at as i128) < (self.ttl as i128) {
                let copy = CachedEntry {
                    key: entry.key.clone(),
                    pool: share(&entry.pool),
                    inserted_at: entry.inserted_at,
                };
                let position = kept.len();
                kept.push(copy);
                index.insert(entry.key.clone(), position);
                proof {
                    let old_kept = entry_records(before);
                    let new_kept = entry_records(kept@);
                    assert forall|a: int| 0 <= a < new_kept.len() implies index@.contains_key(
                        (#[trigger] new_kept[a]).key,
                    ) && index@[new_kept[a].key] == a by {
                        if a < old_kept.len() {
                            assert(indexed.contains_key(old_kept[a].key));
                        }
                    }
                }
            }
            i += 1;
        }
        assert(records.take(i as int) =~= records);
        let removed = self.entries.len() - kept.len();
        proof {
            live_entries_are_entries(records, self.ttl as nat, now as int);
        }
        *self = PoolCache { entries: kept, index, ttl: self.ttl, last_cleanup: now };
        removed
    }

    /// Removes the expired entries if the previous cleanup ran at least a
    /// minute ago; returns how many entries were removed.
    ///
    /// But for the time of the call, the new state is fixed by the cache.
    pub fn cleanup_if_needed(&mut self) -> (removed: usize)
        ensures
            exists|now: int| final(self)@ == #[trigger] cleaned_at(old(self)@, now),
            removed == old(self)@.entries.len() - final(self)@.entries.len(),
            keys_are_unique(final(self)@.entries),
    {
        let now: i64 = unix_now();
        self.cleanup_at(now)
    }
}

} // verus!
