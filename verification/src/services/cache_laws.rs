//! Laws of the cache, stated over its specification.

use vstd::prelude::*;
use crate::services::cache::composite_key;
use crate::services::cache::is_live;
use crate::services::cache::key_index;
use crate::services::cache::keys_are_unique;
use crate::services::cache::live_entries;
use crate::services::cache::upsert;
use crate::services::cache::CachedRecord;

verus! {

/// A lookup finds an entry stored under the key, and finds none only where
/// no entry is stored under it.
pub proof fn key_index_finds(entries: Seq<CachedRecord>, key: Seq<char>, upto: int)
    requires
        0 <= upto <= entries.len(),
    ensures
        -1 <= key_index(entries, key, upto) < upto,
        key_index(entries, key, upto) >= 0 ==> entries[key_index(entries, key, upto)].key == key,
        key_index(entries, key, upto) == -1 ==> forall|j: int|
            0 <= j < upto ==> (#[trigger] entries[j]).key != key,
    decreases upto,
{
    if upto > 0 {
        key_index_finds(entries, key, upto - 1);
    }
}

/// Among unique keys a lookup finds the one position of the key.
pub proof fn key_index_is_position(entries: Seq<CachedRecord>, at: int)
    requires
        keys_are_unique(entries),
        0 <= at < entries.len(),
    ensures
        key_index(entries, entries[at].key, entries.len() as int) == at,
{
    key_index_finds(entries, entries[at].key, entries.len() as int);
}

/// Storing an entry keeps the keys unique, changes the number of entries by
/// at most one, and leaves the entry where a lookup of its key finds it.
pub proof fn upsert_keeps_keys_unique(entries: Seq<CachedRecord>, entry: CachedRecord)
    requires
        keys_are_unique(entries),
    ensures
        keys_are_unique(upsert(entries, entry)),
        upsert(entries, entry).len() == if key_index(entries, entry.key, entries.len() as int)
            >= 0 {
            entries.len()
        } else {
            entries.len() + 1
        },
        key_index(upsert(entries, entry), entry.key, upsert(entries, entry).len() as int) >= 0,
        upsert(entries, entry)[key_index(
            upsert(entries, entry),
            entry.key,
            upsert(entries, entry).len() as int,
        )] == entry,
{
    key_index_finds(entries, entry.key, entries.len() as int);
    let after = upsert(entries, entry);
    let at = key_index(entries, entry.key, entries.len() as int);
    let place = if at >= 0 {
        at
    } else {
        entries.len() as int
    };
    key_index_is_position(after, place);
}

/// Storing under one key twice leaves as many entries as storing once, and
/// the key then holds what was stored last.
pub proof fn upsert_twice_keeps_size(
    entries: Seq<CachedRecord>,
    first: CachedRecord,
    second: CachedRecord,
)
    requires
        keys_are_unique(entries),
        first.key == second.key,
    ensures
        upsert(upsert(entries, first), second).len() == upsert(entries, first).len(),
        keys_are_unique(upsert(upsert(entries, first), second)),
        upsert(upsert(entries, first), second)[key_index(
            upsert(upsert(entries, first), second),
            second.key,
            upsert(upsert(entries, first), second).len() as int,
        )] == second,
{
    upsert_keeps_keys_unique(entries, first);
    upsert_keeps_keys_unique(upsert(entries, first), second);
}

/// Storing under one key leaves every other key's entry as it was.
pub proof fn upsert_leaves_other_keys(
    entries: Seq<CachedRecord>,
    entry: CachedRecord,
    other: Seq<char>,
)
    requires
        other != entry.key,
    ensures
        key_index(upsert(entries, entry), other, upsert(entries, entry).len() as int) == key_index(
            entries,
            other,
            entries.len() as int,
        ),
        key_index(entries, other, entries.len() as int) >= 0 ==> upsert(entries, entry)[key_index(
            entries,
            other,
            entries.len() as int,
        )] == entries[key_index(entries, other, entries.len() as int)],
{
    key_index_finds(entries, entry.key, entries.len() as int);
    key_index_finds(entries, other, entries.len() as int);
    let after = upsert(entries, entry);
    same_keys_same_index(entries, after, other, entries.len() as int);
}

proof fn same_keys_same_index(
    before: Seq<CachedRecord>,
    after: Seq<CachedRecord>,
    key: Seq<char>,
    upto: int,
)
    requires
        0 <= upto <= before.len() <= after.len(),
        forall|j: int| 0 <= j < before.len() ==> (#[trigger] before[j].key == key) == (after[j].key == key),
        forall|j: int| before.len() <= j < after.len() ==> (#[trigger] after[j]).key != key,
    ensures
        key_index(before, key, upto) == key_index(after, key, upto),
        upto == before.len() ==> key_index(before, key, upto) == key_index(
            after,
            key,
            after.len() as int,
        ),
    decreases upto,
{
    if upto > 0 {
        same_keys_same_index(before, after, key, upto - 1);
    }
    if upto == before.len() && before.len() < after.len() {
        tail_without_key(after, key, before.len() as int, after.len() as int);
    }
}

proof fn tail_without_key(entries: Seq<CachedRecord>, key: Seq<char>, from: int, upto: int)
    requires
        0 <= from <= upto <= entries.len(),
        forall|j: int| from <= j < upto ==> (#[trigger] entries[j]).key != key,
    ensures
        key_index(entries, key, upto) == key_index(entries, key, from),
    decreases upto - from,
{
    if from < upto {
        tail_without_key(entries, key, from, upto - 1);
    }
}

/// The live entries of a cache are entries of the cache, each live, and
/// their keys are unique where the cache's are.
pub proof fn live_entries_are_entries(entries: Seq<CachedRecord>, ttl: nat, now: int)
    ensures
        live_entries(entries, ttl, now).len() <= entries.len(),
        forall|i: int|
            0 <= i < live_entries(entries, ttl, now).len() ==> is_live(
                #[trigger] live_entries(entries, ttl, now)[i],
                ttl,
                now,
            ) && entries.contains(live_entries(entries, ttl, now)[i]),
        keys_are_unique(entries) ==> keys_are_unique(live_entries(entries, ttl, now)),
    decreases entries.len(),
{
    reveal(Seq::filter);
    if entries.len() > 0 {
        let rest = entries.drop_last();
        live_entries_are_entries(rest, ttl, now);
        if keys_are_unique(entries) {
            assert(keys_are_unique(rest));
        }
    }
}

/// Every live entry of a cache is among its live entries.
pub proof fn live_entry_is_listed(entries: Seq<CachedRecord>, ttl: nat, now: int, at: int)
    requires
        0 <= at < entries.len(),
        is_live(entries[at], ttl, now),
    ensures
        live_entries(entries, ttl, now).contains(entries[at]),
{
    entries.lemma_filter_contains(|entry: CachedRecord| is_live(entry, ttl, now), at);
}

/// An entry stored at time `entry.inserted_at` is listed among the live
/// entries at every time before its age reaches the time to live, and from
/// then on no live entry has its key.
pub proof fn stored_entry_lives_for_ttl(
    entries: Seq<CachedRecord>,
    entry: CachedRecord,
    ttl: nat,
    now: int,
)
    requires
        keys_are_unique(entries),
    ensures
        now < entry.inserted_at + ttl ==> live_entries(upsert(entries, entry), ttl, now).contains(
            entry,
        ),
        now >= entry.inserted_at + ttl ==> forall|i: int|
            0 <= i < live_entries(upsert(entries, entry), ttl, now).len() ==> (
            #[trigger] live_entries(upsert(entries, entry), ttl, now)[i]).key != entry.key,
{
    let after = upsert(entries, entry);
    upsert_keeps_keys_unique(entries, entry);
    let at = key_index(after, entry.key, after.len() as int);
    key_index_finds(after, entry.key, after.len() as int);
    if now < entry.inserted_at + ttl {
        live_entry_is_listed(after, ttl, now, at);
    } else {
        live_entries_are_entries(after, ttl, now);
        let live = live_entries(after, ttl, now);
        assert forall|i: int| 0 <= i < live.len() implies (#[trigger] live[i]).key
            != entry.key by {
            let m = choose|m: int| 0 <= m < after.len() && after[m] == live[i];
            if live[i].key == entry.key {
                key_index_is_position(after, m);
            }
        }
    }
}

/// Entries stored under two different keys do not disturb each other: after
/// both were stored, each key holds its own entry, at its own position.
pub proof fn distinct_keys_hold_distinct_entries(
    entries: Seq<CachedRecord>,
    first: CachedRecord,
    second: CachedRecord,
)
    requires
        keys_are_unique(entries),
        first.key != second.key,
    ensures
        ({
            let after = upsert(upsert(entries, first), second);
            let at_first = key_index(after, first.key, after.len() as int);
            let at_second = key_index(after, second.key, after.len() as int);
            &&& 0 <= at_first < after.len()
            &&& 0 <= at_second < after.len()
            &&& at_first != at_second
            &&& after[at_first] == first
            &&& after[at_second] == second
        }),
{
    let once = upsert(entries, first);
    let after = upsert(once, second);
    upsert_keeps_keys_unique(entries, first);
    upsert_keeps_keys_unique(once, second);
    upsert_leaves_other_keys(once, second, first.key);
    key_index_finds(once, first.key, once.len() as int);
    key_index_finds(after, second.key, after.len() as int);
}

/// Two records of one pool address have different keys unless their
/// providers and chains, joined by a colon, read the same.
pub proof fn keys_differ_where_prefixes_differ(
    source: Seq<char>,
    chain: Seq<char>,
    other_source: Seq<char>,
    other_chain: Seq<char>,
    pool_address: Seq<char>,
)
    requires
        source + seq![':'] + chain != other_source + seq![':'] + other_chain,
    ensures
        composite_key(source, chain, pool_address) != composite_key(
            other_source,
            other_chain,
            pool_address,
        ),
{
    let prefix = source + seq![':'] + chain;
    let other_prefix = other_source + seq![':'] + other_chain;
    let key = composite_key(source, chain, pool_address);
    let other_key = composite_key(other_source, other_chain, pool_address);
    if key == other_key {
        assert(prefix =~= key.subrange(0, prefix.len() as int));
        assert(other_prefix =~= other_key.subrange(0, other_prefix.len() as int));
    }
}

/// Two records of one chain and one pool address, reported by different
/// providers, have different keys.
pub proof fn keys_differ_on_one_chain(
    source: Seq<char>,
    other_source: Seq<char>,
    chain: Seq<char>,
    pool_address: Seq<char>,
)
    requires
        source != other_source,
    ensures
        composite_key(source, chain, pool_address) != composite_key(
            other_source,
            chain,
            pool_address,
        ),
{
    let prefix = source + seq![':'] + chain;
    let other_prefix = other_source + seq![':'] + chain;
    if prefix == other_prefix {
        assert(source =~= prefix.subrange(0, source.len() as int));
        assert(other_source =~= other_prefix.subrange(0, other_source.len() as int));
    }
    keys_differ_where_prefixes_differ(source, chain, other_source, chain, pool_address);
}

/// Two records of one pool address, reported by different providers whose
/// names hold no colon, have different keys, whatever their chains.
pub proof fn keys_differ_for_plain_sources(
    source: Seq<char>,
    chain: Seq<char>,
    other_source: Seq<char>,
    other_chain: Seq<char>,
    pool_address: Seq<char>,
)
    requires
        source != other_source,
        forall|i: int| 0 <= i < source.len() ==> source[i] != ':',
        forall|i: int| 0 <= i < other_source.len() ==> other_source[i] != ':',
    ensures
        composite_key(source, chain, pool_address) != composite_key(
            other_source,
            other_chain,
            pool_address,
        ),
{
    let prefix = source + seq![':'] + chain;
    let other_prefix = other_source + seq![':'] + other_chain;
    if prefix == other_prefix {
        if source.len() == other_source.len() {
            assert(source =~= prefix.subrange(0, source.len() as int));
            assert(other_source =~= other_prefix.subrange(0, other_source.len() as int));
        } else if source.len() < other_source.len() {
            assert(other_prefix[source.len() as int] == other_source[source.len() as int]);
        } else {
            assert(prefix[other_source.len() as int] == source[other_source.len() as int]);
        }
    }
    keys_differ_where_prefixes_differ(source, chain, other_source, other_chain, pool_address);
}

} // verus!
