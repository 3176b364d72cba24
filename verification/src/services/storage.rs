//! What the persistence layer writes where: file names, and the records of
//! a snapshot grouped by token.

use vstd::prelude::*;
use vstd::hash_map::StringHashMap;
use crate::clock::utc_minute_stamp;
use crate::clock::utc_today;
use crate::decimal::signed_decimal;
use crate::decimal::signed_decimal_text;
use crate::decimal::two_digit_text;
use crate::decimal::two_digits;
use crate::models::pool::PoolData;
use crate::models::pool::PoolRecord;
use crate::text::same_text;

verus! {

/// The name of the file that holds a token's pools of one day:
/// the symbol, an underscore, the date as `year-month-day` with two digits
/// for month and day, and `.json`.
pub open spec fn pool_file(symbol: Seq<char>, year: int, month: nat, day: nat) -> Seq<char> {
    symbol + "_"@ + signed_decimal(year) + "-"@ + two_digits(month) + "-"@ + two_digits(day)
        + ".json"@
}

/// The name of the file that holds a full snapshot taken at the minute
/// that `stamp` names.
pub open spec fn snapshot_file(stamp: Seq<char>) -> Seq<char> {
    "full_"@ + stamp + ".json"@
}

/// Builds the name of the file that holds a token's pools of one day.
pub fn pool_file_name(symbol: &str, year: i32, month: u32, day: u32) -> (name: String)
    ensures
        name@ == pool_file(symbol@, year as int, month as nat, day as nat),
{
    let mut name = String::from_str(symbol);
    name.append("_");
    name.append(signed_decimal_text(year as i64).as_str());
    name.append("-");
    name.append(two_digit_text(month as u64).as_str());
    name.append("-");
    name.append(two_digit_text(day as u64).as_str());
    name.append(".json");
    name
}

/// Builds the name of the file that holds a token's pools of today.
///
/// The name is that of some day of the calendar.
pub fn pool_file_name_today(symbol: &str) -> (name: String)
    ensures
        exists|year: int, month: nat, day: nat|
            1 <= month <= 12 && 1 <= day <= 31 && name@ == #[trigger] pool_file(
                symbol@,
                year,
                month,
                day,
            ),
{
    let today = utc_today();
    let name = pool_file_name(symbol, today.year, today.month, today.day);
    name
}

/// Builds the name of the file that holds a full snapshot.
pub fn snapshot_file_name(stamp: &str) -> (name: String)
    ensures
        name@ == snapshot_file(stamp@),
{
    let mut name = String::from_str("full_");
    name.append(stamp);
    name.append(".json");
    name
}

/// Builds the name of the file that holds a full snapshot taken now.
pub fn snapshot_file_name_now() -> (name: String)
    ensures
        exists|stamp: Seq<char>| name@ == #[trigger] snapshot_file(stamp),
{
    let stamp = utc_minute_stamp();
    let name = snapshot_file_name(stamp.as_str());
    name
}

/// The symbols of the first `upto` records, each once, in the order in
/// which they first occur.
pub open spec fn symbols_upto(pools: Seq<PoolRecord>, upto: int) -> Seq<Seq<char>>
    decreases upto,
{
    if upto <= 0 {
        Seq::empty()
    } else {
        let before = symbols_upto(pools, upto - 1);
        if before.contains(pools[upto - 1].symbol) {
            before
        } else {
            before.push(pools[upto - 1].symbol)
        }
    }
}

/// Every token of a snapshot is listed once among its symbols, and every
/// listed symbol is that of a record.
pub proof fn symbols_are_listed_once(pools: Seq<PoolRecord>, upto: int)
    requires
        0 <= upto <= pools.len(),
    ensures
        symbols_upto(pools, upto).no_duplicates(),
        forall|k: int| 0 <= k < upto ==> symbols_upto(pools, upto).contains((#[trigger] pools[k]).symbol),
        forall|g: int|
            0 <= g < symbols_upto(pools, upto).len() ==> exists|k: int|
                0 <= k < upto && (#[trigger] pools[k]).symbol == #[trigger] symbols_upto(
                    pools,
                    upto,
                )[g],
    decreases upto,
{
    if upto > 0 {
        symbols_are_listed_once(pools, upto - 1);
        let before = symbols_upto(pools, upto - 1);
        let after = symbols_upto(pools, upto);
        let symbol = pools[upto - 1].symbol;
        assert forall|k: int| 0 <= k < upto implies after.contains((#[trigger] pools[k]).symbol) by {
            if k < upto - 1 {
                let at = choose|at: int| 0 <= at < before.len() && before[at] == pools[k].symbol;
                assert(after[at] == pools[k].symbol);
            } else if !before.contains(symbol) {
                assert(after[before.len() as int] == symbol);
            }
        }
    }
}

/// The records of one token, in their order.
pub open spec fn pools_with(pools: Seq<PoolRecord>, symbol: Seq<char>) -> Seq<PoolRecord> {
    pools.filter(|pool: PoolRecord| pool.symbol == symbol)
}

/// The records of one token.
#[derive(Debug)]
pub struct SymbolGroup {
    pub symbol: String,
    pub pools: Vec<PoolData>,
}

/// The values of a list of records.
pub open spec fn records_of(pools: Seq<PoolData>) -> Seq<PoolRecord> {
    pools.map_values(|pool: PoolData| pool@)
}

fn distinct_symbols(pools: &[PoolData]) -> (symbols: Vec<String>)
    ensures
        symbols@.map_values(|symbol: String| symbol@) == symbols_upto(
            records_of(pools@),
            pools@.len() as int,
        ),
{
    let ghost records = records_of(pools@);
    let mut seen: StringHashMap<bool> = StringHashMap::new();
    let mut symbols: Vec<String> = Vec::new();
    let mut i: usize = 0;
    while i < pools.len()
        invariant
            0 <= i <= pools@.len(),
            records == records_of(pools@),
            symbols@.map_values(|symbol: String| symbol@) == symbols_upto(records, i as int),
            forall|symbol: Seq<char>|
                seen@.contains_key(symbol) <==> symbols_upto(records, i as int).contains(symbol),
        decreases pools@.len() - i,
    {
        let ghost listed = symbols_upto(records, i as int);
        if !seen.contains_key(pools[i].symbol.as_str()) {
            let symbol = pools[i].symbol.clone();
            seen.insert(symbol.clone(), true);
            symbols.push(symbol);
            assert forall|other: Seq<char>| seen@.contains_key(other) <==> listed.push(
                symbol@,
            ).contains(other) by {
                if listed.contains(other) {
                    let at = choose|at: int| 0 <= at < listed.len() && listed[at] == other;
                    assert(listed.push(symbol@)[at] == other);
                }
                if other == symbol@ {
                    assert(listed.push(symbol@)[listed.len() as int] == other);
                }
            }
        }
        i += 1;
    }
    symbols
}

fn copies_with(pools: &[PoolData], symbol: &str) -> (chosen: Vec<PoolData>)
    ensures
        records_of(chosen@) == pools_with(records_of(pools@), symbol@),
{
    let ghost records = records_of(pools@);
    let ghost wanted = |pool: PoolRecord| pool.symbol == symbol@;
    let mut chosen: Vec<PoolData> = Vec::new();
    let mut i: usize = 0;
    assert(records_of(chosen@) =~= records.take(0).filter(wanted)) by {
        reveal(Seq::filter);
    }
    while i < pools.len()
        invariant
            0 <= i <= pools@.len(),
            records == records_of(pools@),
            wanted == |pool: PoolRecord| pool.symbol == symbol@,
            records_of(chosen@) == records.take(i as int).filter(wanted),
        decreases pools@.len() - i,
    {
        assert(records.take(i + 1) =~= records.take(i as int).push(records[i as int]));
        proof {
            records.take(i as int).lemma_filter_push(records[i as int], wanted);
        }
        if same_text(pools[i].symbol.as_str(), symbol) {
            let copy = pools[i].clone();
            chosen.push(copy);
        }
        i += 1;
    }
    assert(records.take(i as int) =~= records);
    chosen
}

/// Groups the records of a snapshot by token. The groups come in the order
/// in which their tokens first occur, and each holds all records of its
/// token in their order.
pub fn group_by_symbol(pools: &[PoolData]) -> (groups: Vec<SymbolGroup>)
    ensures
        groups@.len() == symbols_upto(records_of(pools@), pools@.len() as int).len(),
        forall|g: int|
            0 <= g < groups@.len() ==> (#[trigger] groups@[g]).symbol@ == symbols_upto(
                records_of(pools@),
                pools@.len() as int,
            )[g] && records_of(groups@[g].pools@) == pools_with(
                records_of(pools@),
                groups@[g].symbol@,
            ),
{
    let symbols = distinct_symbols(pools);
    let ghost listed = symbols_upto(records_of(pools@), pools@.len() as int);
    let mut groups: Vec<SymbolGroup> = Vec::new();
    let mut g: usize = 0;
    while g < symbols.len()
        invariant
            0 <= g <= symbols@.len(),
            symbols@.map_values(|symbol: String| symbol@) == listed,
            groups@.len() == g,
            forall|h: int|
                0 <= h < g ==> (#[trigger] groups@[h]).symbol@ == listed[h] && records_of(
                    groups@[h].pools@,
                ) == pools_with(records_of(pools@), groups@[h].symbol@),
        decreases symbols@.len() - g,
    {
        let chosen = copies_with(pools, symbols[g].as_str());
        groups.push(SymbolGroup { symbol: symbols[g].clone(), pools: chosen });
        g += 1;
    }
    groups
}

} // verus!
