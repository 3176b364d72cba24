//! Gaps between the exchange's price of a token and a venue's.

use vstd::prelude::*;
use crate::services::price_monitor::MAX_PLAUSIBLE_PRICE;
use crate::text::same_text;
use crate::text::to_upper;
use crate::text::uppercase;

verus! {

/// How many symbols one pass looks at.
pub const SYMBOLS_PER_PASS: usize = 50;

/// How many pairs of a search result one pass reads.
pub const PAIRS_PER_SYMBOL: usize = 5;

/// How many gaps one pass shows.
pub const GAPS_SHOWN: usize = 20;

/// One trading pair of a search result.
#[derive(Debug)]
pub struct VenuePair {
    pub base_symbol: String,
    pub price_usd: Option<u64>,
    pub dex: String,
    pub chain: String,
}

/// The mathematical value of a [`VenuePair`].
pub struct VenuePairRecord {
    pub base_symbol: Seq<char>,
    pub price_usd: Option<nat>,
    pub dex: Seq<char>,
    pub chain: Seq<char>,
}

impl View for VenuePair {
    type V = VenuePairRecord;

    open spec fn view(&self) -> VenuePairRecord {
        VenuePairRecord {
            base_symbol: self.base_symbol@,
            price_usd: match self.price_usd {
                Some(price) => Some(price as nat),
                None => None,
            },
            dex: self.dex@,
            chain: self.chain@,
        }
    }
}

/// The values of a search result.
pub open spec fn venue_pair_records(pairs: Seq<VenuePair>) -> Seq<VenuePairRecord> {
    pairs.map_values(|pair: VenuePair| pair@)
}

/// Whether a pair quotes a usable price for a token: its base token is the
/// token, whatever the case, and its price is positive and below a billion
/// dollars.
pub open spec fn venue_quotes_token(pair: VenuePairRecord, symbol: Seq<char>) -> bool {
    uppercase(pair.base_symbol) == uppercase(symbol) && match pair.price_usd {
        Some(price) => 0 < price < 1_000_000_000_000_000,
        None => false,
    }
}

/// The position of the first of the pairs from `from` up to `upto` that
/// quotes a usable price for a token; `-1` where there is none.
pub open spec fn first_quote(
    pairs: Seq<VenuePairRecord>,
    symbol: Seq<char>,
    from: int,
    upto: int,
) -> int
    decreases upto - from,
{
    if from >= upto {
        -1
    } else if venue_quotes_token(pairs[from], symbol) {
        from
    } else {
        first_quote(pairs, symbol, from + 1, upto)
    }
}

/// Finds the first of the first [`PAIRS_PER_SYMBOL`] pairs that quotes a
/// usable price for a token.
pub fn first_venue_quote(pairs: &[VenuePair], symbol: &str) -> (found: Option<usize>)
    ensures
        match found {
            Some(at) => at == first_quote(
                venue_pair_records(pairs@),
                symbol@,
                0,
                if pairs@.len() < 5 {
                    pairs@.len() as int
                } else {
                    5
                },
            ) && at < pairs@.len(),
            None => first_quote(
                venue_pair_records(pairs@),
                symbol@,
                0,
                if pairs@.len() < 5 {
                    pairs@.len() as int
                } else {
                    5
                },
            ) == -1,
        },
{
    let ghost records = venue_pair_records(pairs@);
    let wanted = to_upper(symbol);
    let limit: usize = if pairs.len() < PAIRS_PER_SYMBOL {
        pairs.len()
    } else {
        PAIRS_PER_SYMBOL
    };
    let mut i: usize = 0;
    while i < limit
        invariant
            0 <= i <= limit <= pairs@.len(),
            limit == if pairs@.len() < 5 {
                pairs@.len()
            } else {
                5
            },
            records == venue_pair_records(pairs@),
            wanted@ == uppercase(symbol@),
            first_quote(records, symbol@, 0, limit as int) == first_quote(
                records,
                symbol@,
                i as int,
                limit as int,
            ),
        decreases limit - i,
    {
        let usable = match pairs[i].price_usd {
            Some(price) => 0 < price && price < MAX_PLAUSIBLE_PRICE,
            None => false,
        };
        if usable {
            let base = to_upper(pairs[i].base_symbol.as_str());
            if same_text(base.as_str(), wanted.as_str()) {
                return Some(i);
            }
        }
        i += 1;
    }
    None
}

/// On which side of the venue's price the exchange's price lies.
#[derive(Debug, Clone, Copy, PartialEq, Eq, Structural)]
pub enum GapSide {
    /// The exchange is dearer than the venue, or as dear.
    Above,
    /// The exchange is cheaper than the venue.
    Below,
}

/// The gap between the exchange's price and a venue's, relative to the
/// venue's: its side and its size in millionths of a percent, rounded down.
#[derive(Debug, Clone, Copy, PartialEq, Eq, Structural)]
pub struct Gap {
    pub side: GapSide,
    pub size_pct: u128,
}

/// The distance between two prices.
pub open spec fn price_distance(cex_price: nat, dex_price: nat) -> nat {
    if cex_price >= dex_price {
        (cex_price - dex_price) as nat
    } else {
        (dex_price - cex_price) as nat
    }
}

/// The gap between the exchange's price and a venue's positive price.
pub open spec fn gap_between(cex_price: nat, dex_price: nat) -> Gap
    recommends
        dex_price > 0,
{
    Gap {
        side: if cex_price >= dex_price {
            GapSide::Above
        } else {
            GapSide::Below
        },
        size_pct: (price_distance(cex_price, dex_price) * 100_000_000 / dex_price) as u128,
    }
}

/// Whether the gap between two prices, relative to the venue's, is at least
/// `threshold_ppm` millionths.
pub open spec fn gap_reaches(cex_price: nat, dex_price: nat, threshold_ppm: nat) -> bool {
    dex_price > 0 && price_distance(cex_price, dex_price) * 1_000_000 >= threshold_ppm * dex_price
}

/// Computes the gap between the exchange's price and a venue's.
pub fn gap(cex_price: u64, dex_price: u64) -> (gap: Gap)
    requires
        dex_price > 0,
    ensures
        gap == gap_between(cex_price as nat, dex_price as nat),
{
    let distance: u64 = if cex_price >= dex_price {
        cex_price - dex_price
    } else {
        dex_price - cex_price
    };
    let scaled: u128 = (distance as u128) * 100_000_000u128;
    Gap {
        side: if cex_price >= dex_price {
            GapSide::Above
        } else {
            GapSide::Below
        },
        size_pct: scaled / (dex_price as u128),
    }
}

/// Decides whether the gap between two prices reaches a threshold in parts
/// per million. An unknown venue price reaches none.
pub fn reaches_gap(cex_price: u64, dex_price: u64, threshold_ppm: u64) -> (reached: bool)
    ensures
        reached == gap_reaches(cex_price as nat, dex_price as nat, threshold_ppm as nat),
{
    if dex_price == 0 {
        return false;
    }
    let distance: u64 = if cex_price >= dex_price {
        cex_price - dex_price
    } else {
        dex_price - cex_price
    };
    let lhs: u128 = (distance as u128) * 1_000_000u128;
    assert((threshold_ppm as int) * (dex_price as int) <= 0xffff_ffff_ffff_ffff
        * 0xffff_ffff_ffff_ffff) by (nonlinear_arith)
        requires
            0 <= threshold_ppm <= 0xffff_ffff_ffff_ffff,
            0 <= dex_price <= 0xffff_ffff_ffff_ffff,
    ;
    let rhs: u128 = (threshold_ppm as u128) * (dex_price as u128);
    lhs >= rhs
}

/// Whether the gap at `first` is shown before the gap at `second`: the
/// larger gap comes first, and of two equal gaps the one found earlier.
pub open spec fn shown_before(sizes: Seq<u128>, first: int, second: int) -> bool {
    sizes[first] > sizes[second] || (sizes[first] == sizes[second] && first <= second)
}

/// Ranks gaps by size: the positions of the gaps, the largest gap first and
/// equal gaps in the order in which they were found.
pub fn rank_gaps(sizes: &[u128]) -> (order: Vec<usize>)
    ensures
        order@.len() == sizes@.len(),
        forall|k: int| 0 <= k < order@.len() ==> #[trigger] order@[k] < sizes@.len(),
        forall|k: int, l: int|
            0 <= k < l < order@.len() ==> shown_before(
                sizes@,
                #[trigger] order@[k] as int,
                #[trigger] order@[l] as int,
            ),
        forall|at: usize| at < sizes@.len() ==> #[trigger] order@.contains(at),
{
    let mut order: Vec<usize> = Vec::new();
    let mut i: usize = 0;
    while i < sizes.len()
        invariant
            0 <= i <= sizes@.len(),
            order@.len() == i,
            forall|k: int| 0 <= k < order@.len() ==> #[trigger] order@[k] < i,
            forall|k: int, l: int|
                0 <= k < l < order@.len() ==> shown_before(
                    sizes@,
                    #[trigger] order@[k] as int,
                    #[trigger] order@[l] as int,
                ),
            forall|at: usize| at < i ==> #[trigger] order@.contains(at),
        decreases sizes@.len() - i,
    {
        let ghost before = order@;
        let mut place: usize = 0;
        while place < order.len() && sizes[order[place]] >= sizes[i]
            invariant
                0 <= place <= order@.len(),
                i < sizes@.len(),
                order@ == before,
                forall|k: int| 0 <= k < order@.len() ==> #[trigger] order@[k] < i,
                forall|k: int| 0 <= k < place ==> sizes@[#[trigger] order@[k] as int] >= sizes@[i as int],
            decreases order@.len() - place,
        {
            place += 1;
        }
        order.insert(place, i);
        proof {
            assert forall|at: usize| at < i + 1 implies #[trigger] order@.contains(at) by {
                if at < i {
                    assert(before.contains(at));
                    let k = choose|k: int| 0 <= k < before.len() && before[k] == at;
                    if k < place {
                        assert(order@[k] == at);
                    } else {
                        assert(order@[k + 1] == at);
                    }
                } else {
                    assert(order@[place as int] == at);
                }
            }
        }
        i += 1;
    }
    order
}

} // verus!
