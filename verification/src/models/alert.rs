//! Price-dispersion alerts and the arithmetic that decides them.

use vstd::prelude::*;
use crate::clock::unix_now;
use crate::models::pool::PoolData;
use crate::models::pool::PoolRecord;

verus! {

/// Ratios are given in parts per million: a threshold of 3% is `30_000`.
pub const RATIO_SCALE: u64 = 1_000_000;

/// `diff_pct` counts millionths of a percent: 5.25% is `5_250_000`.
pub const PERCENT_SCALE: u64 = 100_000_000;

/// The two kinds of price dispersion.
#[derive(Debug, Clone, Copy, PartialEq, Eq, Structural)]
pub enum ArbType {
    DexToDex,
    DexToCex,
}

/// The mathematical value of an [`ArbitrageAlert`].
pub struct AlertRecord {
    pub symbol: Seq<char>,
    pub arb_type: ArbType,
    pub low_price: nat,
    pub low_source: Seq<char>,
    pub high_price: nat,
    pub high_source: Seq<char>,
    pub diff_pct: nat,
    pub timestamp: int,
}

/// A spread between two quotes of one token that reached the threshold.
///
/// Prices are in millionths of a dollar and `diff_pct` in millionths of a percent.
#[derive(Debug)]
pub struct ArbitrageAlert {
    pub symbol: String,
    pub arb_type: ArbType,
    pub low_price: u64,
    pub low_source: String,
    pub high_price: u64,
    pub high_source: String,
    pub diff_pct: u128,
    pub timestamp: i64,
}

impl View for ArbitrageAlert {
    type V = AlertRecord;

    open spec fn view(&self) -> AlertRecord {
        AlertRecord {
            symbol: self.symbol@,
            arb_type: self.arb_type,
            low_price: self.low_price as nat,
            low_source: self.low_source@,
            high_price: self.high_price as nat,
            high_source: self.high_source@,
            diff_pct: self.diff_pct as nat,
            timestamp: self.timestamp as int,
        }
    }
}

impl Clone for ArbitrageAlert {
    fn clone(&self) -> (copy: Self)
        ensures
            copy == *self,
    {
        ArbitrageAlert {
            symbol: self.symbol.clone(),
            arb_type: self.arb_type,
            low_price: self.low_price,
            low_source: self.low_source.clone(),
            high_price: self.high_price,
            high_source: self.high_source.clone(),
            diff_pct: self.diff_pct,
            timestamp: self.timestamp,
        }
    }
}

/// Whether the spread `(high - low) / low` is at least `threshold_ppm` millionths.
///
/// A non-positive low price never meets any threshold.
pub open spec fn spread_reaches(low: nat, high: nat, threshold_ppm: nat) -> bool {
    0 < low <= high && (high - low) * 1_000_000 >= threshold_ppm * low
}

/// The spread relative to the low price, in millionths of a percent, rounded down.
pub open spec fn spread_pct(low: nat, high: nat) -> nat
    recommends
        0 < low <= high,
{
    ((high - low) * 100_000_000 / (low as int)) as nat
}

/// The label of a venue in an alert: the venue's name, a colon, the pool's address.
pub open spec fn venue_label(dex: Seq<char>, pool_address: Seq<char>) -> Seq<char> {
    dex + seq![':'] + pool_address
}

/// The alert between two pools of one token, the cheaper one first.
pub open spec fn dex_dex_alert(low: PoolRecord, high: PoolRecord, timestamp: int) -> AlertRecord {
    AlertRecord {
        symbol: low.symbol,
        arb_type: ArbType::DexToDex,
        low_price: low.price_usd,
        low_source: venue_label(low.dex, low.pool_address),
        high_price: high.price_usd,
        high_source: venue_label(high.dex, high.pool_address),
        diff_pct: spread_pct(low.price_usd, high.price_usd),
        timestamp,
    }
}

/// Decides whether two prices are at least `threshold_ppm` millionths apart,
/// relative to the lower one.
pub fn reaches_threshold(low: u64, high: u64, threshold_ppm: u64) -> (reached: bool)
    ensures
        reached == spread_reaches(low as nat, high as nat, threshold_ppm as nat),
{
    if low == 0 || high < low {
        return false;
    }
    let gap: u128 = (high - low) as u128;
    let lhs: u128 = gap * 1_000_000u128;
    assert((threshold_ppm as int) * (low as int) <= 0xffff_ffff_ffff_ffff * 0xffff_ffff_ffff_ffff)
        by (nonlinear_arith)
        requires
            0 <= threshold_ppm <= 0xffff_ffff_ffff_ffff,
            0 <= low <= 0xffff_ffff_ffff_ffff,
    ;
    let rhs: u128 = (threshold_ppm as u128) * (low as u128);
    lhs >= rhs
}

/// Computes the spread in millionths of a percent, rounded down.
pub fn percent_spread(low: u64, high: u64) -> (pct: u128)
    requires
        0 < low <= high,
    ensures
        pct == spread_pct(low as nat, high as nat),
{
    let gap: u128 = (high - low) as u128;
    let scaled: u128 = gap * 100_000_000u128;
    scaled / (low as u128)
}

/// Builds the label of a venue: `dex`, a colon, `pool_address`.
pub fn label_of(dex: &String, pool_address: &String) -> (label: String)
    ensures
        label@ == venue_label(dex@, pool_address@),
{
    let mut label = dex.clone();
    proof {
        reveal_strlit(":");
    }
    label.append(":");
    label.append(pool_address.as_str());
    label
}

impl ArbitrageAlert {
    /// Builds the alert between two pools, given the time of detection.
    pub fn from_pools_at(low: &PoolData, high: &PoolData, timestamp: i64) -> (alert: Self)
        requires
            0 < low.price_usd <= high.price_usd,
        ensures
            alert@ == dex_dex_alert(low@, high@, timestamp as int),
    {
        ArbitrageAlert {
            symbol: low.symbol.clone(),
            arb_type: ArbType::DexToDex,
            low_price: low.price_usd,
            low_source: label_of(&low.dex, &low.pool_address),
            high_price: high.price_usd,
            high_source: label_of(&high.dex, &high.pool_address),
            diff_pct: percent_spread(low.price_usd, high.price_usd),
            timestamp,
        }
    }

    /// Builds the alert between two pools, stamped with the current time.
    ///
    /// Every field but the timestamp is fixed by the two pools.
    pub fn from_pools(low: &PoolData, high: &PoolData) -> (alert: Self)
        requires
            0 < low.price_usd <= high.price_usd,
        ensures
            alert@ == dex_dex_alert(low@, high@, alert.timestamp as int),
    {
        let now: i64 = unix_now();
        Self::from_pools_at(low, high, now)
    }
}

} // verus!
