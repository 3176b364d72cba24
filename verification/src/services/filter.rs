//! The validity rule for pool records.

use vstd::prelude::*;
use crate::config::FilterConfig;
use crate::models::pool::PoolData;
use crate::models::pool::PoolRecord;

verus! {

/// A pool may trade one fiftieth (2%) of its liquidity without undue slippage.
pub const TRADEABLE_DIVISOR: u64 = 50;

/// The least tradeable amount that makes a thin pool acceptable: 100 dollars.
pub const MIN_TRADEABLE: u64 = 100_000_000;

/// The tradeable amount of a pool: 2% of its liquidity, rounded down.
pub open spec fn tradeable_amount(lp_reserve_usd: nat) -> nat {
    lp_reserve_usd / 50
}

/// The validity rule on liquidity and volume.
///
/// A pool with at least `min_lp` liquidity is valid when its volume reaches
/// `min_volume`. A thinner pool is valid when, besides, its tradeable amount
/// reaches 100 dollars.
pub open spec fn passes_liquidity_rule(
    lp_reserve_usd: nat,
    volume_24h: nat,
    min_lp: nat,
    min_volume: nat,
) -> bool {
    if lp_reserve_usd >= min_lp {
        volume_24h >= min_volume
    } else {
        tradeable_amount(lp_reserve_usd) >= 100_000_000 && volume_24h >= min_volume
    }
}

/// Thresholds under which a pool record is kept.
#[derive(Debug, Clone, Copy)]
pub struct PoolFilter {
    min_lp: u64,
    min_volume: u64,
    min_tx_count: u32,
    price_only: bool,
}

impl PoolFilter {
    /// The least liquidity at which volume alone decides.
    pub closed spec fn spec_min_lp(&self) -> nat {
        self.min_lp as nat
    }

    /// The least 24-hour volume of a valid pool.
    pub closed spec fn spec_min_volume(&self) -> nat {
        self.min_volume as nat
    }

    /// The configured minimum transaction count, which the rule does not use.
    pub closed spec fn spec_min_tx_count(&self) -> nat {
        self.min_tx_count as nat
    }

    /// Whether the permissive debugging mode is on, in which any pool with a
    /// known price is valid.
    pub closed spec fn spec_price_only(&self) -> bool {
        self.price_only
    }

    /// What `is_valid` answers for a record.
    pub open spec fn accepts(&self, pool: PoolRecord) -> bool {
        (self.spec_price_only() && pool.price_usd > 0) || passes_liquidity_rule(
            pool.lp_reserve_usd,
            pool.volume_24h,
            self.spec_min_lp(),
            self.spec_min_volume(),
        )
    }

    /// A strict filter with the configured thresholds.
    pub fn new(config: &FilterConfig) -> (filter: Self)
        ensures
            filter.spec_min_lp() == config.min_lp,
            filter.spec_min_volume() == config.min_volume,
            filter.spec_min_tx_count() == config.min_tx_count,
            !filter.spec_price_only(),
    {
        PoolFilter {
            min_lp: config.min_lp,
            min_volume: config.min_volume,
            min_tx_count: config.min_tx_count,
            price_only: false,
        }
    }

    /// The least liquidity at which volume alone decides, in millionths of a dollar.
    pub fn min_lp(&self) -> (min_lp: u64)
        ensures
            min_lp == self.spec_min_lp(),
    {
        self.min_lp
    }

    /// The least 24-hour volume of a valid pool, in millionths of a dollar.
    pub fn min_volume(&self) -> (min_volume: u64)
        ensures
            min_volume == self.spec_min_volume(),
    {
        self.min_volume
    }

    /// The configured minimum transaction count.
    pub fn min_tx_count(&self) -> (min_tx_count: u32)
        ensures
            min_tx_count == self.spec_min_tx_count(),
    {
        self.min_tx_count
    }

    /// Whether any pool with a known price is valid.
    pub fn price_only(&self) -> (price_only: bool)
        ensures
            price_only == self.spec_price_only(),
    {
        self.price_only
    }

    /// Decides whether a record is kept.
    pub fn is_valid(&self, pool: &PoolData) -> (valid: bool)
        ensures
            valid == self.accepts(pool@),
    {
        if self.price_only && pool.price_usd > 0 {
            return true;
        }
        if pool.lp_reserve_usd >= self.min_lp {
            return pool.volume_24h >= self.min_volume;
        }
        let tradeable: u64 = pool.lp_reserve_usd / TRADEABLE_DIVISOR;
        tradeable >= MIN_TRADEABLE && pool.volume_24h >= self.min_volume
    }

    /// The largest amount worth trading against a pool: 2% of its liquidity,
    /// whether or not the pool is valid.
    pub fn calculate_max_trade(&self, pool: &PoolData) -> (amount: u64)
        ensures
            amount == tradeable_amount(pool@.lp_reserve_usd),
    {
        pool.lp_reserve_usd / TRADEABLE_DIVISOR
    }

    /// Replaces the liquidity threshold.
    pub fn set_min_lp(&mut self, min_lp: u64)
        ensures
            final(self).spec_min_lp() == min_lp,
            final(self).spec_min_volume() == old(self).spec_min_volume(),
            final(self).spec_min_tx_count() == old(self).spec_min_tx_count(),
            final(self).spec_price_only() == old(self).spec_price_only(),
    {
        self.min_lp = min_lp;
    }

    /// Replaces the volume threshold.
    pub fn set_min_volume(&mut self, min_volume: u64)
        ensures
            final(self).spec_min_volume() == min_volume,
            final(self).spec_min_lp() == old(self).spec_min_lp(),
            final(self).spec_min_tx_count() == old(self).spec_min_tx_count(),
            final(self).spec_price_only() == old(self).spec_price_only(),
    {
        self.min_volume = min_volume;
    }

    /// Switches the permissive debugging mode on or off.
    pub fn set_price_only(&mut self, price_only: bool)
        ensures
            final(self).spec_price_only() == price_only,
            final(self).spec_min_lp() == old(self).spec_min_lp(),
            final(self).spec_min_volume() == old(self).spec_min_volume(),
            final(self).spec_min_tx_count() == old(self).spec_min_tx_count(),
    {
        self.price_only = price_only;
    }
}

/// The liquidity rule is monotone: a pool that passes still passes with more
/// liquidity and more volume.
pub proof fn liquidity_rule_is_monotone(
    lp: nat,
    volume: nat,
    more_lp: nat,
    more_volume: nat,
    min_lp: nat,
    min_volume: nat,
)
    requires
        passes_liquidity_rule(lp, volume, min_lp, min_volume),
        lp <= more_lp,
        volume <= more_volume,
    ensures
        passes_liquidity_rule(more_lp, more_volume, min_lp, min_volume),
{
}

/// A pool without volume is invalid under any positive volume threshold,
/// whatever its liquidity.
pub proof fn no_volume_fails(lp: nat, min_lp: nat, min_volume: nat)
    requires
        min_volume > 0,
    ensures
        !passes_liquidity_rule(lp, 0, min_lp, min_volume),
{
}

} // verus!
