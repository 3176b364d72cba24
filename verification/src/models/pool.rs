//! One observed price point of a token on a venue.

use vstd::prelude::*;
use crate::clock::unix_now;

verus! {

/// The mathematical value of a [`PoolData`]: strings as character sequences, numbers unbounded.
pub struct PoolRecord {
    pub symbol: Seq<char>,
    pub chain: Seq<char>,
    pub dex: Seq<char>,
    pub pool_address: Seq<char>,
    pub pair: Seq<char>,
    pub price_usd: nat,
    pub lp_reserve_usd: nat,
    pub volume_24h: nat,
    pub fee_tier: Option<nat>,
    pub source: Seq<char>,
    pub timestamp: int,
}

/// A price point reported by one provider for one pool.
///
/// `price_usd`, `lp_reserve_usd` and `volume_24h` are in millionths of a dollar,
/// and `fee_tier` is in parts per million of the traded amount.
/// A `price_usd` of zero means that the price is unknown.
#[derive(Debug)]
pub struct PoolData {
    pub symbol: String,
    pub chain: String,
    pub dex: String,
    pub pool_address: String,
    pub pair: String,
    pub price_usd: u64,
    pub lp_reserve_usd: u64,
    pub volume_24h: u64,
    pub fee_tier: Option<u64>,
    pub source: String,
    pub timestamp: i64,
}

impl View for PoolData {
    type V = PoolRecord;

    open spec fn view(&self) -> PoolRecord {
        PoolRecord {
            symbol: self.symbol@,
            chain: self.chain@,
            dex: self.dex@,
            pool_address: self.pool_address@,
            pair: self.pair@,
            price_usd: self.price_usd as nat,
            lp_reserve_usd: self.lp_reserve_usd as nat,
            volume_24h: self.volume_24h as nat,
            fee_tier: match self.fee_tier {
                Some(f) => Some(f as nat),
                None => None,
            },
            source: self.source@,
            timestamp: self.timestamp as int,
        }
    }
}

impl Clone for PoolData {
    fn clone(&self) -> (copy: Self)
        ensures
            copy == *self,
    {
        PoolData {
            symbol: self.symbol.clone(),
            chain: self.chain.clone(),
            dex: self.dex.clone(),
            pool_address: self.pool_address.clone(),
            pair: self.pair.clone(),
            price_usd: self.price_usd,
            lp_reserve_usd: self.lp_reserve_usd,
            volume_24h: self.volume_24h,
            fee_tier: self.fee_tier,
            source: self.source.clone(),
            timestamp: self.timestamp,
        }
    }
}

impl PoolData {
    /// The record that `new` builds when the clock reads `timestamp`.
    pub open spec fn spec_observed(
        symbol: Seq<char>,
        chain: Seq<char>,
        dex: Seq<char>,
        pool_address: Seq<char>,
        pair: Seq<char>,
        price_usd: nat,
        lp_reserve_usd: nat,
        volume_24h: nat,
        source: Seq<char>,
        timestamp: int,
    ) -> PoolRecord {
        PoolRecord {
            symbol,
            chain,
            dex,
            pool_address,
            pair,
            price_usd,
            lp_reserve_usd,
            volume_24h,
            fee_tier: None,
            source,
            timestamp,
        }
    }

    /// Builds a record without a fee tier, observed at `timestamp`.
    pub fn observed_at(
        symbol: String,
        chain: String,
        dex: String,
        pool_address: String,
        pair: String,
        price_usd: u64,
        lp_reserve_usd: u64,
        volume_24h: u64,
        source: String,
        timestamp: i64,
    ) -> (pool: Self)
        ensures
            pool@ == Self::spec_observed(
                symbol@,
                chain@,
                dex@,
                pool_address@,
                pair@,
                price_usd as nat,
                lp_reserve_usd as nat,
                volume_24h as nat,
                source@,
                timestamp as int,
            ),
    {
        PoolData {
            symbol,
            chain,
            dex,
            pool_address,
            pair,
            price_usd,
            lp_reserve_usd,
            volume_24h,
            fee_tier: None,
            source,
            timestamp,
        }
    }

    /// Builds a record without a fee tier, stamped with the current time.
    ///
    /// Every field but the timestamp is fixed by the arguments; the timestamp is
    /// whatever the clock returned.
    pub fn new(
        symbol: String,
        chain: String,
        dex: String,
        pool_address: String,
        pair: String,
        price_usd: u64,
        lp_reserve_usd: u64,
        volume_24h: u64,
        source: String,
    ) -> (pool: Self)
        ensures
            pool@ == Self::spec_observed(
                symbol@,
                chain@,
                dex@,
                pool_address@,
                pair@,
                price_usd as nat,
                lp_reserve_usd as nat,
                volume_24h as nat,
                source@,
                pool.timestamp as int,
            ),
    {
        let now: i64 = unix_now();
        Self::observed_at(
            symbol,
            chain,
            dex,
            pool_address,
            pair,
            price_usd,
            lp_reserve_usd,
            volume_24h,
            source,
            now,
        )
    }
}

} // verus!
