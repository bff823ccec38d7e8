//! The records that the oracle registries hold: price feeds and utility rates.

use vstd::prelude::*;

verus! {

/// The latest known price of one asset in units of another.
#[derive(Debug, PartialEq, Eq)]
pub struct PriceFeed {
    /// The address of the feed's source, in its text form.
    pub feed_address: String,
    pub base_asset: String,
    pub quote_asset: String,
    /// The price is scaled by `10^decimals`.
    pub decimals: u32,
    pub last_updated: u64,
    pub price: i128,
    /// Supplied with the record; not derived from the reliability tracker.
    pub reliability_score: u8,
}

/// What a [`PriceFeed`] holds, as mathematical values.
pub struct PriceFeedView {
    pub feed_address: Seq<char>,
    pub base_asset: Seq<char>,
    pub quote_asset: Seq<char>,
    pub decimals: u32,
    pub last_updated: u64,
    pub price: i128,
    pub reliability_score: u8,
}

impl View for PriceFeed {
    type V = PriceFeedView;

    open spec fn view(&self) -> PriceFeedView {
        PriceFeedView {
            feed_address: self.feed_address@,
            base_asset: self.base_asset@,
            quote_asset: self.quote_asset@,
            decimals: self.decimals,
            last_updated: self.last_updated,
            price: self.price,
            reliability_score: self.reliability_score,
        }
    }
}

impl PriceFeedView {
    /// The feed after a new price stamped `timestamp` has been written.
    pub open spec fn updated(self, new_price: i128, timestamp: u64) -> Self {
        PriceFeedView { price: new_price, last_updated: timestamp, ..self }
    }
}

impl Clone for PriceFeed {
    fn clone(&self) -> (copy: Self)
        ensures
            copy@ == self@,
    {
        PriceFeed {
            feed_address: self.feed_address.clone(),
            base_asset: self.base_asset.clone(),
            quote_asset: self.quote_asset.clone(),
            decimals: self.decimals,
            last_updated: self.last_updated,
            price: self.price,
            reliability_score: self.reliability_score,
        }
    }
}

impl PriceFeed {
    /// A copy of the feed with a new price stamped `timestamp`.
    pub fn with_price(&self, new_price: i128, timestamp: u64) -> (feed: Self)
        ensures
            feed@ == self@.updated(new_price, timestamp),
    {
        PriceFeed {
            feed_address: self.feed_address.clone(),
            base_asset: self.base_asset.clone(),
            quote_asset: self.quote_asset.clone(),
            decimals: self.decimals,
            last_updated: timestamp,
            price: new_price,
            reliability_score: self.reliability_score,
        }
    }
}

/// The latest known price of one kilowatt-hour of a utility in a region.
#[derive(Debug, PartialEq, Eq)]
pub struct UtilityRate {
    pub utility_type: String,
    pub rate_per_kwh: i128,
    pub currency: String,
    pub region: String,
    pub last_updated: u64,
    /// Supplied with the record; not derived from the reliability tracker.
    pub reliability_score: u8,
}

/// What a [`UtilityRate`] holds, as mathematical values.
pub struct UtilityRateView {
    pub utility_type: Seq<char>,
    pub rate_per_kwh: i128,
    pub currency: Seq<char>,
    pub region: Seq<char>,
    pub last_updated: u64,
    pub reliability_score: u8,
}

impl View for UtilityRate {
    type V = UtilityRateView;

    open spec fn view(&self) -> UtilityRateView {
        UtilityRateView {
            utility_type: self.utility_type@,
            rate_per_kwh: self.rate_per_kwh,
            currency: self.currency@,
            region: self.region@,
            last_updated: self.last_updated,
            reliability_score: self.reliability_score,
        }
    }
}

impl UtilityRateView {
    /// The rate after a new value stamped `timestamp` has been written.
    pub open spec fn updated(self, new_rate: i128, timestamp: u64) -> Self {
        UtilityRateView { rate_per_kwh: new_rate, last_updated: timestamp, ..self }
    }
}

impl Clone for UtilityRate {
    fn clone(&self) -> (copy: Self)
        ensures
            copy@ == self@,
    {
        UtilityRate {
            utility_type: self.utility_type.clone(),
            rate_per_kwh: self.rate_per_kwh,
            currency: self.currency.clone(),
            region: self.region.clone(),
            last_updated: self.last_updated,
            reliability_score: self.reliability_score,
        }
    }
}

impl UtilityRate {
    /// A copy of the rate with a new value stamped `timestamp`.
    pub fn with_rate(&self, new_rate: i128, timestamp: u64) -> (rate: Self)
        ensures
            rate@ == self@.updated(new_rate, timestamp),
    {
        UtilityRate {
            utility_type: self.utility_type.clone(),
            rate_per_kwh: new_rate,
            currency: self.currency.clone(),
            region: self.region.clone(),
            last_updated: timestamp,
            reliability_score: self.reliability_score,
        }
    }
}

} // verus!
