//! The oracle manager: owns the configuration, the reliability tracker, the
//! cost meter, the update schedule and the two registries, and carries out
//! every operation on them as one transition.

use crate::arith::{pow10, pow10_spec, trunc_rem, MAX_DECIMALS};
use crate::config::OracleConfig;
use crate::cost::OracleCost;
use crate::error::ContractError;
use crate::feeds::{PriceFeed, PriceFeedView, UtilityRate, UtilityRateView};
use crate::registry::Registry;
use crate::reliability::OracleReliability;
use crate::schedule::UpdateSchedule;
use vstd::prelude::*;

verus! {

/// The state of the oracle subsystem.
///
/// `config` and `cost` are absent until the oracle has been initialized. The
/// reliability record and the schedule start from their initial values, which
/// is what an absent record stands for.
#[derive(Debug, PartialEq, Eq)]
pub struct OracleManager {
    pub config: Option<OracleConfig>,
    pub reliability: OracleReliability,
    pub cost: Option<OracleCost>,
    pub schedule: UpdateSchedule,
    pub price_feeds: Registry<PriceFeed>,
    pub utility_rates: Registry<UtilityRate>,
}

/// The state of the oracle subsystem as mathematical values: the registries
/// are maps from identifiers to records.
pub struct OracleState {
    pub config: Option<OracleConfig>,
    pub reliability: OracleReliability,
    pub cost: Option<OracleCost>,
    pub schedule: UpdateSchedule,
    pub price_feeds: Map<Seq<char>, PriceFeedView>,
    pub utility_rates: Map<Seq<char>, UtilityRateView>,
}

impl View for OracleManager {
    type V = OracleState;

    open spec fn view(&self) -> OracleState {
        OracleState {
            config: self.config,
            reliability: self.reliability,
            cost: self.cost,
            schedule: self.schedule,
            price_feeds: self.price_feeds@,
            utility_rates: self.utility_rates@,
        }
    }
}

/// Whether `data` lies within `min_value..=max_value` and, taken modulo
/// `10^decimals`, leaves no more than a hundredth of `10^decimals`.
pub open spec fn data_is_valid(data: i128, min_value: i128, max_value: i128, decimals: u32) -> bool {
    &&& min_value <= data <= max_value
    &&& trunc_rem(data as int, pow10_spec(decimals as nat)) <= pow10_spec(decimals as nat) / 100
}

impl OracleState {
    /// The state before anything has been written.
    pub open spec fn empty() -> Self {
        OracleState {
            config: None,
            reliability: OracleReliability::zeroed(),
            cost: None,
            schedule: UpdateSchedule::initial(),
            price_feeds: Map::empty(),
            utility_rates: Map::empty(),
        }
    }

    /// The state after initialization with `config` at time `now`: the
    /// trackers start anew, the registries stay.
    pub open spec fn initialized(self, config: OracleConfig, now: u64) -> Self {
        OracleState {
            config: Some(config),
            reliability: OracleReliability::zeroed(),
            cost: Some(OracleCost::fresh(now)),
            schedule: UpdateSchedule::initial(),
            ..self
        }
    }

    /// The price feed registered under `feed_id`, if any.
    pub open spec fn price_feed(self, feed_id: Seq<char>) -> Option<PriceFeedView> {
        if self.price_feeds.contains_key(feed_id) {
            Some(self.price_feeds[feed_id])
        } else {
            None
        }
    }

    /// The utility rate registered under `rate_id`, if any.
    pub open spec fn utility_rate(self, rate_id: Seq<char>) -> Option<UtilityRateView> {
        if self.utility_rates.contains_key(rate_id) {
            Some(self.utility_rates[rate_id])
        } else {
            None
        }
    }

    /// The state after `feed` has been registered under `feed_id`.
    pub open spec fn with_price_feed(self, feed_id: Seq<char>, feed: PriceFeedView) -> Self {
        OracleState { price_feeds: self.price_feeds.insert(feed_id, feed), ..self }
    }

    /// The state after `rate` has been registered under `rate_id`.
    pub open spec fn with_utility_rate(self, rate_id: Seq<char>, rate: UtilityRateView) -> Self {
        OracleState { utility_rates: self.utility_rates.insert(rate_id, rate), ..self }
    }

    /// Why an update of the price feed `feed_id` with data stamped
    /// `timestamp` is refused at time `now`, or `None` where it is accepted.
    pub open spec fn price_update_refusal(self, now: u64, feed_id: Seq<char>, timestamp: u64) -> Option<
        ContractError,
    > {
        match self.config {
            None => Some(ContractError::NotInitialized),
            Some(config) => if config.too_old(now, timestamp) {
                Some(ContractError::DataTooOld)
            } else if !self.price_feeds.contains_key(feed_id) {
                Some(ContractError::NotFound)
            } else {
                None
            },
        }
    }

    /// Why an update of the utility rate `rate_id` with data stamped
    /// `timestamp` is refused at time `now`, or `None` where it is accepted.
    pub open spec fn rate_update_refusal(self, now: u64, rate_id: Seq<char>, timestamp: u64) -> Option<
        ContractError,
    > {
        match self.config {
            None => Some(ContractError::NotInitialized),
            Some(config) => if config.too_old(now, timestamp) {
                Some(ContractError::DataTooOld)
            } else if !self.utility_rates.contains_key(rate_id) {
                Some(ContractError::NotFound)
            } else {
                None
            },
        }
    }

    /// The state after an accepted update of the price feed `feed_id`: the
    /// feed carries the new price and timestamp, and one success is recorded.
    pub open spec fn with_price_update(
        self,
        now: u64,
        feed_id: Seq<char>,
        new_price: i128,
        timestamp: u64,
    ) -> Self {
        OracleState {
            price_feeds: self.price_feeds.insert(
                feed_id,
                self.price_feeds[feed_id].updated(new_price, timestamp),
            ),
            reliability: self.reliability.recorded(true, 0, now),
            ..self
        }
    }

    /// The state after an accepted update of the utility rate `rate_id`: the
    /// rate carries the new value and timestamp, and one success is recorded.
    pub open spec fn with_rate_update(
        self,
        now: u64,
        rate_id: Seq<char>,
        new_rate: i128,
        timestamp: u64,
    ) -> Self {
        OracleState {
            utility_rates: self.utility_rates.insert(
                rate_id,
                self.utility_rates[rate_id].updated(new_rate, timestamp),
            ),
            reliability: self.reliability.recorded(true, 0, now),
            ..self
        }
    }

    /// The cached price of the feed `feed_id` that may stand in for a fresh
    /// one at time `now`, if fallback is enabled and the price is no older
    /// than twice the freshness window.
    pub open spec fn fallback_price(self, now: u64, feed_id: Seq<char>) -> Option<i128> {
        match self.config {
            None => None,
            Some(config) => if config.fallback_enabled && self.price_feeds.contains_key(feed_id)
                && config.within_fallback_window(now, self.price_feeds[feed_id].last_updated) {
                Some(self.price_feeds[feed_id].price)
            } else {
                None
            },
        }
    }

    /// Why an oracle call of the given cost is refused at time `now`, or
    /// `None` where it is accepted.
    pub open spec fn cost_refusal(self, now: u64, cost: i128) -> Option<ContractError> {
        match (self.cost, self.config) {
            (Some(tracker), Some(config)) => tracker.refusal(cost, config.cost_limit_per_call, now),
            _ => Some(ContractError::NotInitialized),
        }
    }

    /// The state after an accepted oracle call of the given cost at time `now`.
    pub open spec fn with_cost(self, now: u64, cost: i128) -> Self {
        OracleState { cost: Some(self.cost->0.charged(cost, now)), ..self }
    }

    /// The state after one more outcome has been recorded at time `now`.
    pub open spec fn with_outcome(self, now: u64, success: bool, response_time: u64) -> Self {
        OracleState { reliability: self.reliability.recorded(success, response_time, now), ..self }
    }

    /// The statistics reported at time `now`: the cost record (a fresh one
    /// where none has been written), the reliability record and the score.
    pub open spec fn stats(self, now: u64) -> (OracleCost, OracleReliability, u8) {
        (
            match self.cost {
                Some(cost) => cost,
                None => OracleCost::fresh(now),
            },
            self.reliability,
            self.reliability.score() as u8,
        )
    }
}

impl OracleManager {
    /// A manager that holds nothing yet.
    pub fn new() -> (manager: Self)
        ensures
            manager@ == OracleState::empty(),
    {
        OracleManager {
            config: None,
            reliability: OracleReliability::new(),
            cost: None,
            schedule: UpdateSchedule::new(),
            price_feeds: Registry::new(),
            utility_rates: Registry::new(),
        }
    }

    /// Writes the configuration and starts the reliability tracker, the cost
    /// meter and the update schedule anew. Needs the administrator's consent.
    /// A second call overwrites what the first one wrote.
    pub fn initialize_oracle(&mut self, now: u64, admin_authorized: bool, config: OracleConfig) -> (res:
        Result<(), ContractError>)
        ensures
            !admin_authorized ==> res == Err::<(), ContractError>(ContractError::AuthRequired)
                && final(self)@ == old(self)@,
            admin_authorized ==> res is Ok && final(self)@ == old(self)@.initialized(config, now),
            admin_authorized ==> final(self)@.stats(now) == (
                OracleCost::fresh(now),
                OracleReliability::zeroed(),
                50u8,
            ),
    {
        if !admin_authorized {
            return Err(ContractError::AuthRequired);
        }
        self.config = Some(config);
        self.reliability = OracleReliability::new();
        self.cost = Some(OracleCost::new(now));
        self.schedule = UpdateSchedule::new();
        Ok(())
    }

    /// Registers `price_feed` under `feed_id`, in place of the feed that was
    /// registered there, if any. Needs the administrator's consent.
    pub fn add_price_feed(&mut self, admin_authorized: bool, feed_id: &str, price_feed: PriceFeed) -> (res:
        Result<(), ContractError>)
        ensures
            !admin_authorized ==> res == Err::<(), ContractError>(ContractError::AuthRequired)
                && final(self)@ == old(self)@,
            admin_authorized ==> res is Ok && final(self)@ == old(self)@.with_price_feed(
                feed_id@,
                price_feed@,
            ),
    {
        if !admin_authorized {
            return Err(ContractError::AuthRequired);
        }
        self.price_feeds.insert(feed_id, price_feed);
        Ok(())
    }

    /// The price feed registered under `feed_id`, if any.
    pub fn get_price_feed(&self, feed_id: &str) -> (found: Option<PriceFeed>)
        ensures
            match found {
                Some(feed) => self@.price_feed(feed_id@) == Some(feed@),
                None => self@.price_feed(feed_id@) is None,
            },
    {
        match self.price_feeds.get(feed_id) {
            Some(feed) => Some(feed.clone()),
            None => None,
        }
    }

    /// Whether [`Self::update_price_feed`] can count its success: true
    /// wherever the update would be refused anyway.
    pub fn can_update_price_feed(&self, now: u64, feed_id: &str, timestamp: u64) -> (fits: bool)
        ensures
            fits == (self@.price_update_refusal(now, feed_id@, timestamp) is None
                ==> self.reliability.can_record(true)),
    {
        if self.reliability.has_room(true) {
            return true;
        }
        match self.config {
            None => true,
            Some(config) => config.is_too_old(now, timestamp) || !self.price_feeds.contains_key(
                feed_id,
            ),
        }
    }

    /// Writes a new price, stamped `timestamp`, into the feed `feed_id` and
    /// records one success. Anyone may submit an update. The update is
    /// refused where the oracle is not initialized, where the timestamp is
    /// older than the freshness window allows, or where no such feed exists.
    pub fn update_price_feed(&mut self, now: u64, feed_id: &str, new_price: i128, timestamp: u64) -> (res:
        Result<(), ContractError>)
        requires
            old(self)@.price_update_refusal(now, feed_id@, timestamp) is None ==> old(
                self,
            ).reliability.can_record(true),
        ensures
            match old(self)@.price_update_refusal(now, feed_id@, timestamp) {
                Some(e) => res == Err::<(), ContractError>(e) && final(self)@ == old(self)@,
                None => res is Ok && final(self)@ == old(self)@.with_price_update(
                    now,
                    feed_id@,
                    new_price,
                    timestamp,
                ),
            },
    {
        let config = match self.config {
            Some(config) => config,
            None => {
                return Err(ContractError::NotInitialized);
            },
        };
        if config.is_too_old(now, timestamp) {
            return Err(ContractError::DataTooOld);
        }
        let updated = match self.price_feeds.get(feed_id) {
            Some(feed) => feed.with_price(new_price, timestamp),
            None => {
                return Err(ContractError::NotFound);
            },
        };
        self.price_feeds.insert(feed_id, updated);
        self.reliability.record_outcome(true, 0, now);
        Ok(())
    }

    /// Registers `utility_rate` under `rate_id`, in place of the rate that
    /// was registered there, if any. Needs the administrator's consent.
    pub fn add_utility_rate(
        &mut self,
        admin_authorized: bool,
        rate_id: &str,
        utility_rate: UtilityRate,
    ) -> (res: Result<(), ContractError>)
        ensures
            !admin_authorized ==> res == Err::<(), ContractError>(ContractError::AuthRequired)
                && final(self)@ == old(self)@,
            admin_authorized ==> res is Ok && final(self)@ == old(self)@.with_utility_rate(
                rate_id@,
                utility_rate@,
            ),
    {
        if !admin_authorized {
            return Err(ContractError::AuthRequired);
        }
        self.utility_rates.insert(rate_id, utility_rate);
        Ok(())
    }

    /// The utility rate registered under `rate_id`, if any.
    pub fn get_utility_rate(&self, rate_id: &str) -> (found: Option<UtilityRate>)
        ensures
            match found {
                Some(rate) => self@.utility_rate(rate_id@) == Some(rate@),
                None => self@.utility_rate(rate_id@) is None,
            },
    {
        match self.utility_rates.get(rate_id) {
            Some(rate) => Some(rate.clone()),
            None => None,
        }
    }

    /// Whether [`Self::update_utility_rate`] can count its success: true
    /// wherever the update would be refused anyway.
    pub fn can_update_utility_rate(&self, now: u64, rate_id: &str, timestamp: u64) -> (fits: bool)
        ensures
            fits == (self@.rate_update_refusal(now, rate_id@, timestamp) is None
                ==> self.reliability.can_record(true)),
    {
        if self.reliability.has_room(true) {
            return true;
        }
        match self.config {
            None => true,
            Some(config) => config.is_too_old(now, timestamp) || !self.utility_rates.contains_key(
                rate_id,
            ),
        }
    }

    /// Writes a new rate, stamped `timestamp`, into the record `rate_id` and
    /// records one success. Anyone may submit an update. The update is
    /// refused where the oracle is not initialized, where the timestamp is
    /// older than the freshness window allows, or where no such rate exists.
    pub fn update_utility_rate(&mut self, now: u64, rate_id: &str, new_rate: i128, timestamp: u64) -> (res:
        Result<(), ContractError>)
        requires
            old(self)@.rate_update_refusal(now, rate_id@, timestamp) is None ==> old(
                self,
            ).reliability.can_record(true),
        ensures
            match old(self)@.rate_update_refusal(now, rate_id@, timestamp) {
                Some(e) => res == Err::<(), ContractError>(e) && final(self)@ == old(self)@,
                None => res is Ok && final(self)@ == old(self)@.with_rate_update(
                    now,
                    rate_id@,
                    new_rate,
                    timestamp,
                ),
            },
    {
        let config = match self.config {
            Some(config) => config,
            None => {
                return Err(ContractError::NotInitialized);
            },
        };
        if config.is_too_old(now, timestamp) {
            return Err(ContractError::DataTooOld);
        }
        let updated = match self.utility_rates.get(rate_id) {
            Some(rate) => rate.with_rate(new_rate, timestamp),
            None => {
                return Err(ContractError::NotFound);
            },
        };
        self.utility_rates.insert(rate_id, updated);
        self.reliability.record_outcome(true, 0, now);
        Ok(())
    }

    /// Whether `data` lies within `min_value..=max_value` and is, up to a
    /// hundredth, a multiple of `10^decimals`.
    pub fn validate_external_data(data: i128, min_value: i128, max_value: i128, decimals: u32) -> (valid:
        bool)
        requires
            decimals <= MAX_DECIMALS,
        ensures
            valid == data_is_valid(data, min_value, max_value, decimals),
    {
        if data < min_value || data > max_value {
            return false;
        }
        let divisor: i128 = pow10(decimals);
        let remainder: i128 = data % divisor;
        let tolerance: i128 = divisor / 100;
        remainder <= tolerance
    }

    /// The cached price of the feed `feed_id`, where fallback is enabled and
    /// the price is no older than twice the freshness window.
    pub fn get_fallback_price(&self, now: u64, feed_id: &str) -> (price: Option<i128>)
        ensures
            price == self@.fallback_price(now, feed_id@),
    {
        let config = match self.config {
            Some(config) => config,
            None => {
                return None;
            },
        };
        if !config.fallback_enabled {
            return None;
        }
        match self.price_feeds.get(feed_id) {
            Some(feed) => if config.is_within_fallback_window(now, feed.last_updated) {
                Some(feed.price)
            } else {
                None
            },
            None => None,
        }
    }

    /// Records the outcome of one oracle write observed at time `now`.
    pub fn update_reliability(&mut self, now: u64, success: bool, response_time: u64)
        requires
            old(self).reliability.can_record(success),
        ensures
            final(self)@ == old(self)@.with_outcome(now, success, response_time),
    {
        self.reliability.record_outcome(success, response_time, now);
    }

    /// The reliability score of the oracle subsystem, from 0 to 100.
    pub fn get_reliability_score(&self) -> (score: u8)
        ensures
            score == self@.reliability.score(),
            score <= 100,
    {
        self.reliability.reliability_score()
    }

    /// Whether [`Self::track_oracle_cost`] can add the cost to its counters:
    /// true wherever the call would be refused anyway.
    pub fn can_track_oracle_cost(&self, now: u64, cost: i128) -> (fits: bool)
        ensures
            fits == (self@.cost_refusal(now, cost) is None ==> self.cost->0.charge_fits(cost, now)),
    {
        match (self.cost, self.config) {
            (Some(tracker), Some(config)) => {
                if tracker.has_room(cost, now) {
                    true
                } else {
                    cost > config.cost_limit_per_call || tracker.exceeds_daily_limit(cost, now)
                }
            },
            _ => true,
        }
    }

    /// Meters one oracle call of the given cost at time `now`. The call is
    /// refused where the oracle is not initialized, where the cost is above
    /// the ceiling for a single call, or where it would take the day's
    /// spending above the daily limit.
    pub fn track_oracle_cost(&mut self, now: u64, cost: i128) -> (res: Result<(), ContractError>)
        requires
            old(self)@.cost_refusal(now, cost) is None ==> old(self).cost->0.charge_fits(cost, now),
        ensures
            match old(self)@.cost_refusal(now, cost) {
                Some(e) => res == Err::<(), ContractError>(e) && final(self)@ == old(self)@,
                None => res is Ok && final(self)@ == old(self)@.with_cost(now, cost),
            },
    {
        let mut tracker = match self.cost {
            Some(tracker) => tracker,
            None => {
                return Err(ContractError::NotInitialized);
            },
        };
        let config = match self.config {
            Some(config) => config,
            None => {
                return Err(ContractError::NotInitialized);
            },
        };
        match tracker.track_cost(cost, config.cost_limit_per_call, now) {
            Ok(()) => {
                self.cost = Some(tracker);
                Ok(())
            },
            Err(e) => Err(e),
        }
    }

    /// Whether the price feeds are due for a refresh at time `now`.
    pub fn should_update_price_feeds(&self, now: u64) -> (due: bool)
        ensures
            due == self@.schedule.price_feeds_due(now),
    {
        self.schedule.should_update_price_feeds(now)
    }

    /// Whether the utility rates are due for a refresh at time `now`.
    pub fn should_update_utility_rates(&self, now: u64) -> (due: bool)
        ensures
            due == self@.schedule.utility_rates_due(now),
    {
        self.schedule.should_update_utility_rates(now)
    }

    /// Records that the price feeds were refreshed at time `now`.
    pub fn mark_price_feeds_updated(&mut self, now: u64)
        ensures
            final(self)@ == (OracleState {
                schedule: old(self)@.schedule.with_price_update(now),
                ..old(self)@
            }),
    {
        self.schedule.mark_price_feeds_updated(now);
    }

    /// Records that the utility rates were refreshed at time `now`.
    pub fn mark_utility_rates_updated(&mut self, now: u64)
        ensures
            final(self)@ == (OracleState {
                schedule: old(self)@.schedule.with_utility_update(now),
                ..old(self)@
            }),
    {
        self.schedule.mark_utility_rates_updated(now);
    }

    /// The cost record, the reliability record and the reliability score. A
    /// manager whose cost record has not been written reports a fresh one
    /// that begins at `now`.
    pub fn get_oracle_stats(&self, now: u64) -> (stats: (OracleCost, OracleReliability, u8))
        ensures
            stats == self@.stats(now),
    {
        let cost = match self.cost {
            Some(cost) => cost,
            None => OracleCost::new(now),
        };
        (cost, self.reliability, self.reliability.reliability_score())
    }
}

/// Right after initialization the statistics show a cost record with nothing
/// spent, a reliability record with nothing counted, and the neutral score
/// of 50, whatever the state was before and whenever they are read.
pub proof fn lemma_stats_after_initialize(before: OracleState, config: OracleConfig, now: u64, read_at: u64)
    ensures
        before.initialized(config, now).stats(read_at) == (
            OracleCost::fresh(now),
            OracleReliability::zeroed(),
            50u8,
        ),
        before.initialized(config, now).stats(read_at).0.total_spent == 0,
        before.initialized(config, now).stats(read_at).0.calls_made == 0,
        before.initialized(config, now).stats(read_at).0.daily_spent == 0,
        before.initialized(config, now).stats(read_at).1.total_calls() == 0,
{
}

/// An update is refused as too old exactly when its timestamp lies more than
/// `max_age_seconds` before `now`. At the boundary, and for any later
/// timestamp, an update of a registered feed is accepted and the feed then
/// carries the new price and the new timestamp.
pub proof fn lemma_freshness_boundary(
    state: OracleState,
    now: u64,
    feed_id: Seq<char>,
    new_price: i128,
    timestamp: u64,
)
    requires
        state.config is Some,
        state.price_feeds.contains_key(feed_id),
    ensures
        now - timestamp > state.config->0.max_age_seconds ==> state.price_update_refusal(
            now,
            feed_id,
            timestamp,
        ) == Some(ContractError::DataTooOld),
        now - timestamp <= state.config->0.max_age_seconds ==> {
            &&& state.price_update_refusal(now, feed_id, timestamp) is None
            &&& state.with_price_update(now, feed_id, new_price, timestamp).price_feed(feed_id)
                == Some(state.price_feeds[feed_id].updated(new_price, timestamp))
            &&& state.with_price_update(now, feed_id, new_price, timestamp).price_feeds[feed_id].price
                == new_price
            &&& state.with_price_update(
                now,
                feed_id,
                new_price,
                timestamp,
            ).price_feeds[feed_id].last_updated == timestamp
        },
{
}

/// The same holds of the utility rates.
pub proof fn lemma_rate_freshness_boundary(
    state: OracleState,
    now: u64,
    rate_id: Seq<char>,
    new_rate: i128,
    timestamp: u64,
)
    requires
        state.config is Some,
        state.utility_rates.contains_key(rate_id),
    ensures
        now - timestamp > state.config->0.max_age_seconds ==> state.rate_update_refusal(
            now,
            rate_id,
            timestamp,
        ) == Some(ContractError::DataTooOld),
        now - timestamp <= state.config->0.max_age_seconds ==> {
            &&& state.rate_update_refusal(now, rate_id, timestamp) is None
            &&& state.with_rate_update(now, rate_id, new_rate, timestamp).utility_rate(rate_id)
                == Some(state.utility_rates[rate_id].updated(new_rate, timestamp))
        },
{
}

/// A registered record is found under its identifier, and registering it
/// leaves the records under every other identifier as they were.
pub proof fn lemma_registered_feed_is_found(
    state: OracleState,
    feed_id: Seq<char>,
    feed: PriceFeedView,
    other_id: Seq<char>,
)
    ensures
        state.with_price_feed(feed_id, feed).price_feed(feed_id) == Some(feed),
        other_id != feed_id ==> state.with_price_feed(feed_id, feed).price_feed(other_id)
            == state.price_feed(other_id),
{
}

} // verus!
