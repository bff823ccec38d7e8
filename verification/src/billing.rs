//! The billing engine: turns a payment request into the amount to debit,
//! using the oracle's rates and prices, and keeps the ledgers of each meter.

use crate::arith::{checked_scale_by_price, fits_i128, scale_by_price, MAX_DECIMALS};
use crate::config::OracleConfig;
use crate::cost::OracleCost;
use crate::error::ContractError;
use crate::feeds::{PriceFeed, UtilityRate};
use crate::keys::{billing_key, billing_record_key, join, joined, usd_feed_id, usd_feed_key};
use crate::oracle::{OracleManager, OracleState};
use crate::registry::Registry;
use crate::reliability::OracleReliability;
use vstd::prelude::*;

verus! {

/// One consumption-based payment: what was consumed, at which rate, what was
/// charged in the end, and for which kind of utility.
#[derive(Debug, PartialEq, Eq)]
pub struct BillingRecord {
    pub kwh_consumed: i128,
    pub rate_per_kwh: i128,
    pub amount: i128,
    pub utility_type: String,
}

/// What a [`BillingRecord`] holds, as mathematical values.
pub struct BillingRecordView {
    pub kwh_consumed: i128,
    pub rate_per_kwh: i128,
    pub amount: i128,
    pub utility_type: Seq<char>,
}

impl View for BillingRecord {
    type V = BillingRecordView;

    open spec fn view(&self) -> BillingRecordView {
        BillingRecordView {
            kwh_consumed: self.kwh_consumed,
            rate_per_kwh: self.rate_per_kwh,
            amount: self.amount,
            utility_type: self.utility_type@,
        }
    }
}

impl Clone for BillingRecord {
    fn clone(&self) -> (copy: Self)
        ensures
            copy@ == self@,
    {
        BillingRecord {
            kwh_consumed: self.kwh_consumed,
            rate_per_kwh: self.rate_per_kwh,
            amount: self.amount,
            utility_type: self.utility_type.clone(),
        }
    }
}

/// The billing contract: the oracle manager it consults and the two ledgers
/// it keeps, the accumulated total of each meter and the detailed records of
/// consumption-based payments.
#[derive(Debug, PartialEq, Eq)]
pub struct NepaBillingContract {
    pub oracle: OracleManager,
    pub totals: Registry<i128>,
    pub details: Registry<BillingRecord>,
}

/// The state of the billing contract as mathematical values. The detailed
/// records are kept under the billing key of their meter and ledger time.
pub struct BillingState {
    pub oracle: OracleState,
    pub totals: Map<Seq<char>, i128>,
    pub details: Map<Seq<char>, BillingRecordView>,
}

impl View for NepaBillingContract {
    type V = BillingState;

    open spec fn view(&self) -> BillingState {
        BillingState { oracle: self.oracle@, totals: self.totals@, details: self.details@ }
    }
}

/// What a payment of `amount` in `currency` costs in the end: the amount
/// itself, or, where an exchange rate is asked for, the amount converted by
/// the price feed from `currency` to US dollars. The conversion is refused
/// where that feed is missing, where the oracle is not initialized, or where
/// the feed's reliability score is below the configured minimum.
pub open spec fn exchange_charge(
    oracle: OracleState,
    amount: i128,
    currency: Seq<char>,
    use_exchange_rate: bool,
) -> Result<int, ContractError> {
    if !use_exchange_rate {
        Ok(amount as int)
    } else {
        match (oracle.price_feed(usd_feed_id(currency)), oracle.config) {
            (None, _) => Err(ContractError::ExchangeRateUnavailable),
            (Some(_), None) => Err(ContractError::NotInitialized),
            (Some(feed), Some(config)) => if feed.reliability_score < config.min_reliability_score {
                Err(ContractError::ReliabilityTooLow)
            } else {
                Ok(scale_by_price(amount as int, feed.price as int, feed.decimals as nat))
            },
        }
    }
}

/// Whether the conversion behind [`exchange_charge`] runs on the machine's
/// integers: the power of ten and the product of amount and price fit.
pub open spec fn exchange_charge_fits(
    oracle: OracleState,
    amount: i128,
    currency: Seq<char>,
    use_exchange_rate: bool,
) -> bool {
    use_exchange_rate && exchange_charge(oracle, amount, currency, use_exchange_rate) is Ok ==> {
        let feed = oracle.price_feeds[usd_feed_id(currency)];
        feed.decimals <= MAX_DECIMALS && fits_i128(amount * feed.price)
    }
}

/// The outcome of pricing a consumption: the rate that was applied and the
/// amount to charge.
pub struct UtilityCharge {
    pub rate_per_kwh: i128,
    pub amount: int,
}

/// What `kwh_consumed` of a utility in a region costs in `currency`: the
/// consumption times the registered rate, converted by the price feed from
/// the rate's currency to `currency` where the two differ. Pricing is refused
/// where the rate is missing, where the oracle is not initialized, where the
/// rate's reliability score is below the configured minimum, or where the
/// conversion is needed and its feed is missing.
pub open spec fn utility_charge(
    oracle: OracleState,
    kwh_consumed: i128,
    utility_type: Seq<char>,
    region: Seq<char>,
    currency: Seq<char>,
) -> Result<UtilityCharge, ContractError> {
    match (oracle.utility_rate(joined(utility_type, region)), oracle.config) {
        (None, _) => Err(ContractError::RateUnavailable),
        (Some(_), None) => Err(ContractError::NotInitialized),
        (Some(rate), Some(config)) => {
            let subtotal = kwh_consumed * rate.rate_per_kwh;
            if rate.reliability_score < config.min_reliability_score {
                Err(ContractError::ReliabilityTooLow)
            } else if rate.currency == currency {
                Ok(UtilityCharge { rate_per_kwh: rate.rate_per_kwh, amount: subtotal })
            } else {
                match oracle.price_feed(joined(rate.currency, currency)) {
                    None => Err(ContractError::ExchangeRateUnavailable),
                    Some(feed) => Ok(
                        UtilityCharge {
                            rate_per_kwh: rate.rate_per_kwh,
                            amount: scale_by_price(subtotal, feed.price as int, feed.decimals as nat),
                        },
                    ),
                }
            }
        },
    }
}

/// Whether the pricing behind [`utility_charge`] runs on the machine's
/// integers: the subtotal fits and, where a conversion is needed, so do the
/// power of ten and the product of subtotal and price.
pub open spec fn utility_charge_fits(
    oracle: OracleState,
    kwh_consumed: i128,
    utility_type: Seq<char>,
    region: Seq<char>,
    currency: Seq<char>,
) -> bool {
    utility_charge(oracle, kwh_consumed, utility_type, region, currency) is Ok ==> {
        let rate = oracle.utility_rates[joined(utility_type, region)];
        let subtotal = kwh_consumed * rate.rate_per_kwh;
        &&& fits_i128(subtotal)
        &&& rate.currency != currency ==> {
            let feed = oracle.price_feeds[joined(rate.currency, currency)];
            feed.decimals <= MAX_DECIMALS && fits_i128(subtotal * feed.price)
        }
    }
}

impl BillingState {
    /// The state before anything has been written.
    pub open spec fn empty() -> Self {
        BillingState { oracle: OracleState::empty(), totals: Map::empty(), details: Map::empty() }
    }

    /// What has been paid for `meter_id` so far; zero for a meter without payments.
    pub open spec fn total_paid(self, meter_id: Seq<char>) -> int {
        if self.totals.contains_key(meter_id) {
            self.totals[meter_id] as int
        } else {
            0
        }
    }

    /// The state after `amount` has been added to the total of `meter_id`.
    pub open spec fn credited(self, meter_id: Seq<char>, amount: int) -> Self
        recommends
            fits_i128(self.total_paid(meter_id) + amount),
    {
        BillingState {
            totals: self.totals.insert(meter_id, (self.total_paid(meter_id) + amount) as i128),
            ..self
        }
    }

    /// The detailed record of `meter_id` at ledger time `timestamp`, if any.
    pub open spec fn billing_details(self, meter_id: Seq<char>, timestamp: u64) -> Option<
        BillingRecordView,
    > {
        if self.details.contains_key(billing_key(meter_id, timestamp)) {
            Some(self.details[billing_key(meter_id, timestamp)])
        } else {
            None
        }
    }

    /// The state after `record` has been written for `meter_id` at ledger time `now`.
    pub open spec fn with_record(self, meter_id: Seq<char>, now: u64, record: BillingRecordView) -> Self {
        BillingState { details: self.details.insert(billing_key(meter_id, now), record), ..self }
    }

    /// Whether the total of `meter_id` can take `amount` more.
    pub open spec fn pay_bill_fits(self, meter_id: Seq<char>, amount: i128) -> bool {
        fits_i128(self.total_paid(meter_id) + amount)
    }

    /// Whether a payment through the oracle runs on the machine's integers:
    /// the conversion does, and the total of `meter_id` can take the charge.
    pub open spec fn pay_bill_with_oracle_fits(
        self,
        meter_id: Seq<char>,
        amount: i128,
        currency: Seq<char>,
        use_exchange_rate: bool,
    ) -> bool {
        match exchange_charge(self.oracle, amount, currency, use_exchange_rate) {
            Ok(charge) => exchange_charge_fits(self.oracle, amount, currency, use_exchange_rate)
                && fits_i128(self.total_paid(meter_id) + charge),
            Err(_) => true,
        }
    }
}

impl NepaBillingContract {
    /// A contract that holds nothing yet.
    pub fn new() -> (contract: Self)
        ensures
            contract@ == BillingState::empty(),
    {
        NepaBillingContract {
            oracle: OracleManager::new(),
            totals: Registry::new(),
            details: Registry::new(),
        }
    }

    /// Initializes the oracle with `oracle_config`. Needs the administrator's consent.
    pub fn initialize(&mut self, now: u64, admin_authorized: bool, oracle_config: OracleConfig) -> (res:
        Result<(), ContractError>)
        ensures
            !admin_authorized ==> res == Err::<(), ContractError>(ContractError::AuthRequired)
                && final(self)@ == old(self)@,
            admin_authorized ==> res is Ok && final(self)@ == (BillingState {
                oracle: old(self)@.oracle.initialized(oracle_config, now),
                ..old(self)@
            }),
    {
        self.oracle.initialize_oracle(now, admin_authorized, oracle_config)
    }

    /// The charge of a payment through the oracle, as [`exchange_charge`]
    /// states it; `None` where the conversion does not fit the machine's integers.
    pub fn quote_with_oracle(&self, amount: i128, currency: &str, use_exchange_rate: bool) -> (quote:
        Option<Result<i128, ContractError>>)
        ensures
            quote is Some <==> exchange_charge_fits(
                self@.oracle,
                amount,
                currency@,
                use_exchange_rate,
            ),
            quote is Some ==> match (
                quote->0,
                exchange_charge(self@.oracle, amount, currency@, use_exchange_rate),
            ) {
                (Ok(charge), Ok(stated)) => charge == stated,
                (Err(e), Err(stated)) => e == stated,
                _ => false,
            },
    {
        if !use_exchange_rate {
            return Some(Ok(amount));
        }
        let feed_id = usd_feed_key(currency);
        let feed = match self.oracle.price_feeds.get(feed_id.as_str()) {
            Some(feed) => feed,
            None => {
                return Some(Err(ContractError::ExchangeRateUnavailable));
            },
        };
        let config = match self.oracle.config {
            Some(config) => config,
            None => {
                return Some(Err(ContractError::NotInitialized));
            },
        };
        if feed.reliability_score < config.min_reliability_score {
            return Some(Err(ContractError::ReliabilityTooLow));
        }
        match checked_scale_by_price(amount, feed.price, feed.decimals) {
            Some(charge) => Some(Ok(charge)),
            None => None,
        }
    }

    /// The charge for a consumption, as [`utility_charge`] states it, with
    /// the rate that was applied; `None` where the pricing does not fit the
    /// machine's integers.
    pub fn quote_utility_bill(
        &self,
        kwh_consumed: i128,
        utility_type: &str,
        region: &str,
        currency: &str,
    ) -> (quote: Option<Result<(i128, i128), ContractError>>)
        ensures
            quote is Some <==> utility_charge_fits(
                self@.oracle,
                kwh_consumed,
                utility_type@,
                region@,
                currency@,
            ),
            quote is Some ==> match (
                quote->0,
                utility_charge(self@.oracle, kwh_consumed, utility_type@, region@, currency@),
            ) {
                (Ok(charge), Ok(stated)) => charge.0 == stated.rate_per_kwh && charge.1
                    == stated.amount,
                (Err(e), Err(stated)) => e == stated,
                _ => false,
            },
    {
        let rate_id = join(utility_type, region);
        let rate = match self.oracle.utility_rates.get(rate_id.as_str()) {
            Some(rate) => rate,
            None => {
                return Some(Err(ContractError::RateUnavailable));
            },
        };
        let config = match self.oracle.config {
            Some(config) => config,
            None => {
                return Some(Err(ContractError::NotInitialized));
            },
        };
        if rate.reliability_score < config.min_reliability_score {
            return Some(Err(ContractError::ReliabilityTooLow));
        }
        let requested = String::from_str(currency);
        if rate.currency == requested {
            return match kwh_consumed.checked_mul(rate.rate_per_kwh) {
                Some(subtotal) => Some(Ok((rate.rate_per_kwh, subtotal))),
                None => None,
            };
        }
        let feed_id = join(rate.currency.as_str(), currency);
        let feed = match self.oracle.price_feeds.get(feed_id.as_str()) {
            Some(feed) => feed,
            None => {
                return Some(Err(ContractError::ExchangeRateUnavailable));
            },
        };
        let subtotal = match kwh_consumed.checked_mul(rate.rate_per_kwh) {
            Some(subtotal) => subtotal,
            None => {
                return None;
            },
        };
        match checked_scale_by_price(subtotal, feed.price, feed.decimals) {
            Some(charge) => Some(Ok((rate.rate_per_kwh, charge))),
            None => None,
        }
    }

    /// Adds `amount` to the total of `meter_id`.
    fn credit(&mut self, meter_id: &str, amount: i128)
        requires
            fits_i128(old(self)@.total_paid(meter_id@) + amount),
        ensures
            final(self)@ == old(self)@.credited(meter_id@, amount as int),
    {
        let current: i128 = match self.totals.get(meter_id) {
            Some(total) => *total,
            None => 0,
        };
        self.totals.insert(meter_id, current + amount);
    }

    /// Whether [`Self::pay_bill`] can add `amount` to the total of `meter_id`.
    pub fn can_pay_bill(&self, meter_id: &str, amount: i128) -> (fits: bool)
        ensures
            fits == self@.pay_bill_fits(meter_id@, amount),
    {
        self.get_total_paid(meter_id).checked_add(amount).is_some()
    }

    /// Whether [`Self::pay_bill_with_oracle`] runs on the machine's integers.
    pub fn can_pay_bill_with_oracle(
        &self,
        meter_id: &str,
        amount: i128,
        currency: &str,
        use_exchange_rate: bool,
    ) -> (fits: bool)
        ensures
            fits == self@.pay_bill_with_oracle_fits(meter_id@, amount, currency@, use_exchange_rate),
    {
        match self.quote_with_oracle(amount, currency, use_exchange_rate) {
            Some(Ok(charge)) => self.get_total_paid(meter_id).checked_add(charge).is_some(),
            Some(Err(_)) => true,
            None => false,
        }
    }

    /// Whether [`Self::pay_utility_bill`] runs on the machine's integers.
    pub fn can_pay_utility_bill(
        &self,
        kwh_consumed: i128,
        utility_type: &str,
        region: &str,
        currency: &str,
    ) -> (fits: bool)
        ensures
            fits == utility_charge_fits(
                self@.oracle,
                kwh_consumed,
                utility_type@,
                region@,
                currency@,
            ),
    {
        self.quote_utility_bill(kwh_consumed, utility_type, region, currency).is_some()
    }

    /// Pays `amount` toward `meter_id`, converted to US dollars by the price
    /// feed of `currency` where `use_exchange_rate` is set. Needs the payer's
    /// consent. Returns the amount to debit from the payer, which has been
    /// added to the meter's total.
    pub fn pay_bill_with_oracle(
        &mut self,
        payer_authorized: bool,
        meter_id: &str,
        amount: i128,
        currency: &str,
        use_exchange_rate: bool,
    ) -> (res: Result<i128, ContractError>)
        requires
            payer_authorized ==> old(self)@.pay_bill_with_oracle_fits(
                meter_id@,
                amount,
                currency@,
                use_exchange_rate,
            ),
        ensures
            !payer_authorized ==> res == Err::<i128, ContractError>(ContractError::AuthRequired)
                && final(self)@ == old(self)@,
            payer_authorized ==> match exchange_charge(
                old(self)@.oracle,
                amount,
                currency@,
                use_exchange_rate,
            ) {
                Ok(charge) => res is Ok && res->Ok_0 == charge && final(self)@ == old(
                    self,
                )@.credited(meter_id@, charge),
                Err(e) => res == Err::<i128, ContractError>(e) && final(self)@ == old(self)@,
            },
    {
        if !payer_authorized {
            return Err(ContractError::AuthRequired);
        }
        match self.quote_with_oracle(amount, currency, use_exchange_rate).unwrap() {
            Ok(charge) => {
                self.credit(meter_id, charge);
                Ok(charge)
            },
            Err(e) => Err(e),
        }
    }

    /// Pays for `kwh_consumed` of a utility in a region at the registered
    /// rate, in `currency`. Needs the payer's consent. Returns the amount to
    /// debit from the payer, and writes the detailed record of the payment
    /// for `meter_id` at ledger time `now`.
    pub fn pay_utility_bill(
        &mut self,
        now: u64,
        payer_authorized: bool,
        meter_id: &str,
        kwh_consumed: i128,
        utility_type: &str,
        region: &str,
        currency: &str,
    ) -> (res: Result<i128, ContractError>)
        requires
            payer_authorized ==> utility_charge_fits(
                old(self)@.oracle,
                kwh_consumed,
                utility_type@,
                region@,
                currency@,
            ),
        ensures
            !payer_authorized ==> res == Err::<i128, ContractError>(ContractError::AuthRequired)
                && final(self)@ == old(self)@,
            payer_authorized ==> match utility_charge(
                old(self)@.oracle,
                kwh_consumed,
                utility_type@,
                region@,
                currency@,
            ) {
                Ok(charge) => res is Ok && res->Ok_0 == charge.amount && final(self)@ == old(
                    self,
                )@.with_record(
                    meter_id@,
                    now,
                    BillingRecordView {
                        kwh_consumed,
                        rate_per_kwh: charge.rate_per_kwh,
                        amount: res->Ok_0,
                        utility_type: utility_type@,
                    },
                ),
                Err(e) => res == Err::<i128, ContractError>(e) && final(self)@ == old(self)@,
            },
    {
        if !payer_authorized {
            return Err(ContractError::AuthRequired);
        }
        match self.quote_utility_bill(kwh_consumed, utility_type, region, currency).unwrap() {
            Ok((rate_per_kwh, amount)) => {
                let key = billing_record_key(meter_id, now);
                let record = BillingRecord {
                    kwh_consumed,
                    rate_per_kwh,
                    amount,
                    utility_type: String::from_str(utility_type),
                };
                self.details.insert(key.as_str(), record);
                Ok(amount)
            },
            Err(e) => Err(e),
        }
    }

    /// Pays `amount` toward `meter_id` without consulting the oracle. Needs
    /// the payer's consent. Returns the amount to debit from the payer, which
    /// has been added to the meter's total.
    pub fn pay_bill(&mut self, payer_authorized: bool, meter_id: &str, amount: i128) -> (res: Result<
        i128,
        ContractError,
    >)
        requires
            payer_authorized ==> old(self)@.pay_bill_fits(meter_id@, amount),
        ensures
            !payer_authorized ==> res == Err::<i128, ContractError>(ContractError::AuthRequired)
                && final(self)@ == old(self)@,
            payer_authorized ==> res == Ok::<i128, ContractError>(amount) && final(self)@ == old(
                self,
            )@.credited(meter_id@, amount as int),
            payer_authorized ==> final(self)@.total_paid(meter_id@) == old(self)@.total_paid(
                meter_id@,
            ) + amount,
    {
        if !payer_authorized {
            return Err(ContractError::AuthRequired);
        }
        self.credit(meter_id, amount);
        Ok(amount)
    }

    /// What has been paid for `meter_id` so far; zero for a meter without payments.
    pub fn get_total_paid(&self, meter_id: &str) -> (total: i128)
        ensures
            total == self@.total_paid(meter_id@),
    {
        match self.totals.get(meter_id) {
            Some(total) => *total,
            None => 0,
        }
    }

    /// The detailed record of `meter_id` at ledger time `timestamp`, if any:
    /// consumption, rate, amount charged and kind of utility.
    pub fn get_billing_details(&self, meter_id: &str, timestamp: u64) -> (found: Option<
        (i128, i128, i128, String),
    >)
        ensures
            match found {
                Some(record) => self@.billing_details(meter_id@, timestamp) == Some(
                    BillingRecordView {
                        kwh_consumed: record.0,
                        rate_per_kwh: record.1,
                        amount: record.2,
                        utility_type: record.3@,
                    },
                ),
                None => self@.billing_details(meter_id@, timestamp) is None,
            },
    {
        let key = billing_record_key(meter_id, timestamp);
        match self.details.get(key.as_str()) {
            Some(record) => Some(
                (
                    record.kwh_consumed,
                    record.rate_per_kwh,
                    record.amount,
                    record.utility_type.clone(),
                ),
            ),
            None => None,
        }
    }

    /// Registers a price feed with the oracle manager. Needs the administrator's consent.
    pub fn add_price_feed(&mut self, admin_authorized: bool, feed_id: &str, price_feed: PriceFeed) -> (res:
        Result<(), ContractError>)
        ensures
            !admin_authorized ==> res == Err::<(), ContractError>(ContractError::AuthRequired)
                && final(self)@ == old(self)@,
            admin_authorized ==> res is Ok && final(self)@ == (BillingState {
                oracle: old(self)@.oracle.with_price_feed(feed_id@, price_feed@),
                ..old(self)@
            }),
    {
        self.oracle.add_price_feed(admin_authorized, feed_id, price_feed)
    }

    /// Submits a new price to the oracle manager.
    pub fn update_price_feed(&mut self, now: u64, feed_id: &str, new_price: i128, timestamp: u64) -> (res:
        Result<(), ContractError>)
        requires
            old(self)@.oracle.price_update_refusal(now, feed_id@, timestamp) is None ==> old(
                self,
            ).oracle.reliability.can_record(true),
        ensures
            match old(self)@.oracle.price_update_refusal(now, feed_id@, timestamp) {
                Some(e) => res == Err::<(), ContractError>(e) && final(self)@ == old(self)@,
                None => res is Ok && final(self)@ == (BillingState {
                    oracle: old(self)@.oracle.with_price_update(now, feed_id@, new_price, timestamp),
                    ..old(self)@
                }),
            },
    {
        self.oracle.update_price_feed(now, feed_id, new_price, timestamp)
    }

    /// The price feed registered under `feed_id`, if any.
    pub fn get_price_feed(&self, feed_id: &str) -> (found: Option<PriceFeed>)
        ensures
            match found {
                Some(feed) => self@.oracle.price_feed(feed_id@) == Some(feed@),
                None => self@.oracle.price_feed(feed_id@) is None,
            },
    {
        self.oracle.get_price_feed(feed_id)
    }

    /// Registers a utility rate with the oracle manager. Needs the administrator's consent.
    pub fn add_utility_rate(
        &mut self,
        admin_authorized: bool,
        rate_id: &str,
        utility_rate: UtilityRate,
    ) -> (res: Result<(), ContractError>)
        ensures
            !admin_authorized ==> res == Err::<(), ContractError>(ContractError::AuthRequired)
                && final(self)@ == old(self)@,
            admin_authorized ==> res is Ok && final(self)@ == (BillingState {
                oracle: old(self)@.oracle.with_utility_rate(rate_id@, utility_rate@),
                ..old(self)@
            }),
    {
        self.oracle.add_utility_rate(admin_authorized, rate_id, utility_rate)
    }

    /// Submits a new utility rate to the oracle manager.
    pub fn update_utility_rate(&mut self, now: u64, rate_id: &str, new_rate: i128, timestamp: u64) -> (res:
        Result<(), ContractError>)
        requires
            old(self)@.oracle.rate_update_refusal(now, rate_id@, timestamp) is None ==> old(
                self,
            ).oracle.reliability.can_record(true),
        ensures
            match old(self)@.oracle.rate_update_refusal(now, rate_id@, timestamp) {
                Some(e) => res == Err::<(), ContractError>(e) && final(self)@ == old(self)@,
                None => res is Ok && final(self)@ == (BillingState {
                    oracle: old(self)@.oracle.with_rate_update(now, rate_id@, new_rate, timestamp),
                    ..old(self)@
                }),
            },
    {
        self.oracle.update_utility_rate(now, rate_id, new_rate, timestamp)
    }

    /// The utility rate registered under `rate_id`, if any.
    pub fn get_utility_rate(&self, rate_id: &str) -> (found: Option<UtilityRate>)
        ensures
            match found {
                Some(rate) => self@.oracle.utility_rate(rate_id@) == Some(rate@),
                None => self@.oracle.utility_rate(rate_id@) is None,
            },
    {
        self.oracle.get_utility_rate(rate_id)
    }

    /// The oracle's cost record, reliability record and reliability score.
    pub fn get_oracle_stats(&self, now: u64) -> (stats: (OracleCost, OracleReliability, u8))
        ensures
            stats == self@.oracle.stats(now),
    {
        self.oracle.get_oracle_stats(now)
    }

    /// Whether the price feeds and the utility rates are due for a refresh at time `now`.
    pub fn should_update_oracles(&self, now: u64) -> (due: (bool, bool))
        ensures
            due.0 == self@.oracle.schedule.price_feeds_due(now),
            due.1 == self@.oracle.schedule.utility_rates_due(now),
    {
        (self.oracle.should_update_price_feeds(now), self.oracle.should_update_utility_rates(now))
    }
}

/// Two payments toward one meter add up: after both, the meter's total is
/// what it was before plus the two amounts, which for a meter without earlier
/// payments is their sum.
pub proof fn lemma_payments_accumulate(state: BillingState, meter_id: Seq<char>, first: i128, second: i128)
    requires
        fits_i128(state.total_paid(meter_id) + first),
        fits_i128(state.total_paid(meter_id) + first + second),
    ensures
        state.credited(meter_id, first as int).credited(meter_id, second as int).total_paid(meter_id)
            == state.total_paid(meter_id) + first + second,
        !state.totals.contains_key(meter_id) ==> state.credited(meter_id, first as int).credited(
            meter_id,
            second as int,
        ).total_paid(meter_id) == first + second,
{
}

/// The order of two payments toward one meter does not matter.
pub proof fn lemma_payments_commute(state: BillingState, meter_id: Seq<char>, first: i128, second: i128)
    requires
        fits_i128(state.total_paid(meter_id) + first),
        fits_i128(state.total_paid(meter_id) + second),
        fits_i128(state.total_paid(meter_id) + first + second),
    ensures
        state.credited(meter_id, first as int).credited(meter_id, second as int) == state.credited(
            meter_id,
            second as int,
        ).credited(meter_id, first as int),
{
    let one = state.credited(meter_id, first as int).credited(meter_id, second as int);
    let other = state.credited(meter_id, second as int).credited(meter_id, first as int);
    assert(one.totals =~= other.totals);
}

/// A payment toward one meter leaves the total of every other meter, and
/// every detailed record, as it was.
pub proof fn lemma_payment_is_per_meter(
    state: BillingState,
    meter_id: Seq<char>,
    amount: i128,
    other_meter: Seq<char>,
)
    requires
        other_meter != meter_id,
    ensures
        state.credited(meter_id, amount as int).total_paid(other_meter) == state.total_paid(
            other_meter,
        ),
        state.credited(meter_id, amount as int).details == state.details,
        state.credited(meter_id, amount as int).oracle == state.oracle,
{
}

/// A payment of a non-negative amount never lowers a meter's total.
pub proof fn lemma_total_never_decreases(state: BillingState, meter_id: Seq<char>, amount: i128)
    requires
        amount >= 0,
        fits_i128(state.total_paid(meter_id) + amount),
    ensures
        state.credited(meter_id, amount as int).total_paid(meter_id) >= state.total_paid(meter_id),
{
}

/// A detailed record is found again under the meter and ledger time it was
/// written for, and under no other meter or time.
pub proof fn lemma_record_is_found(
    state: BillingState,
    meter_id: Seq<char>,
    now: u64,
    record: BillingRecordView,
    other_meter: Seq<char>,
    other_time: u64,
)
    ensures
        state.with_record(meter_id, now, record).billing_details(meter_id, now) == Some(record),
        (other_meter != meter_id || other_time != now) ==> state.with_record(
            meter_id,
            now,
            record,
        ).billing_details(other_meter, other_time) == state.billing_details(other_meter, other_time),
{
    if other_meter != meter_id || other_time != now {
        if billing_key(other_meter, other_time) == billing_key(meter_id, now) {
            crate::keys::lemma_billing_key_injective(other_meter, other_time, meter_id, now);
        }
    }
}

} // verus!
