use nepa_contract::billing::NepaBillingContract;
use nepa_contract::config::OracleConfig;
use nepa_contract::cost::OracleCost;
use nepa_contract::feeds::{PriceFeed, UtilityRate};
use nepa_contract::reliability::OracleReliability;
use nepa_contract::ContractError;

fn config() -> OracleConfig {
    OracleConfig {
        max_age_seconds: 600,
        min_reliability_score: 80,
        fallback_enabled: true,
        cost_limit_per_call: 5_000,
    }
}

fn feed(base: &str, quote: &str, price: i128, decimals: u32, reliability_score: u8) -> PriceFeed {
    PriceFeed {
        feed_address: "GFEEDSOURCE".to_string(),
        base_asset: base.to_string(),
        quote_asset: quote.to_string(),
        decimals,
        last_updated: 0,
        price,
        reliability_score,
    }
}

fn rate(rate_per_kwh: i128, currency: &str, reliability_score: u8) -> UtilityRate {
    UtilityRate {
        utility_type: "electricity".to_string(),
        rate_per_kwh,
        currency: currency.to_string(),
        region: "lagos".to_string(),
        last_updated: 0,
        reliability_score,
    }
}

/// An initialized contract with one price feed and one utility rate.
fn contract() -> NepaBillingContract {
    let mut c = NepaBillingContract::new();
    assert_eq!(c.initialize(1_000, true, config()), Ok(()));
    assert_eq!(c.add_price_feed(true, "NGN_USD", feed("NGN", "USD", 150, 2, 90)), Ok(()));
    assert_eq!(c.add_utility_rate(true, "electricity_lagos", rate(5, "NGN", 95)), Ok(()));
    c
}

#[test]
fn total_of_an_unknown_meter_is_zero() {
    let c = NepaBillingContract::new();
    assert_eq!(c.get_total_paid("METER-1"), 0);
    assert_eq!(c.get_billing_details("METER-1", 0), None);
}

#[test]
fn two_payments_add_up() {
    let mut c = NepaBillingContract::new();
    assert_eq!(c.pay_bill(true, "METER-1", 700), Ok(700));
    assert_eq!(c.get_total_paid("METER-1"), 700);
    assert_eq!(c.pay_bill(true, "METER-1", 55), Ok(55));
    assert_eq!(c.get_total_paid("METER-1"), 755);
}

#[test]
fn order_of_payments_does_not_matter() {
    let mut one = NepaBillingContract::new();
    assert_eq!(one.pay_bill(true, "METER-1", 700), Ok(700));
    assert_eq!(one.pay_bill(true, "METER-1", 55), Ok(55));
    let mut other = NepaBillingContract::new();
    assert_eq!(other.pay_bill(true, "METER-1", 55), Ok(55));
    assert_eq!(other.pay_bill(true, "METER-1", 700), Ok(700));
    assert_eq!(one.get_total_paid("METER-1"), other.get_total_paid("METER-1"));
    assert_eq!(one, other);
}

#[test]
fn meters_are_billed_apart() {
    let mut c = NepaBillingContract::new();
    assert_eq!(c.pay_bill(true, "METER-1", 700), Ok(700));
    assert_eq!(c.pay_bill(true, "METER-2", 5), Ok(5));
    assert_eq!(c.pay_bill(true, "METER-1", 1), Ok(1));
    assert_eq!(c.get_total_paid("METER-1"), 701);
    assert_eq!(c.get_total_paid("METER-2"), 5);
    assert_eq!(c.get_total_paid("METER-3"), 0);
    assert_eq!(c.get_total_paid("METER-"), 0);
}

#[test]
fn pay_bill_works_without_an_oracle() {
    let mut c = NepaBillingContract::new();
    assert_eq!(c.pay_bill(true, "METER-1", 10), Ok(10));
    assert_eq!(c.oracle.config, None);
}

#[test]
fn pay_bill_without_consent_changes_nothing() {
    let mut c = contract();
    assert_eq!(c.pay_bill(true, "METER-1", 10), Ok(10));
    assert_eq!(c.pay_bill(false, "METER-1", 10), Err(ContractError::AuthRequired));
    assert_eq!(c.pay_bill(false, "METER-2", 10), Err(ContractError::AuthRequired));
    let mut expected = contract();
    assert_eq!(expected.pay_bill(true, "METER-1", 10), Ok(10));
    assert_eq!(c, expected);
    assert_eq!(c.get_total_paid("METER-1"), 10);
    assert_eq!(c.get_total_paid("METER-2"), 0);
}

#[test]
fn pay_bill_up_to_the_integer_range() {
    let mut c = NepaBillingContract::new();
    assert!(c.can_pay_bill("METER-1", i128::MAX));
    assert_eq!(c.pay_bill(true, "METER-1", i128::MAX - 1), Ok(i128::MAX - 1));
    assert!(c.can_pay_bill("METER-1", 1));
    assert!(!c.can_pay_bill("METER-1", 2));
    assert!(c.can_pay_bill("METER-2", 2));
    assert_eq!(c.pay_bill(true, "METER-1", 1), Ok(1));
    assert_eq!(c.get_total_paid("METER-1"), i128::MAX);
    assert!(c.can_pay_bill("METER-1", -5));
}

#[test]
fn oracle_payment_converts_by_the_price_feed() {
    let mut c = contract();
    // 200 * 150 / 10^2
    assert_eq!(c.pay_bill_with_oracle(true, "METER-1", 200, "NGN", true), Ok(300));
    assert_eq!(c.get_total_paid("METER-1"), 300);
    assert_eq!(c.pay_bill_with_oracle(true, "METER-1", 1, "NGN", true), Ok(1));
    assert_eq!(c.get_total_paid("METER-1"), 301);
}

#[test]
fn oracle_payment_without_exchange_rate_takes_the_amount() {
    let mut c = NepaBillingContract::new();
    assert_eq!(c.pay_bill_with_oracle(true, "METER-1", 200, "NGN", false), Ok(200));
    assert_eq!(c.pay_bill_with_oracle(true, "METER-1", 200, "XXX", false), Ok(200));
    assert_eq!(c.get_total_paid("METER-1"), 400);
}

#[test]
fn oracle_payment_rounds_toward_zero() {
    let mut c = contract();
    // 1 * 150 / 100 = 1.5
    assert_eq!(c.pay_bill_with_oracle(true, "METER-1", 1, "NGN", true), Ok(1));
    // -1 * 150 / 100 = -1.5
    assert_eq!(c.pay_bill_with_oracle(true, "METER-2", -1, "NGN", true), Ok(-1));
    assert_eq!(c.get_total_paid("METER-2"), -1);
}

#[test]
fn oracle_payment_without_a_feed_is_refused() {
    let mut c = contract();
    assert_eq!(
        c.pay_bill_with_oracle(true, "METER-1", 200, "EUR", true),
        Err(ContractError::ExchangeRateUnavailable)
    );
    assert_eq!(c, contract());
}

#[test]
fn oracle_payment_with_a_feed_but_no_config_is_refused() {
    let mut c = NepaBillingContract::new();
    // The missing feed is reported before the missing configuration.
    assert_eq!(
        c.pay_bill_with_oracle(true, "METER-1", 200, "NGN", true),
        Err(ContractError::ExchangeRateUnavailable)
    );
    assert_eq!(c.add_price_feed(true, "NGN_USD", feed("NGN", "USD", 150, 2, 90)), Ok(()));
    assert_eq!(
        c.pay_bill_with_oracle(true, "METER-1", 200, "NGN", true),
        Err(ContractError::NotInitialized)
    );
    assert_eq!(c.get_total_paid("METER-1"), 0);
}

#[test]
fn oracle_payment_with_an_unreliable_feed_is_refused() {
    let mut c = contract();
    assert_eq!(c.add_price_feed(true, "EUR_USD", feed("EUR", "USD", 110, 2, 79)), Ok(()));
    assert_eq!(
        c.pay_bill_with_oracle(true, "METER-1", 200, "EUR", true),
        Err(ContractError::ReliabilityTooLow)
    );
    assert_eq!(c.get_total_paid("METER-1"), 0);
    // A score equal to the minimum is enough.
    assert_eq!(c.add_price_feed(true, "EUR_USD", feed("EUR", "USD", 110, 2, 80)), Ok(()));
    assert_eq!(c.pay_bill_with_oracle(true, "METER-1", 200, "EUR", true), Ok(220));
}

#[test]
fn oracle_payment_without_consent_changes_nothing() {
    let mut c = contract();
    assert_eq!(
        c.pay_bill_with_oracle(false, "METER-1", 200, "NGN", true),
        Err(ContractError::AuthRequired)
    );
    assert_eq!(
        c.pay_bill_with_oracle(false, "METER-1", 200, "EUR", true),
        Err(ContractError::AuthRequired)
    );
    assert_eq!(
        c.pay_bill_with_oracle(false, "METER-1", 200, "NGN", false),
        Err(ContractError::AuthRequired)
    );
    assert_eq!(c, contract());
}

#[test]
fn quote_states_the_charge_without_paying() {
    let c = contract();
    assert_eq!(c.quote_with_oracle(200, "NGN", true), Some(Ok(300)));
    assert_eq!(c.quote_with_oracle(200, "NGN", false), Some(Ok(200)));
    assert_eq!(
        c.quote_with_oracle(200, "EUR", true),
        Some(Err(ContractError::ExchangeRateUnavailable))
    );
    assert_eq!(c.get_total_paid("METER-1"), 0);
    assert_eq!(c, contract());
}

#[test]
fn quote_beyond_the_integer_range_gives_nothing() {
    let mut c = contract();
    assert_eq!(c.quote_with_oracle(i128::MAX, "NGN", true), None);
    assert!(!c.can_pay_bill_with_oracle("METER-1", i128::MAX, "NGN", true));
    assert!(c.can_pay_bill_with_oracle("METER-1", i128::MAX, "NGN", false));
    assert_eq!(c.add_price_feed(true, "BIG_USD", feed("BIG", "USD", 1, 39, 90)), Ok(()));
    assert_eq!(c.quote_with_oracle(1, "BIG", true), None);
    assert!(c.can_pay_bill_with_oracle("METER-1", 200, "NGN", true));
    // A refused payment always fits.
    assert!(c.can_pay_bill_with_oracle("METER-1", i128::MAX, "EUR", true));
    assert_eq!(c.pay_bill(true, "METER-1", i128::MAX), Ok(i128::MAX));
    assert!(!c.can_pay_bill_with_oracle("METER-1", 200, "NGN", true));
}

#[test]
fn utility_bill_in_the_rates_currency() {
    let mut c = contract();
    assert_eq!(
        c.pay_utility_bill(5_000, true, "METER-1", 10, "electricity", "lagos", "NGN"),
        Ok(50)
    );
    assert_eq!(
        c.get_billing_details("METER-1", 5_000),
        Some((10, 5, 50, "electricity".to_string()))
    );
    assert_eq!(c.get_billing_details("METER-1", 5_001), None);
    assert_eq!(c.get_billing_details("METER-2", 5_000), None);
}

#[test]
fn utility_bill_needs_no_price_feed_for_matching_currencies() {
    let mut c = NepaBillingContract::new();
    assert_eq!(c.initialize(0, true, config()), Ok(()));
    assert_eq!(c.add_utility_rate(true, "electricity_lagos", rate(5, "NGN", 95)), Ok(()));
    assert_eq!(c.oracle.price_feeds.len(), 0);
    assert_eq!(
        c.pay_utility_bill(7, true, "METER-1", 10, "electricity", "lagos", "NGN"),
        Ok(50)
    );
    assert_eq!(c.get_billing_details("METER-1", 7), Some((10, 5, 50, "electricity".to_string())));
}

#[test]
fn utility_bill_leaves_the_accumulated_total_alone() {
    let mut c = contract();
    assert_eq!(c.pay_bill(true, "METER-1", 9), Ok(9));
    assert_eq!(
        c.pay_utility_bill(5_000, true, "METER-1", 10, "electricity", "lagos", "NGN"),
        Ok(50)
    );
    assert_eq!(c.get_total_paid("METER-1"), 9);
    assert_eq!(c.totals.len(), 1);
    assert_eq!(c.details.len(), 1);
}

#[test]
fn utility_bill_converts_to_another_currency() {
    let mut c = contract();
    // subtotal 10 * 5 = 50; 50 * 150 / 100 = 75
    assert_eq!(
        c.pay_utility_bill(5_000, true, "METER-1", 10, "electricity", "lagos", "USD"),
        Ok(75)
    );
    assert_eq!(
        c.get_billing_details("METER-1", 5_000),
        Some((10, 5, 75, "electricity".to_string()))
    );
}

#[test]
fn utility_bill_conversion_does_not_test_the_feeds_reliability() {
    let mut c = contract();
    assert_eq!(c.add_price_feed(true, "NGN_EUR", feed("NGN", "EUR", 3, 1, 0)), Ok(()));
    // 50 * 3 / 10
    assert_eq!(
        c.pay_utility_bill(1, true, "METER-1", 10, "electricity", "lagos", "EUR"),
        Ok(15)
    );
}

#[test]
fn utility_bill_without_a_rate_is_refused() {
    let mut c = contract();
    assert_eq!(
        c.pay_utility_bill(5_000, true, "METER-1", 10, "water", "lagos", "NGN"),
        Err(ContractError::RateUnavailable)
    );
    assert_eq!(
        c.pay_utility_bill(5_000, true, "METER-1", 10, "electricity", "abuja", "NGN"),
        Err(ContractError::RateUnavailable)
    );
    assert_eq!(c, contract());
}

#[test]
fn utility_bill_without_config_is_refused() {
    let mut c = NepaBillingContract::new();
    assert_eq!(
        c.pay_utility_bill(5_000, true, "METER-1", 10, "electricity", "lagos", "NGN"),
        Err(ContractError::RateUnavailable)
    );
    assert_eq!(c.add_utility_rate(true, "electricity_lagos", rate(5, "NGN", 95)), Ok(()));
    assert_eq!(
        c.pay_utility_bill(5_000, true, "METER-1", 10, "electricity", "lagos", "NGN"),
        Err(ContractError::NotInitialized)
    );
    assert_eq!(c.get_billing_details("METER-1", 5_000), None);
}

#[test]
fn utility_bill_with_an_unreliable_rate_is_refused() {
    let mut c = contract();
    assert_eq!(c.add_utility_rate(true, "water_lagos", rate(2, "NGN", 79)), Ok(()));
    assert_eq!(
        c.pay_utility_bill(5_000, true, "METER-1", 10, "water", "lagos", "NGN"),
        Err(ContractError::ReliabilityTooLow)
    );
    assert_eq!(c.get_billing_details("METER-1", 5_000), None);
    assert_eq!(c.add_utility_rate(true, "water_lagos", rate(2, "NGN", 80)), Ok(()));
    assert_eq!(c.pay_utility_bill(5_000, true, "METER-1", 10, "water", "lagos", "NGN"), Ok(20));
    assert_eq!(c.get_billing_details("METER-1", 5_000), Some((10, 2, 20, "water".to_string())));
}

#[test]
fn utility_bill_without_the_conversion_feed_is_refused() {
    let mut c = contract();
    assert_eq!(
        c.pay_utility_bill(5_000, true, "METER-1", 10, "electricity", "lagos", "EUR"),
        Err(ContractError::ExchangeRateUnavailable)
    );
    assert_eq!(c, contract());
}

#[test]
fn utility_bill_without_consent_changes_nothing() {
    let mut c = contract();
    assert_eq!(
        c.pay_utility_bill(5_000, false, "METER-1", 10, "electricity", "lagos", "NGN"),
        Err(ContractError::AuthRequired)
    );
    assert_eq!(
        c.pay_utility_bill(5_000, false, "METER-1", 10, "water", "lagos", "NGN"),
        Err(ContractError::AuthRequired)
    );
    assert_eq!(c, contract());
    assert_eq!(c.get_billing_details("METER-1", 5_000), None);
}

#[test]
fn second_utility_bill_in_the_same_second_overwrites_the_record() {
    let mut c = contract();
    assert_eq!(c.pay_utility_bill(9, true, "METER-1", 10, "electricity", "lagos", "NGN"), Ok(50));
    assert_eq!(c.pay_utility_bill(9, true, "METER-1", 4, "electricity", "lagos", "NGN"), Ok(20));
    assert_eq!(c.get_billing_details("METER-1", 9), Some((4, 5, 20, "electricity".to_string())));
    assert_eq!(c.pay_utility_bill(10, true, "METER-1", 1, "electricity", "lagos", "NGN"), Ok(5));
    assert_eq!(c.get_billing_details("METER-1", 9), Some((4, 5, 20, "electricity".to_string())));
    assert_eq!(c.get_billing_details("METER-1", 10), Some((1, 5, 5, "electricity".to_string())));
    assert_eq!(c.details.len(), 2);
}

#[test]
fn records_of_meters_with_underscores_do_not_collide() {
    let mut c = contract();
    assert_eq!(c.pay_utility_bill(5, true, "m_1", 1, "electricity", "lagos", "NGN"), Ok(5));
    assert_eq!(c.pay_utility_bill(15, true, "m", 2, "electricity", "lagos", "NGN"), Ok(10));
    assert_eq!(c.get_billing_details("m_1", 5), Some((1, 5, 5, "electricity".to_string())));
    assert_eq!(c.get_billing_details("m", 15), Some((2, 5, 10, "electricity".to_string())));
    assert_eq!(c.get_billing_details("m", 1), None);
    assert_eq!(c.get_billing_details("m_", 15), None);
}

#[test]
fn utility_quote_states_rate_and_amount() {
    let c = contract();
    assert_eq!(c.quote_utility_bill(10, "electricity", "lagos", "NGN"), Some(Ok((5, 50))));
    assert_eq!(c.quote_utility_bill(10, "electricity", "lagos", "USD"), Some(Ok((5, 75))));
    assert_eq!(
        c.quote_utility_bill(10, "gas", "lagos", "USD"),
        Some(Err(ContractError::RateUnavailable))
    );
    assert_eq!(c.quote_utility_bill(i128::MAX, "electricity", "lagos", "NGN"), None);
    assert!(c.can_pay_utility_bill(10, "electricity", "lagos", "USD"));
    assert!(!c.can_pay_utility_bill(i128::MAX, "electricity", "lagos", "NGN"));
    // The subtotal fits, its product with the price does not.
    assert!(c.can_pay_utility_bill(i128::MAX / 5, "electricity", "lagos", "NGN"));
    assert!(!c.can_pay_utility_bill(i128::MAX / 5, "electricity", "lagos", "USD"));
    // A refused payment always fits.
    assert!(c.can_pay_utility_bill(i128::MAX, "electricity", "lagos", "EUR"));
}

#[test]
fn contract_forwards_to_the_oracle_manager() {
    let mut c = contract();
    assert_eq!(c.get_price_feed("NGN_USD"), Some(feed("NGN", "USD", 150, 2, 90)));
    assert_eq!(c.get_utility_rate("electricity_lagos"), Some(rate(5, "NGN", 95)));
    assert_eq!(c.update_price_feed(2_000, "NGN_USD", 155, 1_400), Ok(()));
    assert_eq!(c.update_price_feed(2_000, "NGN_USD", 156, 1_399), Err(ContractError::DataTooOld));
    assert_eq!(c.update_utility_rate(2_000, "electricity_lagos", 6, 2_000), Ok(()));
    assert_eq!(
        c.update_utility_rate(2_000, "electricity_kano", 6, 2_000),
        Err(ContractError::NotFound)
    );
    assert_eq!(c.get_price_feed("NGN_USD").unwrap().price, 155);
    assert_eq!(c.get_price_feed("NGN_USD").unwrap().last_updated, 1_400);
    assert_eq!(c.get_utility_rate("electricity_lagos").unwrap().rate_per_kwh, 6);
    let (cost, reliability, score) = c.get_oracle_stats(2_000);
    assert_eq!(cost, OracleCost::new(1_000));
    assert_eq!(reliability.success_count, 2);
    assert_eq!(reliability.failure_count, 0);
    assert_eq!(score, 100);
    // The updated price is the one that payments use.
    assert_eq!(c.pay_bill_with_oracle(true, "METER-1", 200, "NGN", true), Ok(310));
    assert_eq!(c.pay_utility_bill(3, true, "METER-1", 10, "electricity", "lagos", "NGN"), Ok(60));
}

#[test]
fn contract_stats_after_initialize() {
    let mut c = NepaBillingContract::new();
    assert_eq!(c.initialize(123, true, config()), Ok(()));
    assert_eq!(c.get_oracle_stats(123), (OracleCost::new(123), OracleReliability::new(), 50));
    assert_eq!(c.get_oracle_stats(123).0.total_spent, 0);
    assert_eq!(c.get_oracle_stats(123).0.calls_made, 0);
}

#[test]
fn contract_admin_calls_without_consent_change_nothing() {
    let mut c = contract();
    assert_eq!(c.initialize(2_000, false, config()), Err(ContractError::AuthRequired));
    assert_eq!(
        c.add_price_feed(false, "EUR_USD", feed("EUR", "USD", 1, 0, 99)),
        Err(ContractError::AuthRequired)
    );
    assert_eq!(
        c.add_utility_rate(false, "water_lagos", rate(1, "NGN", 99)),
        Err(ContractError::AuthRequired)
    );
    assert_eq!(c, contract());
    assert_eq!(c.get_price_feed("EUR_USD"), None);
    assert_eq!(c.get_utility_rate("water_lagos"), None);
}

#[test]
fn both_schedules_are_reported_together() {
    let mut c = contract();
    assert_eq!(c.should_update_oracles(0), (false, false));
    assert_eq!(c.should_update_oracles(300), (true, false));
    assert_eq!(c.should_update_oracles(3_600), (true, true));
    c.oracle.mark_price_feeds_updated(3_600);
    assert_eq!(c.should_update_oracles(3_600), (false, true));
    c.oracle.mark_utility_rates_updated(3_600);
    assert_eq!(c.should_update_oracles(3_899), (false, false));
    assert_eq!(c.should_update_oracles(3_900), (true, false));
}
