use nepa_contract::keys::{billing_record_key, decimal_string, join, usd_feed_key};

#[test]
fn decimal_notation_of_numbers() {
    assert_eq!(decimal_string(0), "0");
    assert_eq!(decimal_string(7), "7");
    assert_eq!(decimal_string(10), "10");
    assert_eq!(decimal_string(1_234_567_890), "1234567890");
    assert_eq!(decimal_string(1_700_000_000), "1700000000");
    assert_eq!(decimal_string(u64::MAX), "18446744073709551615");
}

#[test]
fn decimal_notation_matches_the_standard_formatting() {
    let samples: [u64; 8] = [0, 9, 99, 100, 101, 86_400, 4_294_967_296, u64::MAX - 1];
    for n in samples {
        assert_eq!(decimal_string(n), format!("{}", n));
    }
}

#[test]
fn parts_are_joined_by_an_underscore() {
    assert_eq!(join("electricity", "lagos"), "electricity_lagos");
    assert_eq!(join("NGN", "USD"), "NGN_USD");
    assert_eq!(join("", ""), "_");
    assert_eq!(join("a_b", "c"), "a_b_c");
}

#[test]
fn usd_feed_key_appends_the_dollar() {
    assert_eq!(usd_feed_key("NGN"), "NGN_USD");
    assert_eq!(usd_feed_key(""), "_USD");
}

#[test]
fn billing_key_is_meter_and_time() {
    assert_eq!(billing_record_key("METER-1", 1_700_000_000), "METER-1_1700000000");
    assert_eq!(billing_record_key("m", 0), "m_0");
    assert_ne!(billing_record_key("m_1", 5), billing_record_key("m", 15));
}
