//! The identifiers under which records are kept: two parts joined by an
//! underscore, the second of which may be a number in decimal notation.

use vstd::prelude::*;

verus! {

/// The character that separates the two parts of a composite identifier.
pub open spec fn separator() -> char {
    '_'
}

/// The decimal digit for a value from 0 to 9.
pub open spec fn digit_char(d: int) -> char {
    if d == 0 {
        '0'
    } else if d == 1 {
        '1'
    } else if d == 2 {
        '2'
    } else if d == 3 {
        '3'
    } else if d == 4 {
        '4'
    } else if d == 5 {
        '5'
    } else if d == 6 {
        '6'
    } else if d == 7 {
        '7'
    } else if d == 8 {
        '8'
    } else {
        '9'
    }
}

/// The decimal notation of `n`, without leading zeros.
pub open spec fn decimal_digits(n: nat) -> Seq<char>
    decreases n,
{
    if n < 10 {
        seq![digit_char(n as int)]
    } else {
        decimal_digits(n / 10).push(digit_char((n % 10) as int))
    }
}

/// `left`, an underscore, `right`.
pub open spec fn joined(left: Seq<char>, right: Seq<char>) -> Seq<char> {
    left + seq![separator()] + right
}

/// The identifier of the price feed that converts `currency` to US dollars.
pub open spec fn usd_feed_id(currency: Seq<char>) -> Seq<char> {
    joined(currency, seq!['U', 'S', 'D'])
}

/// The identifier of the detailed billing record of a meter at a ledger time.
pub open spec fn billing_key(meter_id: Seq<char>, timestamp: u64) -> Seq<char> {
    joined(meter_id, decimal_digits(timestamp as nat))
}

/// The decimal notation of a number is not empty and holds no separator.
pub proof fn lemma_decimal_digits_shape(n: nat)
    ensures
        decimal_digits(n).len() >= 1,
        n >= 10 ==> decimal_digits(n).len() >= 2,
        forall|i: int| 0 <= i < decimal_digits(n).len() ==> decimal_digits(n)[i] != separator(),
    decreases n,
{
    if n >= 10 {
        lemma_decimal_digits_shape(n / 10);
    }
}

/// Two numbers with the same decimal notation are equal.
pub proof fn lemma_decimal_digits_injective(a: nat, b: nat)
    requires
        decimal_digits(a) == decimal_digits(b),
    ensures
        a == b,
    decreases a,
{
    lemma_decimal_digits_shape(a);
    lemma_decimal_digits_shape(b);
    if a < 10 {
        assert(decimal_digits(a)[0] == digit_char(a as int));
        if b < 10 {
            assert(decimal_digits(b)[0] == digit_char(b as int));
        }
    } else {
        let da = decimal_digits(a / 10);
        let db = decimal_digits(b / 10);
        assert(b >= 10);
        assert(da.push(digit_char((a % 10) as int)) == db.push(digit_char((b % 10) as int)));
        assert(da.push(digit_char((a % 10) as int)).drop_last() =~= da);
        assert(db.push(digit_char((b % 10) as int)).drop_last() =~= db);
        assert(da.push(digit_char((a % 10) as int)).last() == digit_char((a % 10) as int));
        assert(db.push(digit_char((b % 10) as int)).last() == digit_char((b % 10) as int));
        lemma_decimal_digits_injective(a / 10, b / 10);
    }
}

/// Where the second parts hold no separator, two composite identifiers are
/// equal only if both of their parts are.
pub proof fn lemma_joined_injective(
    left1: Seq<char>,
    right1: Seq<char>,
    left2: Seq<char>,
    right2: Seq<char>,
)
    requires
        joined(left1, right1) == joined(left2, right2),
        forall|i: int| 0 <= i < right1.len() ==> right1[i] != separator(),
        forall|i: int| 0 <= i < right2.len() ==> right2[i] != separator(),
    ensures
        left1 == left2,
        right1 == right2,
{
    let k1 = joined(left1, right1);
    let k2 = joined(left2, right2);
    assert(k1.len() == left1.len() + 1 + right1.len());
    assert(k2.len() == left2.len() + 1 + right2.len());
    assert(k1[left1.len() as int] == separator());
    assert(k2[left2.len() as int] == separator());
    if left1.len() < left2.len() {
        // The separator of the second identifier falls into the second part of the first.
        assert(k1[left2.len() as int] == right1[left2.len() - left1.len() - 1]);
        assert(false);
    }
    if left2.len() < left1.len() {
        assert(k2[left1.len() as int] == right2[left1.len() - left2.len() - 1]);
        assert(false);
    }
    assert forall|i: int| 0 <= i < left1.len() implies left1[i] == left2[i] by {
        assert(k1[i] == left1[i]);
        assert(k2[i] == left2[i]);
    }
    assert(left1 =~= left2);
    assert forall|i: int| 0 <= i < right1.len() implies right1[i] == right2[i] by {
        assert(k1[left1.len() + 1 + i] == right1[i]);
        assert(k2[left2.len() + 1 + i] == right2[i]);
    }
    assert(right1 =~= right2);
}

/// No two pairs of a meter and a ledger time share a billing key.
pub proof fn lemma_billing_key_injective(meter1: Seq<char>, time1: u64, meter2: Seq<char>, time2: u64)
    requires
        billing_key(meter1, time1) == billing_key(meter2, time2),
    ensures
        meter1 == meter2,
        time1 == time2,
{
    lemma_decimal_digits_shape(time1 as nat);
    lemma_decimal_digits_shape(time2 as nat);
    lemma_joined_injective(
        meter1,
        decimal_digits(time1 as nat),
        meter2,
        decimal_digits(time2 as nat),
    );
    lemma_decimal_digits_injective(time1 as nat, time2 as nat);
}

/// The text of one decimal digit.
fn digit_str(d: u64) -> (s: &'static str)
    requires
        d < 10,
    ensures
        s@ == seq![digit_char(d as int)],
{
    proof {
        reveal_strlit("0");
        reveal_strlit("1");
        reveal_strlit("2");
        reveal_strlit("3");
        reveal_strlit("4");
        reveal_strlit("5");
        reveal_strlit("6");
        reveal_strlit("7");
        reveal_strlit("8");
        reveal_strlit("9");
    }
    let s = if d == 0 {
        "0"
    } else if d == 1 {
        "1"
    } else if d == 2 {
        "2"
    } else if d == 3 {
        "3"
    } else if d == 4 {
        "4"
    } else if d == 5 {
        "5"
    } else if d == 6 {
        "6"
    } else if d == 7 {
        "7"
    } else if d == 8 {
        "8"
    } else {
        "9"
    };
    assert(s@ =~= seq![digit_char(d as int)]);
    s
}

/// Appends the decimal notation of `n` to `out`.
fn push_decimal(out: &mut String, n: u64)
    ensures
        final(out)@ == old(out)@ + decimal_digits(n as nat),
    decreases n,
{
    if n >= 10 {
        push_decimal(out, n / 10);
    }
    out.append(digit_str(n % 10));
    assert(out@ =~= old(out)@ + decimal_digits(n as nat));
}

/// The decimal notation of `n`.
pub fn decimal_string(n: u64) -> (s: String)
    ensures
        s@ == decimal_digits(n as nat),
{
    let mut s = String::new();
    push_decimal(&mut s, n);
    assert(s@ =~= decimal_digits(n as nat));
    s
}

/// The composite identifier of `left` and `right`.
pub fn join(left: &str, right: &str) -> (key: String)
    ensures
        key@ == joined(left@, right@),
{
    proof {
        reveal_strlit("_");
    }
    let mut key = String::from_str(left);
    key.append("_");
    key.append(right);
    assert(key@ =~= joined(left@, right@));
    key
}

/// The identifier of the price feed that converts `currency` to US dollars.
pub fn usd_feed_key(currency: &str) -> (key: String)
    ensures
        key@ == usd_feed_id(currency@),
{
    proof {
        reveal_strlit("USD");
    }
    let key = join(currency, "USD");
    assert("USD"@ =~= seq!['U', 'S', 'D']);
    key
}

/// The identifier of the detailed billing record of `meter_id` at `timestamp`.
pub fn billing_record_key(meter_id: &str, timestamp: u64) -> (key: String)
    ensures
        key@ == billing_key(meter_id@, timestamp),
{
    let digits = decimal_string(timestamp);
    join(meter_id, digits.as_str())
}

} // verus!
