//! Integer arithmetic shared by the oracle and the billing engine: powers of
//! ten, division that truncates toward zero, and the fixed-point conversion of
//! an amount by a scaled price.

use vstd::arithmetic::power::pow;
use vstd::prelude::*;

verus! {

/// The largest exponent `e` for which `10^e` fits in an `i128`.
pub const MAX_DECIMALS: u32 = 38;

/// Whether `v` is a value of `i128`.
pub open spec fn fits_i128(v: int) -> bool {
    i128::MIN <= v <= i128::MAX
}

/// `10^decimals` as a mathematical integer.
pub open spec fn pow10_spec(decimals: nat) -> int {
    pow(10, decimals)
}

/// The quotient of `a` by `b` rounded toward zero, for a positive divisor.
pub open spec fn trunc_div(a: int, b: int) -> int
    recommends
        b > 0,
{
    if a >= 0 {
        a / b
    } else {
        -((-a) / b)
    }
}

/// The remainder that goes with [`trunc_div`]: it has the sign of `a`.
pub open spec fn trunc_rem(a: int, b: int) -> int
    recommends
        b > 0,
{
    if a >= 0 {
        a % b
    } else {
        -((-a) % b)
    }
}

/// Quotient and remainder of a truncating division make up the dividend, and
/// the remainder is smaller in magnitude than the divisor.
pub proof fn lemma_trunc_div_rem(a: int, b: int)
    requires
        b > 0,
    ensures
        b * trunc_div(a, b) + trunc_rem(a, b) == a,
        -b < trunc_rem(a, b) < b,
        a >= 0 ==> 0 <= trunc_div(a, b) <= a,
        a <= 0 ==> a <= trunc_div(a, b) <= 0,
{
    if a >= 0 {
        vstd::arithmetic::div_mod::lemma_fundamental_div_mod(a, b);
        vstd::arithmetic::div_mod::lemma_mod_bound(a, b);
        vstd::arithmetic::div_mod::lemma_div_pos_is_pos(a, b);
        vstd::arithmetic::div_mod::lemma_div_is_ordered_by_denominator(a, 1, b);
    } else {
        vstd::arithmetic::div_mod::lemma_fundamental_div_mod(-a, b);
        vstd::arithmetic::div_mod::lemma_mod_bound(-a, b);
        vstd::arithmetic::div_mod::lemma_div_pos_is_pos(-a, b);
        vstd::arithmetic::div_mod::lemma_div_is_ordered_by_denominator(-a, 1, b);
        assert(b * -((-a) / b) == -(b * ((-a) / b))) by (nonlinear_arith);
    }
}

/// An amount converted by a price that is scaled by `10^decimals`:
/// `amount * price / 10^decimals`, rounded toward zero.
pub open spec fn scale_by_price(amount: int, price: int, decimals: nat) -> int {
    trunc_div(amount * price, pow10_spec(decimals))
}

/// `10^e` is positive, and below `10^39` it grows by a factor of ten at each step.
pub proof fn lemma_pow10_step(e: nat)
    ensures
        pow10_spec(0) == 1,
        pow10_spec(e + 1) == 10 * pow10_spec(e),
        pow10_spec(e) > 0,
{
    reveal(pow);
    vstd::arithmetic::power::lemma_pow_positive(10, e);
}

/// `10^e` grows with `e`.
pub proof fn lemma_pow10_monotone(e1: nat, e2: nat)
    requires
        e1 <= e2,
    ensures
        pow10_spec(e1) <= pow10_spec(e2),
{
    vstd::arithmetic::power::lemma_pow_increases(10, e1, e2);
}

/// The value of `10^38`, the largest power of ten in an `i128`.
pub proof fn lemma_pow10_max()
    ensures
        pow10_spec(38) == 100_000_000_000_000_000_000_000_000_000_000_000_000int,
        pow10_spec(38) <= i128::MAX,
{
    reveal_with_fuel(pow, 39);
}

/// Computes `10^decimals`.
pub fn pow10(decimals: u32) -> (p: i128)
    requires
        decimals <= MAX_DECIMALS,
    ensures
        p == pow10_spec(decimals as nat),
        p > 0,
{
    let mut p: i128 = 1;
    let mut i: u32 = 0;
    proof {
        lemma_pow10_step(0);
    }
    while i < decimals
        invariant
            i <= decimals <= MAX_DECIMALS,
            p == pow10_spec(i as nat),
            p > 0,
        decreases decimals - i,
    {
        proof {
            lemma_pow10_step(i as nat);
            lemma_pow10_monotone((i + 1) as nat, 38);
            lemma_pow10_max();
        }
        p = p * 10;
        i = i + 1;
    }
    p
}

/// Converts `amount` by a price scaled by `10^decimals`, where the product and
/// the power of ten fit the machine integers; `None` where they do not.
pub fn checked_scale_by_price(amount: i128, price: i128, decimals: u32) -> (r: Option<i128>)
    ensures
        r is Some <==> decimals <= MAX_DECIMALS && fits_i128(amount * price),
        r is Some ==> r->0 == scale_by_price(amount as int, price as int, decimals as nat),
{
    if decimals > MAX_DECIMALS {
        return None;
    }
    match amount.checked_mul(price) {
        None => None,
        Some(product) => {
            let divisor: i128 = pow10(decimals);
            Some(product / divisor)
        },
    }
}

} // verus!
