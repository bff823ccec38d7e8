//! The cost meter: a ceiling on the cost of a single oracle call and a cap on
//! what may be spent within one day.

use crate::arith::{fits_i128, trunc_div};
use crate::error::ContractError;
use vstd::prelude::*;

verus! {

/// The daily limit that a new cost record starts with, in minor units.
pub const DEFAULT_DAILY_LIMIT: i128 = 1_000_000;

/// The length of the window after which the daily spending starts again from zero.
pub const SECONDS_PER_DAY: u64 = 86_400;

/// What the oracle subsystem has spent, in total and within the current day.
#[derive(Clone, Copy, Debug, PartialEq, Eq, Structural)]
pub struct OracleCost {
    pub total_spent: i128,
    pub calls_made: u32,
    pub average_cost_per_call: i128,
    pub daily_limit: i128,
    pub daily_spent: i128,
    pub last_reset: u64,
}

impl OracleCost {
    /// The record with which metering starts at time `now`: nothing spent,
    /// the default daily limit, the day beginning at `now`.
    pub open spec fn fresh(now: u64) -> Self {
        OracleCost {
            total_spent: 0,
            calls_made: 0,
            average_cost_per_call: 0,
            daily_limit: DEFAULT_DAILY_LIMIT,
            daily_spent: 0,
            last_reset: now,
        }
    }

    /// Whether at least one whole day has passed since the last reset.
    pub open spec fn reset_due(self, now: u64) -> bool {
        now - self.last_reset >= SECONDS_PER_DAY
    }

    /// The record as the daily window leaves it at time `now`: once a whole
    /// day has passed the day's spending is zero and a new day begins at
    /// `now`; before that nothing changes.
    pub open spec fn rolled_over(self, now: u64) -> Self {
        if self.reset_due(now) {
            OracleCost { daily_spent: 0, last_reset: now, ..self }
        } else {
            self
        }
    }

    /// Why a call of the given cost is refused at time `now`, or `None` where
    /// it is accepted. The ceiling for a single call is tested first, the
    /// daily limit after the daily window has been rolled over.
    pub open spec fn refusal(self, cost: i128, cost_limit_per_call: i128, now: u64) -> Option<
        ContractError,
    > {
        if cost > cost_limit_per_call {
            Some(ContractError::CostExceedsPerCallLimit)
        } else if self.daily_limit_exceeded(cost, now) {
            Some(ContractError::DailyLimitExceeded)
        } else {
            None
        }
    }

    /// Whether the counters still fit their machine integers after a call of
    /// the given cost has been added at time `now`.
    pub open spec fn charge_fits(self, cost: i128, now: u64) -> bool {
        &&& fits_i128(self.total_spent + cost)
        &&& fits_i128(self.rolled_over(now).daily_spent + cost)
        &&& self.calls_made < u32::MAX
    }

    /// The record after an accepted call of the given cost at time `now`.
    pub open spec fn charged(self, cost: i128, now: u64) -> Self
        recommends
            self.charge_fits(cost, now),
    {
        let rolled = self.rolled_over(now);
        OracleCost {
            total_spent: (self.total_spent + cost) as i128,
            calls_made: (self.calls_made + 1) as u32,
            average_cost_per_call: trunc_div(self.total_spent + cost, self.calls_made + 1) as i128,
            daily_limit: self.daily_limit,
            daily_spent: (rolled.daily_spent + cost) as i128,
            last_reset: rolled.last_reset,
        }
    }

    /// A record with nothing spent, for metering that starts at `now`.
    pub fn new(now: u64) -> (c: Self)
        ensures
            c == Self::fresh(now),
    {
        OracleCost {
            total_spent: 0,
            calls_made: 0,
            average_cost_per_call: 0,
            daily_limit: DEFAULT_DAILY_LIMIT,
            daily_spent: 0,
            last_reset: now,
        }
    }

    /// Whether a whole day has passed since the last reset.
    pub fn is_reset_due(&self, now: u64) -> (due: bool)
        ensures
            due == self.reset_due(now),
    {
        now >= self.last_reset && now - self.last_reset >= SECONDS_PER_DAY
    }

    /// Whether a call of the given cost would take the day's spending above
    /// the daily limit at time `now`.
    pub open spec fn daily_limit_exceeded(self, cost: i128, now: u64) -> bool {
        self.rolled_over(now).daily_spent + cost > self.daily_limit
    }

    /// Whether a call of the given cost would take the day's spending above
    /// the daily limit at time `now`.
    pub fn exceeds_daily_limit(&self, cost: i128, now: u64) -> (exceeded: bool)
        ensures
            exceeded == self.daily_limit_exceeded(cost, now),
    {
        let day_spent: i128 = if self.is_reset_due(now) {
            0
        } else {
            self.daily_spent
        };
        match day_spent.checked_add(cost) {
            Some(sum) => sum > self.daily_limit,
            None => cost > 0,
        }
    }

    /// Whether the counters can take a call of the given cost at time `now`.
    pub fn has_room(&self, cost: i128, now: u64) -> (room: bool)
        ensures
            room == self.charge_fits(cost, now),
    {
        let day_spent: i128 = if self.is_reset_due(now) {
            0
        } else {
            self.daily_spent
        };
        self.total_spent.checked_add(cost).is_some() && day_spent.checked_add(cost).is_some()
            && self.calls_made < u32::MAX
    }

    /// Meters one oracle call of the given cost at time `now`. The call is
    /// refused, and the record left as it was, where the cost is above
    /// `cost_limit_per_call` or would take the day's spending above the daily
    /// limit; else the cost is added to the counters.
    pub fn track_cost(&mut self, cost: i128, cost_limit_per_call: i128, now: u64) -> (res: Result<
        (),
        ContractError,
    >)
        requires
            old(self).refusal(cost, cost_limit_per_call, now) is None ==> old(self).charge_fits(
                cost,
                now,
            ),
        ensures
            match old(self).refusal(cost, cost_limit_per_call, now) {
                Some(e) => res == Err::<(), ContractError>(e) && *final(self) == *old(self),
                None => res is Ok && *final(self) == old(self).charged(cost, now),
            },
    {
        if cost > cost_limit_per_call {
            return Err(ContractError::CostExceedsPerCallLimit);
        }
        if self.exceeds_daily_limit(cost, now) {
            return Err(ContractError::DailyLimitExceeded);
        }
        if self.is_reset_due(now) {
            self.daily_spent = 0;
            self.last_reset = now;
        }
        self.daily_spent = self.daily_spent + cost;
        self.total_spent = self.total_spent + cost;
        self.calls_made = self.calls_made + 1;
        self.average_cost_per_call = self.total_spent / (self.calls_made as i128);
        Ok(())
    }
}

/// The day's spending starts again from zero exactly when at least 86400
/// seconds have passed since the last reset; until then the daily window
/// changes nothing.
pub proof fn lemma_reset_exactly_after_a_day(c: OracleCost, now: u64)
    ensures
        now - c.last_reset >= 86400 ==> c.rolled_over(now).daily_spent == 0 && c.rolled_over(
            now,
        ).last_reset == now,
        now - c.last_reset < 86400 ==> c.rolled_over(now) == c,
{
}

/// A cost that the daily limit alone would admit is accepted once a day has
/// passed, however much was spent the day before.
pub proof fn lemma_reset_admits_cost(c: OracleCost, cost: i128, cost_limit_per_call: i128, now: u64)
    requires
        c.reset_due(now),
        cost <= cost_limit_per_call,
        cost <= c.daily_limit,
    ensures
        c.refusal(cost, cost_limit_per_call, now) is None,
        c.charged(cost, now).daily_spent == cost,
        c.charged(cost, now).last_reset == now,
{
}

/// An accepted call of a non-negative cost never lowers the total spent, and
/// every accepted call raises the number of calls by one.
pub proof fn lemma_total_spent_never_decreases(c: OracleCost, cost: i128, now: u64)
    requires
        cost >= 0,
        c.charge_fits(cost, now),
    ensures
        c.charged(cost, now).total_spent >= c.total_spent,
        c.charged(cost, now).calls_made == c.calls_made + 1,
{
}

/// An accepted call never leaves the day's spending above the daily limit.
pub proof fn lemma_daily_spent_within_limit(
    c: OracleCost,
    cost: i128,
    cost_limit_per_call: i128,
    now: u64,
)
    requires
        c.refusal(cost, cost_limit_per_call, now) is None,
        c.charge_fits(cost, now),
    ensures
        c.charged(cost, now).daily_spent <= c.daily_limit,
        c.charged(cost, now).daily_limit == c.daily_limit,
{
}

} // verus!
