//! The update scheduler: tells an off-ledger updater when the price feeds and
//! the utility rates are due for a refresh.

use vstd::prelude::*;

verus! {

/// Seconds between two refreshes of the price feeds, unless configured otherwise.
pub const DEFAULT_PRICE_FEED_INTERVAL: u64 = 300;

/// Seconds between two refreshes of the utility rates, unless configured otherwise.
pub const DEFAULT_UTILITY_RATE_INTERVAL: u64 = 3600;

/// Refresh intervals and the times of the last refreshes.
#[derive(Clone, Copy, Debug, PartialEq, Eq, Structural)]
pub struct UpdateSchedule {
    pub price_feed_interval: u64,
    pub utility_rate_interval: u64,
    pub last_price_update: u64,
    pub last_utility_update: u64,
}

impl UpdateSchedule {
    /// The schedule with the default intervals and no refresh recorded.
    pub open spec fn initial() -> Self {
        UpdateSchedule {
            price_feed_interval: DEFAULT_PRICE_FEED_INTERVAL,
            utility_rate_interval: DEFAULT_UTILITY_RATE_INTERVAL,
            last_price_update: 0,
            last_utility_update: 0,
        }
    }

    /// Both intervals are positive.
    pub open spec fn well_formed(self) -> bool {
        self.price_feed_interval > 0 && self.utility_rate_interval > 0
    }

    /// Whether the price feeds are due at time `now`.
    pub open spec fn price_feeds_due(self, now: u64) -> bool {
        now >= self.last_price_update + self.price_feed_interval
    }

    /// Whether the utility rates are due at time `now`.
    pub open spec fn utility_rates_due(self, now: u64) -> bool {
        now >= self.last_utility_update + self.utility_rate_interval
    }

    /// The schedule after the price feeds were refreshed at time `now`.
    pub open spec fn with_price_update(self, now: u64) -> Self {
        UpdateSchedule { last_price_update: now, ..self }
    }

    /// The schedule after the utility rates were refreshed at time `now`.
    pub open spec fn with_utility_update(self, now: u64) -> Self {
        UpdateSchedule { last_utility_update: now, ..self }
    }

    /// The schedule with the default intervals and no refresh recorded.
    pub fn new() -> (s: Self)
        ensures
            s == Self::initial(),
            s.well_formed(),
    {
        UpdateSchedule {
            price_feed_interval: DEFAULT_PRICE_FEED_INTERVAL,
            utility_rate_interval: DEFAULT_UTILITY_RATE_INTERVAL,
            last_price_update: 0,
            last_utility_update: 0,
        }
    }

    /// Whether the price feeds are due for a refresh at time `now`.
    pub fn should_update_price_feeds(&self, now: u64) -> (due: bool)
        ensures
            due == self.price_feeds_due(now),
    {
        match self.last_price_update.checked_add(self.price_feed_interval) {
            Some(due_at) => now >= due_at,
            None => false,
        }
    }

    /// Whether the utility rates are due for a refresh at time `now`.
    pub fn should_update_utility_rates(&self, now: u64) -> (due: bool)
        ensures
            due == self.utility_rates_due(now),
    {
        match self.last_utility_update.checked_add(self.utility_rate_interval) {
            Some(due_at) => now >= due_at,
            None => false,
        }
    }

    /// Records that the price feeds were refreshed at time `now`.
    pub fn mark_price_feeds_updated(&mut self, now: u64)
        ensures
            *final(self) == old(self).with_price_update(now),
    {
        self.last_price_update = now;
    }

    /// Records that the utility rates were refreshed at time `now`.
    pub fn mark_utility_rates_updated(&mut self, now: u64)
        ensures
            *final(self) == old(self).with_utility_update(now),
    {
        self.last_utility_update = now;
    }
}

/// Marking a refresh leaves the intervals as they were, so a well-formed
/// schedule stays well-formed.
pub proof fn lemma_marking_keeps_intervals(s: UpdateSchedule, now: u64)
    requires
        s.well_formed(),
    ensures
        s.with_price_update(now).well_formed(),
        s.with_utility_update(now).well_formed(),
        s.with_price_update(now).last_utility_update == s.last_utility_update,
        s.with_utility_update(now).last_price_update == s.last_price_update,
{
}

/// Right after a refresh at `now`, a positive interval keeps the item from
/// being due until the interval has passed, and makes it due from then on.
pub proof fn lemma_due_after_interval(s: UpdateSchedule, now: u64, later: u64)
    requires
        s.well_formed(),
    ensures
        !s.with_price_update(now).price_feeds_due(now),
        s.with_price_update(now).price_feeds_due(later) <==> later - now >= s.price_feed_interval,
        !s.with_utility_update(now).utility_rates_due(now),
        s.with_utility_update(now).utility_rates_due(later) <==> later - now
            >= s.utility_rate_interval,
{
}

} // verus!
