//! The oracle configuration, written once at initialization.

use vstd::prelude::*;

verus! {

/// The highest reliability score.
pub const MAX_SCORE: u8 = 100;

/// How far oracle data is trusted and what consuming it may cost.
#[derive(Clone, Copy, Debug, PartialEq, Eq, Structural)]
pub struct OracleConfig {
    /// The age in seconds up to which submitted data is accepted.
    pub max_age_seconds: u64,
    /// The reliability score below which a record is not used for a payment.
    pub min_reliability_score: u8,
    /// Whether a cached price may stand in for a fresh one.
    pub fallback_enabled: bool,
    /// The ceiling on the cost of a single oracle call.
    pub cost_limit_per_call: i128,
}

impl OracleConfig {
    /// The minimum score is a score: it does not exceed 100.
    pub open spec fn well_formed(self) -> bool {
        self.min_reliability_score <= MAX_SCORE
    }

    /// Whether data stamped `timestamp` is too old to be accepted at time
    /// `now`. A timestamp in the future is never too old.
    pub open spec fn too_old(self, now: u64, timestamp: u64) -> bool {
        now - timestamp > self.max_age_seconds
    }

    /// Whether a price last updated at `last_updated` may still serve as a
    /// fallback at time `now`: its age is at most twice the freshness window.
    pub open spec fn within_fallback_window(self, now: u64, last_updated: u64) -> bool {
        now - last_updated <= 2 * self.max_age_seconds
    }

    /// Whether the minimum reliability score is a score.
    pub fn is_well_formed(&self) -> (ok: bool)
        ensures
            ok == self.well_formed(),
    {
        self.min_reliability_score <= MAX_SCORE
    }

    /// Whether data stamped `timestamp` is too old to be accepted at time `now`.
    pub fn is_too_old(&self, now: u64, timestamp: u64) -> (old: bool)
        ensures
            old == self.too_old(now, timestamp),
    {
        now > timestamp && now - timestamp > self.max_age_seconds
    }

    /// Whether a price last updated at `last_updated` may serve as a fallback at time `now`.
    pub fn is_within_fallback_window(&self, now: u64, last_updated: u64) -> (within: bool)
        ensures
            within == self.within_fallback_window(now, last_updated),
    {
        if now <= last_updated {
            true
        } else {
            let age: u128 = (now - last_updated) as u128;
            let window: u128 = 2 * (self.max_age_seconds as u128);
            age <= window
        }
    }
}

} // verus!
