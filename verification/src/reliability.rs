//! The reliability tracker: counters of successful and failed oracle writes, a
//! rolling average of the response time, and the score derived from them.

use vstd::prelude::*;

verus! {

/// The score reported while no outcome has been recorded yet.
pub const NEUTRAL_SCORE: u8 = 50;

/// Success and failure counters of the oracle subsystem as a whole.
#[derive(Clone, Copy, Debug, PartialEq, Eq, Structural)]
pub struct OracleReliability {
    pub success_count: u32,
    pub failure_count: u32,
    pub last_success: u64,
    pub last_failure: u64,
    pub average_response_time: u64,
}

/// The rolling average after the `n`-th sample `sample` has arrived, where
/// `average` was the average of the `n - 1` samples before it.
pub open spec fn rolling_average(average: int, n: int, sample: int) -> int {
    if n > 1 {
        (average * (n - 1) + sample) / n
    } else {
        sample
    }
}

/// The share of the score that the average response time earns: the faster
/// the responses, the higher.
pub open spec fn response_factor(average_response_time: int) -> int {
    if average_response_time < 5000 {
        100
    } else if average_response_time < 10000 {
        75
    } else if average_response_time < 30000 {
        50
    } else {
        25
    }
}

/// A rolling average never leaves the range spanned by the old average and
/// the new sample.
pub proof fn lemma_rolling_average_bounds(average: int, n: int, sample: int)
    requires
        n >= 1,
    ensures
        average <= sample ==> average <= rolling_average(average, n, sample) <= sample,
        sample <= average ==> sample <= rolling_average(average, n, sample) <= average,
{
    if n > 1 {
        let total = average * (n - 1) + sample;
        assert(average <= sample ==> average * n <= total <= sample * n) by (nonlinear_arith)
            requires
                total == average * (n - 1) + sample,
                n > 1,
        ;
        assert(sample <= average ==> sample * n <= total <= average * n) by (nonlinear_arith)
            requires
                total == average * (n - 1) + sample,
                n > 1,
        ;
        assert(average * n <= total ==> average <= total / n) by (nonlinear_arith)
            requires
                n > 1,
        ;
        assert(total <= average * n ==> total / n <= average) by (nonlinear_arith)
            requires
                n > 1,
        ;
        assert(sample * n <= total ==> sample <= total / n) by (nonlinear_arith)
            requires
                n > 1,
        ;
        assert(total <= sample * n ==> total / n <= sample) by (nonlinear_arith)
            requires
                n > 1,
        ;
    }
}

impl OracleReliability {
    /// The record with which tracking starts: nothing counted, nothing stamped.
    pub open spec fn zeroed() -> Self {
        OracleReliability {
            success_count: 0,
            failure_count: 0,
            last_success: 0,
            last_failure: 0,
            average_response_time: 0,
        }
    }

    /// The number of outcomes recorded so far.
    pub open spec fn total_calls(self) -> int {
        self.success_count + self.failure_count
    }

    /// Whether one more outcome of the given kind can be counted.
    pub open spec fn can_record(self, success: bool) -> bool {
        if success {
            self.success_count < u32::MAX
        } else {
            self.failure_count < u32::MAX
        }
    }

    /// The record after one more outcome, observed at time `now`.
    pub open spec fn recorded(self, success: bool, response_time: u64, now: u64) -> Self
        recommends
            self.can_record(success),
    {
        let average = rolling_average(
            self.average_response_time as int,
            self.total_calls() + 1,
            response_time as int,
        );
        if success {
            OracleReliability {
                success_count: (self.success_count + 1) as u32,
                last_success: now,
                average_response_time: average as u64,
                ..self
            }
        } else {
            OracleReliability {
                failure_count: (self.failure_count + 1) as u32,
                last_failure: now,
                average_response_time: average as u64,
                ..self
            }
        }
    }

    /// The reliability score: 50 while nothing has been recorded, else the
    /// mean of the success rate in percent and the response factor.
    pub open spec fn score(self) -> int {
        if self.total_calls() == 0 {
            NEUTRAL_SCORE as int
        } else {
            (self.success_count * 100 / self.total_calls() + response_factor(
                self.average_response_time as int,
            )) / 2
        }
    }

    /// A record with nothing counted and nothing stamped.
    pub fn new() -> (r: Self)
        ensures
            r == Self::zeroed(),
    {
        OracleReliability {
            success_count: 0,
            failure_count: 0,
            last_success: 0,
            last_failure: 0,
            average_response_time: 0,
        }
    }

    /// Whether one more outcome of the given kind can be counted.
    pub fn has_room(&self, success: bool) -> (room: bool)
        ensures
            room == self.can_record(success),
    {
        if success {
            self.success_count < u32::MAX
        } else {
            self.failure_count < u32::MAX
        }
    }

    /// Counts one outcome, stamps it with `now` and folds `response_time`
    /// into the rolling average.
    pub fn record_outcome(&mut self, success: bool, response_time: u64, now: u64)
        requires
            old(self).can_record(success),
        ensures
            *final(self) == old(self).recorded(success, response_time, now),
            final(self).total_calls() == old(self).total_calls() + 1,
            final(self).success_count == old(self).success_count + (if success { 1int } else { 0int }),
            final(self).failure_count == old(self).failure_count + (if success { 0int } else { 1int }),
            final(self).average_response_time == rolling_average(
                old(self).average_response_time as int,
                old(self).total_calls() + 1,
                response_time as int,
            ),
    {
        if success {
            self.success_count = self.success_count + 1;
            self.last_success = now;
        } else {
            self.failure_count = self.failure_count + 1;
            self.last_failure = now;
        }
        let n: u128 = self.success_count as u128 + self.failure_count as u128;
        let average: u128 = self.average_response_time as u128;
        let sample: u128 = response_time as u128;
        proof {
            lemma_rolling_average_bounds(average as int, n as int, sample as int);
        }
        if n > 1 {
            assert(average * (n - 1) <= 0xffff_ffff_ffff_ffff * 0x1_ffff_ffff) by (nonlinear_arith)
                requires
                    0 <= average <= 0xffff_ffff_ffff_ffff,
                    0 <= n - 1 <= 0x1_ffff_ffff,
            ;
            let folded: u128 = (average * (n - 1) + sample) / n;
            self.average_response_time = folded as u64;
        } else {
            self.average_response_time = response_time;
        }
    }

    /// The reliability score of the subsystem, from 0 to 100.
    pub fn reliability_score(&self) -> (score: u8)
        ensures
            score == self.score(),
            score <= 100,
            self.total_calls() == 0 ==> score == NEUTRAL_SCORE,
    {
        let total: u64 = self.success_count as u64 + self.failure_count as u64;
        if total == 0 {
            return NEUTRAL_SCORE;
        }
        let success_rate: u64 = (self.success_count as u64 * 100) / total;
        assert(success_rate <= 100) by (nonlinear_arith)
            requires
                success_rate == (self.success_count * 100) / (total as int),
                0 < total,
                self.success_count <= total,
        ;
        let factor: u64 = if self.average_response_time < 5000 {
            100
        } else if self.average_response_time < 10000 {
            75
        } else if self.average_response_time < 30000 {
            50
        } else {
            25
        };
        let score: u64 = (success_rate + factor) / 2;
        score as u8
    }
}

/// Recording an outcome never lowers a counter, and raises exactly one of
/// them by one.
pub proof fn lemma_counts_never_decrease(r: OracleReliability, success: bool, response_time: u64, now: u64)
    requires
        r.can_record(success),
    ensures
        r.recorded(success, response_time, now).success_count >= r.success_count,
        r.recorded(success, response_time, now).failure_count >= r.failure_count,
        r.recorded(success, response_time, now).total_calls() == r.total_calls() + 1,
{
}

/// The score of any record lies between 12 and 100, so clamping it to 100
/// changes nothing.
pub proof fn lemma_score_bounds(r: OracleReliability)
    ensures
        12 <= r.score() <= 100,
{
    let total = r.total_calls();
    if total != 0 {
        let rate = r.success_count * 100 / total;
        assert(0 <= rate <= 100) by (nonlinear_arith)
            requires
                rate == (r.success_count * 100) / total,
                0 < total,
                0 <= r.success_count <= total,
        ;
    }
}

} // verus!
