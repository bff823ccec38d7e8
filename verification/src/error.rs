//! The failures that an operation of the contract can report.

use vstd::prelude::*;

verus! {

/// Why an operation was refused. A refused operation leaves every part of the
/// state as it was.
#[derive(Clone, Copy, Debug, PartialEq, Eq, Structural)]
pub enum ContractError {
    /// The principal named by the call did not consent to it.
    AuthRequired,
    /// The oracle configuration or the cost record has not been written yet.
    NotInitialized,
    /// The registry holds no record under the given identifier.
    NotFound,
    /// The submitted timestamp lies further in the past than the freshness window allows.
    DataTooOld,
    /// The record's reliability score is below the configured minimum.
    ReliabilityTooLow,
    /// No price feed is registered for the currency pair that the conversion needs.
    ExchangeRateUnavailable,
    /// No utility rate is registered for the utility type and region.
    RateUnavailable,
    /// The cost of the call is above the configured ceiling for a single call.
    CostExceedsPerCallLimit,
    /// The cost of the call would take the day's spending above the daily limit.
    DailyLimitExceeded,
}

} // verus!
