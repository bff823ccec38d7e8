//! Billing and oracle core of a utility-payment ledger contract.
//!
//! The crate holds the state of the oracle subsystem (price feeds, utility
//! rates, reliability, cost metering, update schedule) and of the billing
//! ledgers as plain values, and every operation is a single transition on
//! that state. The ledger host supplies what the transitions cannot know by
//! themselves: the current time and whether the named principal consented to
//! the call. Token transfers are left to the caller, which receives the amount
//! to debit from each successful payment.

pub mod arith;
pub mod billing;
pub mod config;
pub mod cost;
pub mod error;
pub mod feeds;
pub mod keys;
pub mod oracle;
pub mod registry;
pub mod reliability;
pub mod schedule;

pub use crate::billing::{BillingRecord, NepaBillingContract};
pub use crate::config::OracleConfig;
pub use crate::cost::OracleCost;
pub use crate::error::ContractError;
pub use crate::feeds::{PriceFeed, UtilityRate};
pub use crate::oracle::OracleManager;
pub use crate::registry::Registry;
pub use crate::reliability::OracleReliability;
pub use crate::schedule::UpdateSchedule;
