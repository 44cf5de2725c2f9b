//! Deterministic SLA (service level agreement) calculator.
//!
//! The library holds the contract's rules as verified functions over plain
//! values: severity configuration, reward and penalty arithmetic, roles and
//! their two-step hand-over, pausing, cumulative statistics and the history of
//! calculations.
use vstd::prelude::*;

pub mod types;
pub mod calc;
pub mod validation;
pub mod hash;
pub mod events;
pub mod storage;
pub mod contract;
pub mod laws;

pub use types::{
    AccountId, ConfigEntry, ConfigSnapshot, ConfigTable, ContractMetadata, PauseInfo, PaymentType,
    Rating, SLAConfig, SLAError, SLAResult, SLAResultSchema, SLAStats, Severity, SlaStatus,
};
pub use contract::SLACalculatorContract;
pub use storage::ContractEnv;
