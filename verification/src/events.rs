//! Events the contract publishes.
use vstd::prelude::*;
use crate::types::{AccountId, SLAConfig, SLAResult, Severity};

verus! {

/// An event published by a contract call, in the order of publication.
#[derive(Debug, PartialEq, Eq)]
pub enum ContractEvent {
    /// A result was recorded by the operator.
    SlaCalculated { severity: Severity, result: SLAResult },
    /// A recorded result with the configuration fingerprint it was computed
    /// under, for settlement.
    SettlementIntent { severity: Severity, result: SLAResult, config_hash: u64 },
    /// A severity's configuration was replaced.
    ConfigUpdated { severity: Severity, config: SLAConfig },
    /// The operator was replaced directly by the admin.
    OperatorSet { caller: AccountId, new_operator: AccountId },
    Paused { caller: AccountId },
    Unpaused { caller: AccountId },
    /// The history was cut to its latest `kept` entries.
    HistoryPruned { caller: AccountId, removed: u32, kept: u32 },
    /// The entries older than the cutoff were dropped; `kept` remain.
    HistoryPrunedByAge { caller: AccountId, removed: u32, kept: u32 },
    AdminProposed { caller: AccountId, proposed: AccountId },
    AdminAccepted { new_admin: AccountId },
    AdminProposalCancelled { caller: AccountId },
    OperatorProposed { caller: AccountId, proposed: AccountId },
    OperatorAccepted { new_operator: AccountId },
    OperatorProposalCancelled { caller: AccountId },
    AdminRenounced { caller: AccountId },
    StorageMigrated { caller: AccountId, from_version: u32, to_version: u32 },
}

} // verus!
