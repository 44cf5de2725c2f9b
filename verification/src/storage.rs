//! The contract's instance storage, its event log and the ledger clock, with
//! the checks that guard every call.
use vstd::prelude::*;
use crate::events::ContractEvent;
use crate::types::{
    AccountId, ConfigTable, PauseInfo, SLAConfig, SLAError, SLAResult, SLAStats, Severity,
    SlaStatus, severity_named,
};

verus! {

/// Layout version of the instance storage written by this library.
pub const STORAGE_VERSION: u32 = 1;

/// Schema version of the published results.
pub const RESULT_SCHEMA_VERSION: u32 = 1;

/// The contract's instance storage; an absent entry is `None`.
pub struct InstanceStorage {
    pub version: Option<u32>,
    pub admin: Option<AccountId>,
    pub operator: Option<AccountId>,
    pub pending_admin: Option<AccountId>,
    pub pending_operator: Option<AccountId>,
    /// An absent flag reads as not paused.
    pub paused: bool,
    pub pause_info: Option<PauseInfo>,
    pub configs: Option<ConfigTable>,
    pub stats: Option<SLAStats>,
    /// An absent history reads as empty.
    pub history: Vec<SLAResult>,
}

/// The abstract value of the instance storage.
#[verifier::ext_equal]
pub struct StorageModel {
    pub version: Option<u32>,
    pub admin: Option<AccountId>,
    pub operator: Option<AccountId>,
    pub pending_admin: Option<AccountId>,
    pub pending_operator: Option<AccountId>,
    pub paused: bool,
    pub pause_info: Option<PauseInfo>,
    pub configs: Option<ConfigTable>,
    pub stats: Option<SLAStats>,
    pub history: Seq<SLAResult>,
}

impl View for InstanceStorage {
    type V = StorageModel;

    open spec fn view(&self) -> StorageModel {
        StorageModel {
            version: self.version,
            admin: self.admin,
            operator: self.operator,
            pending_admin: self.pending_admin,
            pending_operator: self.pending_operator,
            paused: self.paused,
            pause_info: self.pause_info,
            configs: self.configs,
            stats: self.stats,
            history: self.history@,
        }
    }
}

/// What a contract call sees of the ledger: the contract's storage, the
/// events published so far and the ledger time.
pub struct ContractEnv {
    pub storage: InstanceStorage,
    pub events: Vec<ContractEvent>,
    pub ledger_timestamp: u64,
}

/// The abstract value of a `ContractEnv`.
#[verifier::ext_equal]
pub struct EnvModel {
    pub storage: StorageModel,
    pub events: Seq<ContractEvent>,
    pub ledger_timestamp: u64,
}

impl View for ContractEnv {
    type V = EnvModel;

    open spec fn view(&self) -> EnvModel {
        EnvModel {
            storage: self.storage@,
            events: self.events@,
            ledger_timestamp: self.ledger_timestamp,
        }
    }
}

impl EnvModel {
    pub open spec fn with_storage(self, storage: StorageModel) -> EnvModel {
        EnvModel { storage, ..self }
    }

    pub open spec fn emit(self, event: ContractEvent) -> EnvModel {
        EnvModel { events: self.events.push(event), ..self }
    }
}

impl ContractEnv {
    /// An environment whose storage holds nothing, at ledger time
    /// `ledger_timestamp`.
    pub fn new(ledger_timestamp: u64) -> (r: ContractEnv)
        ensures
            r@.storage == empty_storage(),
            r@.events.len() == 0,
            r@.ledger_timestamp == ledger_timestamp,
    {
        let r = ContractEnv {
            storage: InstanceStorage {
                version: None,
                admin: None,
                operator: None,
                pending_admin: None,
                pending_operator: None,
                paused: false,
                pause_info: None,
                configs: None,
                stats: None,
                history: Vec::new(),
            },
            events: Vec::new(),
            ledger_timestamp,
        };
        assert(r@.storage =~= empty_storage());
        r
    }
}

/// Storage in which nothing was ever written.
pub open spec fn empty_storage() -> StorageModel {
    StorageModel {
        version: None,
        admin: None,
        operator: None,
        pending_admin: None,
        pending_operator: None,
        paused: false,
        pause_info: None,
        configs: None,
        stats: None,
        history: Seq::empty(),
    }
}

/// `Ok(value)` when no check failed, else the failure.
pub open spec fn or_fail<T>(err: Option<SLAError>, value: T) -> Result<T, SLAError> {
    match err {
        Some(e) => Err(e),
        None => Ok(value),
    }
}

/// The first failing check of two checks made in order.
pub open spec fn first_error(first: Option<SLAError>, then: Option<SLAError>) -> Option<SLAError> {
    if first is Some {
        first
    } else {
        then
    }
}

/// A required entry is absent.
pub open spec fn missing<T>(entry: Option<T>) -> Option<SLAError> {
    if entry is None {
        Some(SLAError::NotInitialized)
    } else {
        None
    }
}

/// Stats before any calculation.
pub open spec fn zero_stats() -> SLAStats {
    SLAStats { total_calculations: 0, total_violations: 0, total_rewards: 0, total_penalties: 0 }
}

/// The stats after recording `result` (absent stats count as zero).
pub open spec fn stats_after(stats: Option<SLAStats>, result: SLAResult) -> SLAStats {
    let base = match stats {
        Some(s) => s,
        None => zero_stats(),
    };
    if result.status == SlaStatus::Met {
        SLAStats {
            total_calculations: (base.total_calculations + 1) as u64,
            total_rewards: (base.total_rewards + result.amount) as i128,
            ..base
        }
    } else {
        SLAStats {
            total_calculations: (base.total_calculations + 1) as u64,
            total_violations: (base.total_violations + 1) as u64,
            total_penalties: (base.total_penalties - result.amount) as i128,
            ..base
        }
    }
}

/// Recording `result` keeps every counter within its machine integer.
pub open spec fn stats_fit(stats: Option<SLAStats>, result: SLAResult) -> bool {
    let base = match stats {
        Some(s) => s,
        None => zero_stats(),
    };
    &&& base.total_calculations < u64::MAX
    &&& result.status == SlaStatus::Met ==> i128::MIN <= base.total_rewards + result.amount
        <= i128::MAX
    &&& result.status != SlaStatus::Met ==> {
        &&& base.total_violations < u64::MAX
        &&& result.amount != i128::MIN
        &&& i128::MIN <= base.total_penalties - result.amount <= i128::MAX
    }
}

impl StorageModel {
    /// The storage was written by this version of the library.
    pub open spec fn version_error(self) -> Option<SLAError> {
        match self.version {
            None => Some(SLAError::NotInitialized),
            Some(v) => if v != STORAGE_VERSION {
                Some(SLAError::VersionMismatch)
            } else {
                None
            },
        }
    }

    /// The caller holds the admin role.
    pub open spec fn admin_error(self, caller: Seq<char>) -> Option<SLAError> {
        match self.admin {
            None => Some(SLAError::NotInitialized),
            Some(a) => if a@ != caller {
                Some(SLAError::Unauthorized)
            } else {
                None
            },
        }
    }

    /// The caller holds the operator role.
    pub open spec fn operator_error(self, caller: Seq<char>) -> Option<SLAError> {
        match self.operator {
            None => Some(SLAError::NotInitialized),
            Some(o) => if o@ != caller {
                Some(SLAError::Unauthorized)
            } else {
                None
            },
        }
    }

    /// The contract is not paused.
    pub open spec fn pause_error(self) -> Option<SLAError> {
        if self.paused {
            Some(SLAError::ContractPaused)
        } else {
            None
        }
    }

    /// A configuration is stored under the severity name.
    pub open spec fn config_error(self, severity: Seq<char>) -> Option<SLAError> {
        match self.configs {
            None => Some(SLAError::NotInitialized),
            Some(_) => if severity_named(severity) is None {
                Some(SLAError::ConfigNotFound)
            } else {
                None
            },
        }
    }

    /// The configuration stored under a known severity name.
    pub open spec fn config_of(self, severity: Seq<char>) -> SLAConfig {
        self.configs.unwrap().spec_get(severity_named(severity).unwrap())
    }

    /// The proposal awaiting `caller` is there.
    pub open spec fn proposal_error(pending: Option<AccountId>, caller: Seq<char>) -> Option<SLAError> {
        match pending {
            None => Some(SLAError::NoPendingProposal),
            Some(p) => if p@ != caller {
                Some(SLAError::Unauthorized)
            } else {
                None
            },
        }
    }
}

/// Checks the storage version.
pub fn check_version(storage: &InstanceStorage) -> (r: Result<(), SLAError>)
    ensures
        r == or_fail(storage@.version_error(), ()),
{
    match storage.version {
        None => Err(SLAError::NotInitialized),
        Some(v) => if v != STORAGE_VERSION {
            Err(SLAError::VersionMismatch)
        } else {
            Ok(())
        },
    }
}

/// Checks that `caller` is the admin.
pub fn require_admin(storage: &InstanceStorage, caller: &AccountId) -> (r: Result<(), SLAError>)
    ensures
        r == or_fail(storage@.admin_error(caller@), ()),
{
    match &storage.admin {
        None => Err(SLAError::NotInitialized),
        Some(a) => if !caller.same_as(a) {
            Err(SLAError::Unauthorized)
        } else {
            Ok(())
        },
    }
}

/// Checks that `caller` is the operator.
pub fn require_operator(storage: &InstanceStorage, caller: &AccountId) -> (r: Result<(), SLAError>)
    ensures
        r == or_fail(storage@.operator_error(caller@), ()),
{
    match &storage.operator {
        None => Err(SLAError::NotInitialized),
        Some(o) => if !caller.same_as(o) {
            Err(SLAError::Unauthorized)
        } else {
            Ok(())
        },
    }
}

/// Checks that the contract is not paused.
pub fn require_not_paused(storage: &InstanceStorage) -> (r: Result<(), SLAError>)
    ensures
        r == or_fail(storage@.pause_error(), ()),
{
    if storage.paused {
        Err(SLAError::ContractPaused)
    } else {
        Ok(())
    }
}

/// Looks up the configuration of a severity name.
pub fn load_config(storage: &InstanceStorage, severity: &str) -> (r: Result<
    (Severity, SLAConfig),
    SLAError,
>)
    ensures
        r == or_fail(
            storage@.config_error(severity@),
            (severity_named(severity@).unwrap(), storage@.config_of(severity@)),
        ),
{
    match &storage.configs {
        None => Err(SLAError::NotInitialized),
        Some(table) => match Severity::from_name(severity) {
            None => Err(SLAError::ConfigNotFound),
            Some(s) => Ok((s, table.get(s))),
        },
    }
}

/// Checks that a proposal awaits `caller`.
pub fn require_proposal(pending: &Option<AccountId>, caller: &AccountId) -> (r: Result<(), SLAError>)
    ensures
        r == or_fail(StorageModel::proposal_error(*pending, caller@), ()),
{
    match pending {
        None => Err(SLAError::NoPendingProposal),
        Some(p) => if !caller.same_as(p) {
            Err(SLAError::Unauthorized)
        } else {
            Ok(())
        },
    }
}

/// Tests `stats_fit`.
pub fn check_stats_fit(stats: &Option<SLAStats>, result: &SLAResult) -> (r: bool)
    ensures
        r == stats_fit(*stats, *result),
{
    let base = match stats {
        Some(s) => *s,
        None => SLAStats {
            total_calculations: 0,
            total_violations: 0,
            total_rewards: 0,
            total_penalties: 0,
        },
    };
    if base.total_calculations == u64::MAX {
        return false;
    }
    match result.status {
        SlaStatus::Met => base.total_rewards.checked_add(result.amount).is_some(),
        SlaStatus::Violated => base.total_violations < u64::MAX && result.amount != i128::MIN
            && base.total_penalties.checked_sub(result.amount).is_some(),
    }
}

/// Records `result` in the stats.
pub fn increment_stats(stats: &Option<SLAStats>, result: &SLAResult) -> (r: SLAStats)
    requires
        stats_fit(*stats, *result),
    ensures
        r == stats_after(*stats, *result),
{
    let mut s = match stats {
        Some(s) => *s,
        None => SLAStats {
            total_calculations: 0,
            total_violations: 0,
            total_rewards: 0,
            total_penalties: 0,
        },
    };
    s.total_calculations = s.total_calculations + 1;
    match result.status {
        SlaStatus::Met => {
            s.total_rewards = s.total_rewards + result.amount;
        },
        SlaStatus::Violated => {
            s.total_violations = s.total_violations + 1;
            s.total_penalties = s.total_penalties - result.amount;
        },
    }
    s
}

} // verus!
