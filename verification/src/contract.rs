//! The calculator's entry points.
//!
//! Every call first runs its checks in a fixed order; the first failing check
//! is the error returned, and a call that fails changes neither the storage
//! nor the event log.
use vstd::prelude::*;
use crate::calc::{compute_result, result_fits, sla_result};
use crate::events::ContractEvent;
use crate::hash::{compute_config_hash, config_hash};
use crate::storage::{
    check_version, first_error, increment_stats, load_config, missing, or_fail, require_admin,
    require_not_paused, require_operator, require_proposal, stats_after, stats_fit, zero_stats,
    ContractEnv, EnvModel, StorageModel, RESULT_SCHEMA_VERSION, STORAGE_VERSION,
};
use crate::types::{
    AccountId, ConfigEntry, ConfigSnapshot, ConfigTable, ContractMetadata, PauseInfo, PaymentType,
    Rating, SLAConfig, SLAError, SLAResult, SLAResultSchema, SLAStats, Severity, SlaStatus,
    severity_named, supported_severities, canonical_severities,
};
use crate::validation::{config_is_valid, validate_config};

verus! {

/// The SLA calculator contract; its state lives in a `ContractEnv`.
pub struct SLACalculatorContract;

/// The configuration written by `initialize`.
pub open spec fn default_configs() -> ConfigTable {
    ConfigTable {
        critical: SLAConfig { threshold_minutes: 15, penalty_per_minute: 100, reward_base: 750 },
        high: SLAConfig { threshold_minutes: 30, penalty_per_minute: 50, reward_base: 750 },
        medium: SLAConfig { threshold_minutes: 60, penalty_per_minute: 25, reward_base: 750 },
        low: SLAConfig { threshold_minutes: 120, penalty_per_minute: 10, reward_base: 600 },
    }
}

/// `initialize` refuses storage that was already initialized.
pub open spec fn initialize_error(s: StorageModel) -> Option<SLAError> {
    if s.admin is Some || s.version is Some {
        Some(SLAError::AlreadyInitialized)
    } else {
        None
    }
}

/// The storage after `initialize`: roles, an unpaused flag, zeroed stats, an
/// empty history, the default configuration and the storage version.
pub open spec fn initialized_storage(
    s: StorageModel,
    admin: AccountId,
    operator: AccountId,
) -> StorageModel {
    StorageModel {
        version: Some(STORAGE_VERSION),
        admin: Some(admin),
        operator: Some(operator),
        paused: false,
        configs: Some(default_configs()),
        stats: Some(zero_stats()),
        history: Seq::empty(),
        ..s
    }
}

/// The checks of a call reserved to the admin.
pub open spec fn admin_gate_error(s: StorageModel, caller: Seq<char>) -> Option<SLAError> {
    first_error(s.version_error(), s.admin_error(caller))
}

/// The checks of a read of a stored entry.
pub open spec fn read_error<T>(s: StorageModel, entry: Option<T>) -> Option<SLAError> {
    first_error(s.version_error(), missing(entry))
}

/// The checks of `set_config`: the admin, a known severity, a valid
/// configuration, and a stored configuration table.
pub open spec fn set_config_error(
    s: StorageModel,
    caller: Seq<char>,
    severity: Seq<char>,
    cfg: SLAConfig,
) -> Option<SLAError> {
    first_error(
        admin_gate_error(s, caller),
        match severity_named(severity) {
            None => Some(SLAError::InvalidSeverity),
            Some(sev) => if !config_is_valid(sev, cfg) {
                Some(SLAError::InvalidConfig)
            } else {
                missing(s.configs)
            },
        },
    )
}

/// The checks of `calculate_sla_view` and `get_config`.
pub open spec fn lookup_error(s: StorageModel, severity: Seq<char>) -> Option<SLAError> {
    first_error(s.version_error(), s.config_error(severity))
}

/// The checks of `calculate_sla`: the version, the pause flag, the operator,
/// and the severity's configuration.
pub open spec fn calculation_error(
    s: StorageModel,
    caller: Seq<char>,
    severity: Seq<char>,
) -> Option<SLAError> {
    first_error(
        s.version_error(),
        first_error(s.pause_error(), first_error(s.operator_error(caller), s.config_error(severity))),
    )
}

/// Recording a calculation: the result joins the history and the stats, and a
/// settlement intent then the result are published.
pub open spec fn record_calculation(e: EnvModel, severity: Severity, result: SLAResult) -> EnvModel {
    let s = e.storage;
    e.with_storage(
        StorageModel {
            history: s.history.push(result),
            stats: Some(stats_after(s.stats, result)),
            ..s
        },
    ).emit(
        ContractEvent::SettlementIntent {
            severity,
            result,
            config_hash: config_hash(s.configs.unwrap()),
        },
    ).emit(ContractEvent::SlaCalculated { severity, result })
}

/// The calculation stays within the machine integers.
pub open spec fn calculation_fits(s: StorageModel, severity: Seq<char>, mttr_minutes: u32) -> bool {
    let cfg = s.config_of(severity);
    &&& result_fits(mttr_minutes, cfg)
    &&& forall|outage_id: String, at: u64|
        stats_fit(s.stats, #[trigger] sla_result(outage_id, mttr_minutes, cfg, at))
}

/// The earliest record time that an age-based prune keeps.
pub open spec fn age_cutoff(now: u64, min_age_seconds: u64) -> u64 {
    if now >= min_age_seconds {
        (now - min_age_seconds) as u64
    } else {
        0
    }
}

/// The history entries recorded at or after `cutoff`, in order.
pub open spec fn recorded_since(history: Seq<SLAResult>, cutoff: u64) -> Seq<SLAResult> {
    history.filter(|r: SLAResult| r.recorded_at >= cutoff)
}

/// The result of a prune to the latest `keep_latest` entries.
pub open spec fn pruned_to_latest(e: EnvModel, caller: AccountId, keep_latest: u32) -> EnvModel {
    let h = e.storage.history;
    if h.len() > keep_latest {
        e.with_storage(
            StorageModel { history: h.subrange(h.len() - keep_latest, h.len() as int), ..e.storage },
        ).emit(
            ContractEvent::HistoryPruned {
                caller,
                removed: (h.len() - keep_latest) as u32,
                kept: keep_latest,
            },
        )
    } else {
        e
    }
}

/// The result of a prune of the entries older than `min_age_seconds`.
pub open spec fn pruned_by_age(e: EnvModel, caller: AccountId, min_age_seconds: u64) -> EnvModel {
    let h = e.storage.history;
    let kept = recorded_since(h, age_cutoff(e.ledger_timestamp, min_age_seconds));
    let after = e.with_storage(StorageModel { history: kept, ..e.storage });
    if kept.len() < h.len() {
        after.emit(
            ContractEvent::HistoryPrunedByAge {
                caller,
                removed: (h.len() - kept.len()) as u32,
                kept: kept.len() as u32,
            },
        )
    } else {
        after
    }
}

/// The checks of `migrate`: stored version, the admin, and a version this
/// library can read.
pub open spec fn migrate_error(s: StorageModel, caller: Seq<char>) -> Option<SLAError> {
    first_error(
        missing(s.version),
        first_error(
            s.admin_error(caller),
            if s.version.unwrap() > STORAGE_VERSION {
                Some(SLAError::VersionMismatch)
            } else {
                None
            },
        ),
    )
}

/// The result of `migrate`: an older storage version is brought current.
pub open spec fn migrated(e: EnvModel, caller: AccountId) -> EnvModel {
    let v = e.storage.version.unwrap();
    if v < STORAGE_VERSION {
        e.with_storage(StorageModel { version: Some(STORAGE_VERSION), ..e.storage }).emit(
            ContractEvent::StorageMigrated { caller, from_version: v, to_version: STORAGE_VERSION },
        )
    } else {
        e
    }
}

impl SLACalculatorContract {
    /// One-time setup: records the roles, the default configuration of every
    /// severity, zeroed stats and an empty history.
    pub fn initialize(env: &mut ContractEnv, admin: AccountId, operator: AccountId) -> (r: Result<
        (),
        SLAError,
    >)
        ensures
            r == or_fail(initialize_error(old(env)@.storage), ()),
            final(env)@ == if r is Ok {
                old(env)@.with_storage(initialized_storage(old(env)@.storage, admin, operator))
            } else {
                old(env)@
            },
    {
        if env.storage.admin.is_some() || env.storage.version.is_some() {
            return Err(SLAError::AlreadyInitialized);
        }
        env.storage.admin = Some(admin);
        env.storage.operator = Some(operator);
        env.storage.paused = false;
        env.storage.stats = Some(
            SLAStats {
                total_calculations: 0,
                total_violations: 0,
                total_rewards: 0,
                total_penalties: 0,
            },
        );
        env.storage.history = Vec::new();
        env.storage.configs = Some(
            ConfigTable {
                critical: SLAConfig {
                    threshold_minutes: 15,
                    penalty_per_minute: 100,
                    reward_base: 750,
                },
                high: SLAConfig { threshold_minutes: 30, penalty_per_minute: 50, reward_base: 750 },
                medium: SLAConfig {
                    threshold_minutes: 60,
                    penalty_per_minute: 25,
                    reward_base: 750,
                },
                low: SLAConfig { threshold_minutes: 120, penalty_per_minute: 10, reward_base: 600 },
            },
        );
        env.storage.version = Some(STORAGE_VERSION);
        assert(env@.storage =~= initialized_storage(old(env)@.storage, admin, operator));
        Ok(())
    }

    /// The admin.
    pub fn get_admin(env: &ContractEnv) -> (r: Result<AccountId, SLAError>)
        ensures
            r == or_fail(read_error(env@.storage, env@.storage.admin), env@.storage.admin.unwrap()),
    {
        check_version(&env.storage)?;
        match &env.storage.admin {
            None => Err(SLAError::NotInitialized),
            Some(a) => Ok(a.clone()),
        }
    }

    /// The operator.
    pub fn get_operator(env: &ContractEnv) -> (r: Result<AccountId, SLAError>)
        ensures
            r == or_fail(
                read_error(env@.storage, env@.storage.operator),
                env@.storage.operator.unwrap(),
            ),
    {
        check_version(&env.storage)?;
        match &env.storage.operator {
            None => Err(SLAError::NotInitialized),
            Some(o) => Ok(o.clone()),
        }
    }

    /// Replaces the operator (admin only).
    pub fn set_operator(env: &mut ContractEnv, caller: &AccountId, new_operator: AccountId) -> (r:
        Result<(), SLAError>)
        ensures
            r == or_fail(admin_gate_error(old(env)@.storage, caller@), ()),
            final(env)@ == if r is Ok {
                old(env)@.with_storage(
                    StorageModel { operator: Some(new_operator), ..old(env)@.storage },
                ).emit(ContractEvent::OperatorSet { caller: *caller, new_operator })
            } else {
                old(env)@
            },
    {
        check_version(&env.storage)?;
        require_admin(&env.storage, caller)?;
        env.events.push(
            ContractEvent::OperatorSet { caller: caller.clone(), new_operator: new_operator.clone() },
        );
        env.storage.operator = Some(new_operator);
        Ok(())
    }

    /// Proposes a new admin (admin only); the current admin keeps the role
    /// until the proposed account accepts.
    pub fn propose_admin(env: &mut ContractEnv, caller: &AccountId, new_admin: AccountId) -> (r:
        Result<(), SLAError>)
        ensures
            r == or_fail(admin_gate_error(old(env)@.storage, caller@), ()),
            final(env)@ == if r is Ok {
                old(env)@.with_storage(
                    StorageModel { pending_admin: Some(new_admin), ..old(env)@.storage },
                ).emit(ContractEvent::AdminProposed { caller: *caller, proposed: new_admin })
            } else {
                old(env)@
            },
    {
        check_version(&env.storage)?;
        require_admin(&env.storage, caller)?;
        env.events.push(
            ContractEvent::AdminProposed { caller: caller.clone(), proposed: new_admin.clone() },
        );
        env.storage.pending_admin = Some(new_admin);
        Ok(())
    }

    /// Completes an admin transfer: the proposed account becomes the admin.
    pub fn accept_admin(env: &mut ContractEnv, caller: &AccountId) -> (r: Result<(), SLAError>)
        ensures
            r == or_fail(
                first_error(
                    old(env)@.storage.version_error(),
                    StorageModel::proposal_error(old(env)@.storage.pending_admin, caller@),
                ),
                (),
            ),
            final(env)@ == if r is Ok {
                old(env)@.with_storage(
                    StorageModel {
                        admin: old(env)@.storage.pending_admin,
                        pending_admin: None,
                        ..old(env)@.storage
                    },
                ).emit(
                    ContractEvent::AdminAccepted { new_admin: old(env)@.storage.pending_admin.unwrap() },
                )
            } else {
                old(env)@
            },
    {
        check_version(&env.storage)?;
        require_proposal(&env.storage.pending_admin, caller)?;
        let new_admin = env.storage.pending_admin.take().unwrap();
        env.events.push(ContractEvent::AdminAccepted { new_admin: new_admin.clone() });
        env.storage.admin = Some(new_admin);
        Ok(())
    }

    /// Withdraws a pending admin proposal (admin only).
    pub fn cancel_admin_proposal(env: &mut ContractEnv, caller: &AccountId) -> (r: Result<
        (),
        SLAError,
    >)
        ensures
            r == or_fail(admin_gate_error(old(env)@.storage, caller@), ()),
            final(env)@ == if r is Ok {
                old(env)@.with_storage(
                    StorageModel { pending_admin: None, ..old(env)@.storage },
                ).emit(ContractEvent::AdminProposalCancelled { caller: *caller })
            } else {
                old(env)@
            },
    {
        check_version(&env.storage)?;
        require_admin(&env.storage, caller)?;
        env.storage.pending_admin = None;
        env.events.push(ContractEvent::AdminProposalCancelled { caller: caller.clone() });
        Ok(())
    }

    /// The account proposed as the next admin, if any.
    pub fn get_pending_admin(env: &ContractEnv) -> (r: Result<Option<AccountId>, SLAError>)
        ensures
            r == or_fail(env@.storage.version_error(), env@.storage.pending_admin),
    {
        check_version(&env.storage)?;
        Ok(env.storage.pending_admin.clone())
    }

    /// Proposes a new operator (admin only); the current operator keeps the
    /// role until the proposed account accepts.
    pub fn propose_operator(
        env: &mut ContractEnv,
        caller: &AccountId,
        new_operator: AccountId,
    ) -> (r: Result<(), SLAError>)
        ensures
            r == or_fail(admin_gate_error(old(env)@.storage, caller@), ()),
            final(env)@ == if r is Ok {
                old(env)@.with_storage(
                    StorageModel { pending_operator: Some(new_operator), ..old(env)@.storage },
                ).emit(ContractEvent::OperatorProposed { caller: *caller, proposed: new_operator })
            } else {
                old(env)@
            },
    {
        check_version(&env.storage)?;
        require_admin(&env.storage, caller)?;
        env.events.push(
            ContractEvent::OperatorProposed {
                caller: caller.clone(),
                proposed: new_operator.clone(),
            },
        );
        env.storage.pending_operator = Some(new_operator);
        Ok(())
    }

    /// Completes an operator hand-off: the proposed account becomes the
    /// operator.
    pub fn accept_operator(env: &mut ContractEnv, caller: &AccountId) -> (r: Result<(), SLAError>)
        ensures
            r == or_fail(
                first_error(
                    old(env)@.storage.version_error(),
                    StorageModel::proposal_error(old(env)@.storage.pending_operator, caller@),
                ),
                (),
            ),
            final(env)@ == if r is Ok {
                old(env)@.with_storage(
                    StorageModel {
                        operator: old(env)@.storage.pending_operator,
                        pending_operator: None,
                        ..old(env)@.storage
                    },
                ).emit(
                    ContractEvent::OperatorAccepted {
                        new_operator: old(env)@.storage.pending_operator.unwrap(),
                    },
                )
            } else {
                old(env)@
            },
    {
        check_version(&env.storage)?;
        require_proposal(&env.storage.pending_operator, caller)?;
        let new_operator = env.storage.pending_operator.take().unwrap();
        env.events.push(ContractEvent::OperatorAccepted { new_operator: new_operator.clone() });
        env.storage.operator = Some(new_operator);
        Ok(())
    }

    /// Withdraws a pending operator proposal (admin only).
    pub fn cancel_operator_proposal(env: &mut ContractEnv, caller: &AccountId) -> (r: Result<
        (),
        SLAError,
    >)
        ensures
            r == or_fail(admin_gate_error(old(env)@.storage, caller@), ()),
            final(env)@ == if r is Ok {
                old(env)@.with_storage(
                    StorageModel { pending_operator: None, ..old(env)@.storage },
                ).emit(ContractEvent::OperatorProposalCancelled { caller: *caller })
            } else {
                old(env)@
            },
    {
        check_version(&env.storage)?;
        require_admin(&env.storage, caller)?;
        env.storage.pending_operator = None;
        env.events.push(ContractEvent::OperatorProposalCancelled { caller: caller.clone() });
        Ok(())
    }

    /// The account proposed as the next operator, if any.
    pub fn get_pending_operator(env: &ContractEnv) -> (r: Result<Option<AccountId>, SLAError>)
        ensures
            r == or_fail(env@.storage.version_error(), env@.storage.pending_operator),
    {
        check_version(&env.storage)?;
        Ok(env.storage.pending_operator.clone())
    }

    /// Gives up the admin role for good (admin only); a pending admin
    /// proposal is withdrawn with it.
    pub fn renounce_admin(env: &mut ContractEnv, caller: &AccountId) -> (r: Result<(), SLAError>)
        ensures
            r == or_fail(admin_gate_error(old(env)@.storage, caller@), ()),
            final(env)@ == if r is Ok {
                old(env)@.with_storage(
                    StorageModel { admin: None, pending_admin: None, ..old(env)@.storage },
                ).emit(ContractEvent::AdminRenounced { caller: *caller })
            } else {
                old(env)@
            },
    {
        check_version(&env.storage)?;
        require_admin(&env.storage, caller)?;
        env.storage.admin = None;
        env.storage.pending_admin = None;
        env.events.push(ContractEvent::AdminRenounced { caller: caller.clone() });
        Ok(())
    }

    /// Pauses the contract (admin only), recording the reason and the ledger
    /// time; `calculate_sla` is refused until `unpause`.
    pub fn pause(env: &mut ContractEnv, caller: &AccountId, reason: String) -> (r: Result<
        (),
        SLAError,
    >)
        ensures
            r == or_fail(admin_gate_error(old(env)@.storage, caller@), ()),
            final(env)@ == if r is Ok {
                old(env)@.with_storage(
                    StorageModel {
                        paused: true,
                        pause_info: Some(
                            PauseInfo { reason, paused_at: old(env)@.ledger_timestamp },
                        ),
                        ..old(env)@.storage
                    },
                ).emit(ContractEvent::Paused { caller: *caller })
            } else {
                old(env)@
            },
    {
        check_version(&env.storage)?;
        require_admin(&env.storage, caller)?;
        env.storage.paused = true;
        env.storage.pause_info = Some(PauseInfo { reason, paused_at: env.ledger_timestamp });
        env.events.push(ContractEvent::Paused { caller: caller.clone() });
        Ok(())
    }

    /// Resumes the contract (admin only) and clears the pause record.
    pub fn unpause(env: &mut ContractEnv, caller: &AccountId) -> (r: Result<(), SLAError>)
        ensures
            r == or_fail(admin_gate_error(old(env)@.storage, caller@), ()),
            final(env)@ == if r is Ok {
                old(env)@.with_storage(
                    StorageModel { paused: false, pause_info: None, ..old(env)@.storage },
                ).emit(ContractEvent::Unpaused { caller: *caller })
            } else {
                old(env)@
            },
    {
        check_version(&env.storage)?;
        require_admin(&env.storage, caller)?;
        env.storage.paused = false;
        env.storage.pause_info = None;
        env.events.push(ContractEvent::Unpaused { caller: caller.clone() });
        Ok(())
    }

    /// Whether the contract is paused.
    pub fn is_paused(env: &ContractEnv) -> (r: Result<bool, SLAError>)
        ensures
            r == or_fail(env@.storage.version_error(), env@.storage.paused),
    {
        check_version(&env.storage)?;
        Ok(env.storage.paused)
    }

    /// Why and since when the contract is paused, if it is.
    pub fn get_pause_info(env: &ContractEnv) -> (r: Result<Option<PauseInfo>, SLAError>)
        ensures
            r == or_fail(env@.storage.version_error(), env@.storage.pause_info),
    {
        check_version(&env.storage)?;
        Ok(env.storage.pause_info.clone())
    }

    /// Replaces the configuration of a severity (admin only), after checking
    /// that the severity is supported and the values are within its bounds.
    pub fn set_config(
        env: &mut ContractEnv,
        caller: &AccountId,
        severity: &str,
        threshold_minutes: u32,
        penalty_per_minute: i128,
        reward_base: i128,
    ) -> (r: Result<(), SLAError>)
        ensures
            ({
                let cfg = SLAConfig { threshold_minutes, penalty_per_minute, reward_base };
                let s = old(env)@.storage;
                let sev = severity_named(severity@).unwrap();
                &&& r == or_fail(set_config_error(s, caller@, severity@, cfg), ())
                &&& final(env)@ == if r is Ok {
                    old(env)@.with_storage(
                        StorageModel { configs: Some(s.configs.unwrap().spec_set(sev, cfg)), ..s },
                    ).emit(ContractEvent::ConfigUpdated { severity: sev, config: cfg })
                } else {
                    old(env)@
                }
            }),
    {
        check_version(&env.storage)?;
        require_admin(&env.storage, caller)?;
        let cfg = SLAConfig { threshold_minutes, penalty_per_minute, reward_base };
        let sev = match Severity::from_name(severity) {
            None => return Err(SLAError::InvalidSeverity),
            Some(s) => s,
        };
        if !validate_config(sev, &cfg) {
            return Err(SLAError::InvalidConfig);
        }
        match &mut env.storage.configs {
            None => return Err(SLAError::NotInitialized),
            Some(table) => table.set(sev, cfg),
        }
        env.events.push(ContractEvent::ConfigUpdated { severity: sev, config: cfg });
        Ok(())
    }

    /// The configuration of a severity.
    pub fn get_config(env: &ContractEnv, severity: &str) -> (r: Result<SLAConfig, SLAError>)
        ensures
            r == or_fail(lookup_error(env@.storage, severity@), env@.storage.config_of(severity@)),
    {
        check_version(&env.storage)?;
        let (_, cfg) = load_config(&env.storage, severity)?;
        Ok(cfg)
    }

    /// Every severity's configuration, in canonical order.
    pub fn list_configs(env: &ContractEnv) -> (r: Result<Vec<ConfigEntry>, SLAError>)
        ensures
            match r {
                Ok(v) => read_error(env@.storage, env@.storage.configs) is None && v@
                    == env@.storage.configs.unwrap().spec_entries(),
                Err(e) => read_error(env@.storage, env@.storage.configs) == Some(e),
            },
    {
        check_version(&env.storage)?;
        match &env.storage.configs {
            None => Err(SLAError::NotInitialized),
            Some(table) => Ok(table.entries()),
        }
    }

    /// A versioned snapshot of every severity's configuration, in canonical
    /// order.
    pub fn get_config_snapshot(env: &ContractEnv) -> (r: Result<ConfigSnapshot, SLAError>)
        ensures
            match r {
                Ok(snap) => {
                    &&& read_error(env@.storage, env@.storage.configs) is None
                    &&& snap.version@ == "v1"@
                    &&& snap.entries@ == env@.storage.configs.unwrap().spec_entries()
                },
                Err(e) => read_error(env@.storage, env@.storage.configs) == Some(e),
            },
    {
        check_version(&env.storage)?;
        match &env.storage.configs {
            None => Err(SLAError::NotInitialized),
            Some(table) => Ok(ConfigSnapshot { version: "v1".to_owned(), entries: table.entries() }),
        }
    }

    /// The number of configured severities.
    pub fn get_config_count(env: &ContractEnv) -> (r: Result<u32, SLAError>)
        ensures
            r == or_fail(
                read_error(env@.storage, env@.storage.configs),
                env@.storage.configs.unwrap().spec_entries().len() as u32,
            ),
    {
        check_version(&env.storage)?;
        match &env.storage.configs {
            None => Err(SLAError::NotInitialized),
            Some(table) => {
                let n = table.entries().len();
                Ok(n as u32)
            },
        }
    }

    /// The fingerprint of the stored configuration.
    pub fn get_config_version_hash(env: &ContractEnv) -> (r: Result<u64, SLAError>)
        ensures
            r == or_fail(
                read_error(env@.storage, env@.storage.configs),
                config_hash(env@.storage.configs.unwrap()),
            ),
    {
        check_version(&env.storage)?;
        match &env.storage.configs {
            None => Err(SLAError::NotInitialized),
            Some(table) => Ok(compute_config_hash(table)),
        }
    }

    /// The symbols with which results are published, and their schema
    /// version.
    pub fn get_result_schema(env: &ContractEnv) -> (r: Result<SLAResultSchema, SLAError>)
        ensures
            match r {
                Ok(schema) => {
                    &&& env@.storage.version_error() is None
                    &&& schema.version@ == "v1"@
                    &&& schema.schema_version == RESULT_SCHEMA_VERSION
                    &&& schema.status_met@ == SlaStatus::Met.spec_name()
                    &&& schema.status_violated@ == SlaStatus::Violated.spec_name()
                    &&& schema.payment_reward@ == PaymentType::Reward.spec_name()
                    &&& schema.payment_penalty@ == PaymentType::Penalty.spec_name()
                    &&& schema.rating_exceptional@ == Rating::Top.spec_name()
                    &&& schema.rating_excellent@ == Rating::Excellent.spec_name()
                    &&& schema.rating_good@ == Rating::Good.spec_name()
                    &&& schema.rating_poor@ == Rating::Poor.spec_name()
                },
                Err(e) => env@.storage.version_error() == Some(e),
            },
    {
        check_version(&env.storage)?;
        Ok(
            SLAResultSchema {
                version: "v1".to_owned(),
                schema_version: RESULT_SCHEMA_VERSION,
                status_met: SlaStatus::Met.name().to_owned(),
                status_violated: SlaStatus::Violated.name().to_owned(),
                payment_reward: PaymentType::Reward.name().to_owned(),
                payment_penalty: PaymentType::Penalty.name().to_owned(),
                rating_exceptional: Rating::Top.name().to_owned(),
                rating_excellent: Rating::Excellent.name().to_owned(),
                rating_good: Rating::Good.name().to_owned(),
                rating_poor: Rating::Poor.name().to_owned(),
            },
        )
    }

    /// What the contract is: its name, storage and schema versions, supported
    /// severities and features.
    pub fn get_contract_metadata() -> (r: ContractMetadata)
        ensures
            r.contract_name@ == "sla_calc"@,
            r.storage_version == STORAGE_VERSION,
            r.result_schema_version == RESULT_SCHEMA_VERSION,
            r.supported_severities@ == canonical_severities(),
            r.features@.len() == 5,
            r.features@[0]@ == "calc_view"@,
            r.features@[1]@ == "history"@,
            r.features@[2]@ == "stats"@,
            r.features@[3]@ == "pause"@,
            r.features@[4]@ == "two_step"@,
    {
        let mut features: Vec<String> = Vec::new();
        features.push("calc_view".to_owned());
        features.push("history".to_owned());
        features.push("stats".to_owned());
        features.push("pause".to_owned());
        features.push("two_step".to_owned());
        ContractMetadata {
            contract_name: "sla_calc".to_owned(),
            storage_version: STORAGE_VERSION,
            result_schema_version: RESULT_SCHEMA_VERSION,
            supported_severities: supported_severities(),
            features,
        }
    }

    /// The cumulative statistics.
    pub fn get_stats(env: &ContractEnv) -> (r: Result<SLAStats, SLAError>)
        ensures
            r == or_fail(read_error(env@.storage, env@.storage.stats), env@.storage.stats.unwrap()),
    {
        check_version(&env.storage)?;
        match env.storage.stats {
            None => Err(SLAError::NotInitialized),
            Some(s) => Ok(s),
        }
    }

    /// Computes the result `calculate_sla` would record, without checking
    /// roles or the pause flag and without changing anything.
    pub fn calculate_sla_view(
        env: &ContractEnv,
        outage_id: String,
        severity: &str,
        mttr_minutes: u32,
    ) -> (r: Result<SLAResult, SLAError>)
        requires
            lookup_error(env@.storage, severity@) is None ==> result_fits(
                mttr_minutes,
                env@.storage.config_of(severity@),
            ),
        ensures
            r == or_fail(
                lookup_error(env@.storage, severity@),
                sla_result(
                    outage_id,
                    mttr_minutes,
                    env@.storage.config_of(severity@),
                    env@.ledger_timestamp,
                ),
            ),
    {
        check_version(&env.storage)?;
        let (_, cfg) = load_config(&env.storage, severity)?;
        Ok(compute_result(outage_id, mttr_minutes, &cfg, env.ledger_timestamp))
    }

    /// Runs the checks of `calculate_sla` without calculating: the error it
    /// would return, if any.
    pub fn check_calculation(env: &ContractEnv, caller: &AccountId, severity: &str) -> (r: Result<
        (),
        SLAError,
    >)
        ensures
            r == or_fail(calculation_error(env@.storage, caller@, severity@), ()),
    {
        check_version(&env.storage)?;
        require_not_paused(&env.storage)?;
        require_operator(&env.storage, caller)?;
        load_config(&env.storage, severity)?;
        Ok(())
    }

    /// Whether `calculate_sla_view` for this severity and repair time stays
    /// within the machine integers (vacuously so when no configuration is
    /// stored under the name).
    pub fn view_fits(env: &ContractEnv, severity: &str, mttr_minutes: u32) -> (r: bool)
        ensures
            r == (env@.storage.config_error(severity@) is None ==> result_fits(
                mttr_minutes,
                env@.storage.config_of(severity@),
            )),
    {
        match load_config(&env.storage, severity) {
            Ok((_, cfg)) => crate::calc::check_result_fits(mttr_minutes, &cfg),
            Err(_) => true,
        }
    }

    /// Whether `calculate_sla` for this severity and repair time stays within
    /// the machine integers (vacuously so when no configuration is stored
    /// under the name).
    pub fn calculation_fits(env: &ContractEnv, severity: &str, mttr_minutes: u32) -> (r: bool)
        ensures
            r == (env@.storage.config_error(severity@) is None ==> calculation_fits(
                env@.storage,
                severity@,
                mttr_minutes,
            )),
    {
        let cfg = match load_config(&env.storage, severity) {
            Ok((_, cfg)) => cfg,
            Err(_) => return true,
        };
        if !crate::calc::check_result_fits(mttr_minutes, &cfg) {
            return false;
        }
        let probe = compute_result(String::new(), mttr_minutes, &cfg, 0);
        let fits = crate::storage::check_stats_fit(&env.storage.stats, &probe);
        proof {
            assert forall|outage_id: String, at: u64|
                stats_fit(
                    env@.storage.stats,
                    #[trigger] sla_result(outage_id, mttr_minutes, cfg, at),
                ) == stats_fit(env@.storage.stats, probe) by {}
        }
        fits
    }

    /// Records an SLA calculation (operator only, refused while paused): the
    /// result joins the history and the stats, and a settlement intent and
    /// the result are published.
    pub fn calculate_sla(
        env: &mut ContractEnv,
        caller: &AccountId,
        outage_id: String,
        severity: &str,
        mttr_minutes: u32,
    ) -> (r: Result<SLAResult, SLAError>)
        requires
            calculation_error(old(env)@.storage, caller@, severity@) is None ==> calculation_fits(
                old(env)@.storage,
                severity@,
                mttr_minutes,
            ),
        ensures
            ({
                let s = old(env)@.storage;
                let result = sla_result(
                    outage_id,
                    mttr_minutes,
                    s.config_of(severity@),
                    old(env)@.ledger_timestamp,
                );
                &&& r == or_fail(calculation_error(s, caller@, severity@), result)
                &&& final(env)@ == if r is Ok {
                    record_calculation(old(env)@, severity_named(severity@).unwrap(), result)
                } else {
                    old(env)@
                }
            }),
    {
        check_version(&env.storage)?;
        require_not_paused(&env.storage)?;
        require_operator(&env.storage, caller)?;
        let (sev, cfg) = load_config(&env.storage, severity)?;
        let result = compute_result(outage_id, mttr_minutes, &cfg, env.ledger_timestamp);
        let hash = match &env.storage.configs {
            Some(table) => compute_config_hash(table),
            None => 0,
        };
        let stats = increment_stats(&env.storage.stats, &result);
        env.storage.history.push(result.clone());
        env.storage.stats = Some(stats);
        env.events.push(
            ContractEvent::SettlementIntent { severity: sev, result: result.clone(), config_hash: hash },
        );
        env.events.push(ContractEvent::SlaCalculated { severity: sev, result: result.clone() });
        Ok(result)
    }

    /// The recorded results, oldest first.
    pub fn get_history(env: &ContractEnv) -> (r: Result<Vec<SLAResult>, SLAError>)
        ensures
            match r {
                Ok(v) => env@.storage.version_error() is None && v@ == env@.storage.history,
                Err(e) => env@.storage.version_error() == Some(e),
            },
    {
        check_version(&env.storage)?;
        let h = env.storage.history.clone();
        assert(h@ =~= env@.storage.history);
        Ok(h)
    }

    /// Cuts the history to its latest `keep_latest` entries (admin only).
    pub fn prune_history(env: &mut ContractEnv, caller: &AccountId, keep_latest: u32) -> (r: Result<
        (),
        SLAError,
    >)
        requires
            old(env)@.storage.history.len() <= u32::MAX,
        ensures
            r == or_fail(admin_gate_error(old(env)@.storage, caller@), ()),
            final(env)@ == if r is Ok {
                pruned_to_latest(old(env)@, *caller, keep_latest)
            } else {
                old(env)@
            },
    {
        check_version(&env.storage)?;
        require_admin(&env.storage, caller)?;
        let len = env.storage.history.len();
        let keep = keep_latest as usize;
        if len > keep {
            let remove_count = len - keep;
            let mut kept: Vec<SLAResult> = Vec::new();
            let mut i = remove_count;
            while i < len
                invariant
                    remove_count <= i <= len,
                    len == env.storage.history@.len(),
                    env.storage.history@ == old(env)@.storage.history,
                    kept@ == old(env)@.storage.history.subrange(remove_count as int, i as int),
                decreases len - i,
            {
                kept.push(env.storage.history[i].clone());
                i = i + 1;
                assert(kept@ =~= old(env)@.storage.history.subrange(remove_count as int, i as int));
            }
            env.storage.history = kept;
            env.events.push(
                ContractEvent::HistoryPruned {
                    caller: caller.clone(),
                    removed: remove_count as u32,
                    kept: keep_latest,
                },
            );
        }
        Ok(())
    }

    /// Drops the history entries recorded more than `min_age_seconds` before
    /// the current ledger time (admin only); the cutoff is 0 when the ledger
    /// time is smaller than the age.
    pub fn prune_history_by_age(
        env: &mut ContractEnv,
        caller: &AccountId,
        min_age_seconds: u64,
    ) -> (r: Result<(), SLAError>)
        requires
            old(env)@.storage.history.len() <= u32::MAX,
        ensures
            r == or_fail(admin_gate_error(old(env)@.storage, caller@), ()),
            final(env)@ == if r is Ok {
                pruned_by_age(old(env)@, *caller, min_age_seconds)
            } else {
                old(env)@
            },
    {
        check_version(&env.storage)?;
        require_admin(&env.storage, caller)?;
        let cutoff = env.ledger_timestamp.saturating_sub(min_age_seconds);
        let ghost h = old(env)@.storage.history;
        let ghost pred = |r: SLAResult| r.recorded_at >= cutoff;
        let len = env.storage.history.len();
        let mut kept: Vec<SLAResult> = Vec::new();
        let mut i: usize = 0;
        while i < len
            invariant
                i <= len,
                len == h.len(),
                env.storage.history@ == h,
                kept@ == h.take(i as int).filter(pred),
                pred == (|r: SLAResult| r.recorded_at >= cutoff),
            decreases len - i,
        {
            proof {
                reveal_with_fuel(Seq::<_>::filter, 1);
                assert(h.take(i + 1).drop_last() =~= h.take(i as int));
            }
            if env.storage.history[i].recorded_at >= cutoff {
                kept.push(env.storage.history[i].clone());
            }
            i = i + 1;
        }
        proof {
            assert(h.take(len as int) =~= h);
            h.lemma_filter_len(pred);
        }
        let kept_len = kept.len();
        env.storage.history = kept;
        if kept_len < len {
            env.events.push(
                ContractEvent::HistoryPrunedByAge {
                    caller: caller.clone(),
                    removed: (len - kept_len) as u32,
                    kept: kept_len as u32,
                },
            );
        }
        Ok(())
    }

    /// Brings an older storage layout to the current version (admin only);
    /// storage that is already current is left unchanged.
    pub fn migrate(env: &mut ContractEnv, caller: &AccountId) -> (r: Result<(), SLAError>)
        ensures
            r == or_fail(migrate_error(old(env)@.storage, caller@), ()),
            final(env)@ == if r is Ok {
                migrated(old(env)@, *caller)
            } else {
                old(env)@
            },
    {
        let v = match env.storage.version {
            None => return Err(SLAError::NotInitialized),
            Some(v) => v,
        };
        require_admin(&env.storage, caller)?;
        if v > STORAGE_VERSION {
            return Err(SLAError::VersionMismatch);
        }
        if v < STORAGE_VERSION {
            env.storage.version = Some(STORAGE_VERSION);
            env.events.push(
                ContractEvent::StorageMigrated {
                    caller: caller.clone(),
                    from_version: v,
                    to_version: STORAGE_VERSION,
                },
            );
        }
        Ok(())
    }
}

} // verus!
