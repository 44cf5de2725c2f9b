//! Properties that relate several calls of the contract.
use vstd::prelude::*;
use crate::calc::{result_fits, sla_result};
use crate::contract::{
    admin_gate_error, age_cutoff, calculation_error, default_configs, initialize_error,
    initialized_storage, lookup_error, migrate_error, pruned_by_age, pruned_to_latest,
    recorded_since, record_calculation, set_config_error,
};
use crate::hash::config_hash;
use crate::storage::{stats_after, stats_fit, zero_stats, EnvModel, StorageModel, STORAGE_VERSION};
use crate::types::{
    AccountId, ConfigTable, SLAConfig, SLAError, SLAResult, SLAStats, Severity, SlaStatus,
    severity_named,
};
use crate::validation::config_is_valid;

verus! {

/// Every severity's configuration is within its bounds.
pub open spec fn configs_valid(t: ConfigTable) -> bool {
    &&& config_is_valid(Severity::Critical, t.critical)
    &&& config_is_valid(Severity::High, t.high)
    &&& config_is_valid(Severity::Medium, t.medium)
    &&& config_is_valid(Severity::Low, t.low)
}

/// Count of results in `h`.
pub open spec fn count_calculations(h: Seq<SLAResult>) -> int {
    h.len() as int
}

/// Count of violated results in `h`.
pub open spec fn count_violations(h: Seq<SLAResult>) -> int
    decreases h.len(),
{
    if h.len() == 0 {
        0
    } else {
        count_violations(h.drop_last()) + if h.last().status == SlaStatus::Met {
            0int
        } else {
            1int
        }
    }
}

/// Sum of the rewards in `h`.
pub open spec fn sum_rewards(h: Seq<SLAResult>) -> int
    decreases h.len(),
{
    if h.len() == 0 {
        0
    } else {
        sum_rewards(h.drop_last()) + if h.last().status == SlaStatus::Met {
            h.last().amount as int
        } else {
            0int
        }
    }
}

/// Sum of the penalties in `h`, counted positive.
pub open spec fn sum_penalties(h: Seq<SLAResult>) -> int
    decreases h.len(),
{
    if h.len() == 0 {
        0
    } else {
        sum_penalties(h.drop_last()) + if h.last().status == SlaStatus::Met {
            0int
        } else {
            -(h.last().amount as int)
        }
    }
}

/// The stats are the aggregate of the results in `h` (absent stats count as
/// zero).
pub open spec fn stats_match(stats: Option<SLAStats>, h: Seq<SLAResult>) -> bool {
    let s = match stats {
        Some(s) => s,
        None => zero_stats(),
    };
    &&& s.total_calculations == count_calculations(h)
    &&& s.total_violations == count_violations(h)
    &&& s.total_rewards == sum_rewards(h)
    &&& s.total_penalties == sum_penalties(h)
}

/// The name of every severity parses back to it, and no two share a name.
pub proof fn lemma_severity_names_round_trip(severity: Severity)
    ensures
        severity_named(severity.spec_name()) == Some(severity),
{
    reveal_strlit("critical");
    reveal_strlit("high");
    reveal_strlit("medium");
    reveal_strlit("low");
    assert("high"@.len() != "critical"@.len());
    assert("medium"@.len() != "critical"@.len());
    assert("medium"@.len() != "high"@.len());
    assert("low"@.len() != "critical"@.len());
    assert("low"@.len() != "high"@.len());
    assert("low"@.len() != "medium"@.len());
}

/// Auditing agrees with recording: whenever `calculate_sla` would succeed,
/// `calculate_sla_view` succeeds on the same storage with the same result;
/// and a severity the view rejects is rejected by `calculate_sla` too.
pub proof fn lemma_view_agrees_with_calculation(
    s: StorageModel,
    caller: Seq<char>,
    severity: Seq<char>,
)
    ensures
        calculation_error(s, caller, severity) is None ==> lookup_error(s, severity) is None,
        calculation_error(s, caller, severity) is None ==> crate::storage::or_fail(
            lookup_error(s, severity),
            s.config_of(severity),
        ) == crate::storage::or_fail(calculation_error(s, caller, severity), s.config_of(severity)),
        lookup_error(s, severity) is Some ==> calculation_error(s, caller, severity) is Some,
{
}

/// A recorded calculation appends exactly its result to the history, in call
/// order, and publishes it last.
pub proof fn lemma_calculation_appends_to_history(
    e: EnvModel,
    severity: Severity,
    result: SLAResult,
)
    ensures
        record_calculation(e, severity, result).storage.history.len() == e.storage.history.len() + 1,
        record_calculation(e, severity, result).storage.history.last() == result,
        record_calculation(e, severity, result).storage.history.drop_last() == e.storage.history,
        record_calculation(e, severity, result).events.last()
            == (crate::events::ContractEvent::SlaCalculated { severity, result }),
{
    assert(record_calculation(e, severity, result).storage.history.drop_last() =~= e.storage.history);
}

/// The stats always aggregate the history they were recorded with: starting
/// from zero stats and an empty history, each recorded calculation keeps the
/// totals equal to the counts and sums over the history.
pub proof fn lemma_stats_track_history(stats: Option<SLAStats>, h: Seq<SLAResult>, result: SLAResult)
    requires
        stats_match(stats, h),
        stats_fit(stats, result),
    ensures
        stats_match(Some(stats_after(stats, result)), h.push(result)),
{
    let h2 = h.push(result);
    assert(h2.drop_last() =~= h);
}

/// Freshly initialized storage has consistent stats and valid configuration.
pub proof fn lemma_initialized_storage_is_consistent(
    s: StorageModel,
    admin: AccountId,
    operator: AccountId,
)
    ensures
        ({
            let t = initialized_storage(s, admin, operator);
            &&& t.version_error() is None
            &&& stats_match(t.stats, t.history)
            &&& configs_valid(t.configs.unwrap())
            &&& !t.paused
        }),
{
}

/// A contract can be initialized only once, even after its admin renounced.
pub proof fn lemma_initialize_only_once(s: StorageModel, admin: AccountId, operator: AccountId)
    ensures
        initialize_error(initialized_storage(s, admin, operator)) == Some(
            SLAError::AlreadyInitialized,
        ),
        initialize_error(
            (StorageModel { admin: None, pending_admin: None, ..initialized_storage(s, admin, operator) }),
        ) == Some(
            SLAError::AlreadyInitialized,
        ),
{
}

/// Reading a configuration gives back what `set_config` wrote, and every
/// other severity keeps its configuration.
pub proof fn lemma_config_read_after_write(
    s: StorageModel,
    caller: Seq<char>,
    written: Seq<char>,
    other: Seq<char>,
    cfg: SLAConfig,
)
    requires
        set_config_error(s, caller, written, cfg) is None,
        severity_named(other) is Some,
        severity_named(other) != severity_named(written),
    ensures
        ({
            let sev = severity_named(written).unwrap();
            let t = StorageModel { configs: Some(s.configs.unwrap().spec_set(sev, cfg)), ..s };
            &&& lookup_error(t, written) is None
            &&& t.config_of(written) == cfg
            &&& t.config_of(other) == s.config_of(other)
            &&& config_is_valid(sev, cfg)
        }),
{
}

/// `set_config` only ever stores valid configurations, so it keeps a valid
/// table valid, and every calculation under a valid table fits the machine
/// integers.
pub proof fn lemma_set_config_keeps_configs_valid(
    s: StorageModel,
    caller: Seq<char>,
    written: Seq<char>,
    cfg: SLAConfig,
    severity: Severity,
    mttr_minutes: u32,
)
    requires
        set_config_error(s, caller, written, cfg) is None,
        configs_valid(s.configs.unwrap()),
    ensures
        configs_valid(s.configs.unwrap().spec_set(severity_named(written).unwrap(), cfg)),
        result_fits(
            mttr_minutes,
            s.configs.unwrap().spec_set(severity_named(written).unwrap(), cfg).spec_get(severity),
        ),
{
    let t = s.configs.unwrap().spec_set(severity_named(written).unwrap(), cfg);
    crate::validation::lemma_valid_config_fits(severity, t.spec_get(severity), mttr_minutes);
}

/// Writing back the configuration a severity already has leaves the table,
/// and so its fingerprint, unchanged; restoring a severity's earlier
/// configuration restores the earlier fingerprint.
pub proof fn lemma_fingerprint_follows_values(
    table: ConfigTable,
    severity: Severity,
    cfg: SLAConfig,
)
    ensures
        table.spec_set(severity, table.spec_get(severity)) == table,
        config_hash(table.spec_set(severity, table.spec_get(severity))) == config_hash(table),
        config_hash(table.spec_set(severity, cfg).spec_set(severity, table.spec_get(severity)))
            == config_hash(table),
{
    assert(table.spec_set(severity, cfg).spec_set(severity, table.spec_get(severity)) == table);
}

/// After the admin renounces, every admin-gated call fails for every caller,
/// no admin transfer can complete, and the contract cannot be initialized
/// again.
pub proof fn lemma_renounce_is_final(
    s: StorageModel,
    anyone: Seq<char>,
    severity: Seq<char>,
    cfg: SLAConfig,
)
    requires
        s.version is Some,
    ensures
        ({
            let t = StorageModel { admin: None, pending_admin: None, ..s };
            &&& admin_gate_error(t, anyone) is Some
            &&& set_config_error(t, anyone, severity, cfg) is Some
            &&& migrate_error(t, anyone) is Some
            &&& StorageModel::proposal_error(t.pending_admin, anyone) == Some(
                SLAError::NoPendingProposal,
            )
            &&& initialize_error(t) == Some(SLAError::AlreadyInitialized)
        }),
{
}

/// Proposing an admin leaves the admin in place; once the proposed account
/// accepts, it holds the role and the previous admin no longer does.
pub proof fn lemma_admin_transfer_takes_two_steps(
    s: StorageModel,
    old_admin: Seq<char>,
    new_admin: AccountId,
)
    requires
        admin_gate_error(s, old_admin) is None,
        new_admin@ != old_admin,
    ensures
        ({
            let proposed = StorageModel { pending_admin: Some(new_admin), ..s };
            let accepted = StorageModel {
                admin: proposed.pending_admin,
                pending_admin: None,
                ..proposed
            };
            &&& admin_gate_error(proposed, old_admin) is None
            &&& StorageModel::proposal_error(proposed.pending_admin, new_admin@) is None
            &&& admin_gate_error(accepted, new_admin@) is None
            &&& admin_gate_error(accepted, old_admin) == Some(SLAError::Unauthorized)
            &&& accepted.pending_admin is None
        }),
{
}

/// Once a proposed operator accepts, the previous operator can no longer
/// record calculations.
pub proof fn lemma_operator_handoff_locks_out_previous(
    s: StorageModel,
    old_operator: Seq<char>,
    new_operator: AccountId,
    severity: Seq<char>,
)
    requires
        new_operator@ != old_operator,
        s.version_error() is None,
        !s.paused,
    ensures
        ({
            let proposed = StorageModel { pending_operator: Some(new_operator), ..s };
            let accepted = StorageModel {
                operator: proposed.pending_operator,
                pending_operator: None,
                ..proposed
            };
            &&& calculation_error(accepted, old_operator, severity) == Some(SLAError::Unauthorized)
            &&& accepted.operator_error(new_operator@) is None
        }),
{
}

/// While paused, `calculate_sla` is refused (behind only the version check),
/// and after `unpause` the pause no longer blocks it.
pub proof fn lemma_pause_blocks_calculation(
    s: StorageModel,
    caller: Seq<char>,
    severity: Seq<char>,
)
    requires
        s.version_error() is None,
    ensures
        calculation_error((StorageModel { paused: true, ..s }), caller, severity) == Some(
            SLAError::ContractPaused,
        ),
        (StorageModel { paused: false, pause_info: None, ..s }).pause_error() is None,
{
}

/// A prune to the latest `keep_latest` entries keeps exactly the newest
/// `min(len, keep_latest)` entries, in order.
pub proof fn lemma_prune_keeps_latest(e: EnvModel, caller: AccountId, keep_latest: u32)
    ensures
        ({
            let h = e.storage.history;
            let p = pruned_to_latest(e, caller, keep_latest).storage.history;
            &&& p.len() == if h.len() > keep_latest {
                keep_latest as int
            } else {
                h.len() as int
            }
            &&& forall|i: int| 0 <= i < p.len() ==> p[i] == h[h.len() - p.len() + i]
        }),
{
}

/// An age-based prune keeps exactly the entries recorded at or after the
/// cutoff: no kept entry is older and every recent entry stays.
pub proof fn lemma_prune_by_age_keeps_recent(e: EnvModel, caller: AccountId, min_age_seconds: u64)
    ensures
        ({
            let h = e.storage.history;
            let cutoff = age_cutoff(e.ledger_timestamp, min_age_seconds);
            let p = pruned_by_age(e, caller, min_age_seconds).storage.history;
            &&& p == recorded_since(h, cutoff)
            &&& p.len() <= h.len()
            &&& forall|i: int| 0 <= i < p.len() ==> #[trigger] p[i].recorded_at >= cutoff
            &&& forall|i: int|
                0 <= i < h.len() && h[i].recorded_at >= cutoff ==> p.contains(#[trigger] h[i])
        }),
{
    let h = e.storage.history;
    let cutoff = age_cutoff(e.ledger_timestamp, min_age_seconds);
    let pred = |r: SLAResult| r.recorded_at >= cutoff;
    h.lemma_filter_len(pred);
    assert forall|i: int| 0 <= i < h.filter(pred).len() implies #[trigger] h.filter(pred)[i].recorded_at
        >= cutoff by {
        h.lemma_filter_pred(pred, i);
    }
    assert forall|i: int| 0 <= i < h.len() && h[i].recorded_at >= cutoff implies h.filter(
        pred,
    ).contains(#[trigger] h[i]) by {
        h.lemma_filter_contains(pred, i);
    }
}

/// Migration is idempotent on current storage and never moves the version
/// past the current one.
pub proof fn lemma_migrate_idempotent(e: EnvModel, caller: AccountId)
    requires
        migrate_error(e.storage, caller@) is None,
    ensures
        crate::contract::migrated(e, caller).storage.version == Some(STORAGE_VERSION),
        e.storage.version == Some(STORAGE_VERSION) ==> crate::contract::migrated(e, caller) == e,
{
}

/// What the contract's own calls keep true of the storage: every stored
/// configuration is within its bounds, the history never holds more entries
/// than the stats have counted, and the violations counted never exceed the
/// calculations counted.
pub open spec fn storage_consistent(s: StorageModel) -> bool {
    &&& s.configs is Some ==> configs_valid(s.configs.unwrap())
    &&& s.stats is Some ==> s.history.len() <= s.stats.unwrap().total_calculations
    &&& s.stats is Some ==> s.stats.unwrap().total_violations
        <= s.stats.unwrap().total_calculations
    &&& s.stats is None ==> s.history.len() == 0
}

/// Storage in which nothing was ever written is consistent.
pub proof fn lemma_empty_storage_is_consistent()
    ensures
        storage_consistent(crate::storage::empty_storage()),
{
}

/// The calls that change only roles, the pause flag or the storage version
/// keep the storage consistent.
pub proof fn lemma_role_and_pause_calls_keep_storage_consistent(
    e: EnvModel,
    caller: AccountId,
    other: AccountId,
    reason: String,
)
    requires
        storage_consistent(e.storage),
    ensures
        storage_consistent((StorageModel { operator: Some(other), ..e.storage })),
        storage_consistent((StorageModel { pending_admin: Some(other), ..e.storage })),
        storage_consistent((StorageModel { pending_admin: None, ..e.storage })),
        storage_consistent(
            (StorageModel { admin: e.storage.pending_admin, pending_admin: None, ..e.storage }),
        ),
        storage_consistent((StorageModel { pending_operator: Some(other), ..e.storage })),
        storage_consistent((StorageModel { pending_operator: None, ..e.storage })),
        storage_consistent(
            (StorageModel {
                operator: e.storage.pending_operator,
                pending_operator: None,
                ..e.storage
            }),
        ),
        storage_consistent((StorageModel { admin: None, pending_admin: None, ..e.storage })),
        storage_consistent(
            (StorageModel {
                paused: true,
                pause_info: Some(crate::types::PauseInfo { reason, paused_at: e.ledger_timestamp }),
                ..e.storage
            }),
        ),
        storage_consistent((StorageModel { paused: false, pause_info: None, ..e.storage })),
        e.storage.version is Some ==> storage_consistent(
            crate::contract::migrated(e, caller).storage,
        ),
{
}

/// Every call that changes configurations, stats or history keeps the
/// storage consistent; with the lemma above and the empty storage, every
/// state reachable through the contract's calls is consistent.
pub proof fn lemma_calls_keep_storage_consistent(
    e: EnvModel,
    caller: AccountId,
    other: AccountId,
    severity: Seq<char>,
    cfg: SLAConfig,
    result: SLAResult,
    keep_latest: u32,
    min_age_seconds: u64,
)
    requires
        storage_consistent(e.storage),
    ensures
        initialize_error(e.storage) is None ==> storage_consistent(
            initialized_storage(e.storage, caller, other),
        ),
        set_config_error(e.storage, caller@, severity, cfg) is None ==> storage_consistent(
            (StorageModel {
                configs: Some(e.storage.configs.unwrap().spec_set(severity_named(severity).unwrap(), cfg)),
                ..e.storage
            }),
        ),
        severity_named(severity) is Some && stats_fit(e.storage.stats, result) ==> storage_consistent(
            record_calculation(e, severity_named(severity).unwrap(), result).storage,
        ),
        storage_consistent(pruned_to_latest(e, caller, keep_latest).storage),
        storage_consistent(pruned_by_age(e, caller, min_age_seconds).storage),
{
    let h = e.storage.history;
    h.lemma_filter_len(|r: SLAResult| r.recorded_at >= age_cutoff(e.ledger_timestamp, min_age_seconds));
}

/// A snapshot lists, in canonical order, exactly what `get_config` reads for
/// each severity name.
pub proof fn lemma_snapshot_agrees_with_lookup(s: StorageModel, i: int)
    requires
        s.configs is Some,
        0 <= i < 4,
    ensures
        ({
            let entry = s.configs.unwrap().spec_entries()[i];
            let name = crate::types::canonical_severities()[i].spec_name();
            &&& entry.severity == crate::types::canonical_severities()[i]
            &&& s.config_error(name) is None
            &&& s.config_of(name) == entry.config
        }),
{
    lemma_severity_names_round_trip(crate::types::canonical_severities()[i]);
}

/// The defaults written by `initialize` are valid.
pub proof fn lemma_default_configs_valid()
    ensures
        configs_valid(default_configs()),
{
}

/// The operator in office keeps the role until a proposed successor
/// accepts: on current, unpaused storage the stored operator can record a
/// calculation for every supported severity, whatever proposals are pending,
/// and proposing a new operator or admin changes none of `calculate_sla`'s
/// checks.
pub proof fn lemma_operator_calculates_while_handoff_pending(
    s: StorageModel,
    caller: AccountId,
    severity: Severity,
    pending_operator: Option<AccountId>,
    pending_admin: Option<AccountId>,
)
    requires
        s.version == Some(1u32),
        !s.paused,
        s.operator is Some,
        s.operator.unwrap()@ == caller@,
        s.configs is Some,
    ensures
        calculation_error(s, caller@, severity.spec_name()) is None,
        calculation_error(
            (StorageModel { pending_operator, pending_admin, ..s }),
            caller@,
            severity.spec_name(),
        ) is None,
        s.config_of(severity.spec_name()) == s.configs.unwrap().spec_get(severity),
{
    lemma_severity_names_round_trip(severity);
}

/// Proposals never change who may record a calculation: `calculate_sla`'s
/// checks read neither pending proposal.
pub proof fn lemma_calculation_ignores_proposals(
    s: StorageModel,
    caller: Seq<char>,
    severity: Seq<char>,
    pending_operator: Option<AccountId>,
    pending_admin: Option<AccountId>,
)
    ensures
        calculation_error(
            (StorageModel { pending_operator, pending_admin, ..s }),
            caller,
            severity,
        ) == calculation_error(s, caller, severity),
{
}

/// Reads and audits ignore the pause: `get_config` and
/// `calculate_sla_view` give the same answer paused or not, and on current
/// storage with a configuration table they succeed for every supported
/// severity with that severity's configuration.
pub proof fn lemma_audit_ignores_pause(
    s: StorageModel,
    severity: Seq<char>,
    known: Severity,
    paused: bool,
    pause_info: Option<crate::types::PauseInfo>,
)
    ensures
        lookup_error((StorageModel { paused, pause_info, ..s }), severity) == lookup_error(
            s,
            severity,
        ),
        (StorageModel { paused, pause_info, ..s }).config_of(severity) == s.config_of(severity),
        s.version == Some(1u32) && s.configs is Some ==> lookup_error(
            (StorageModel { paused, pause_info, ..s }),
            known.spec_name(),
        ) is None,
        s.configs is Some ==> s.config_of(known.spec_name()) == s.configs.unwrap().spec_get(known),
{
    lemma_severity_names_round_trip(known);
}

/// The pause blocks only calculations: the admin can set a valid
/// configuration for a supported severity whether or not the contract is
/// paused, and `set_config`'s checks never read the pause.
pub proof fn lemma_admin_configures_while_paused(
    s: StorageModel,
    caller: AccountId,
    severity: Severity,
    cfg: SLAConfig,
    paused: bool,
    pause_info: Option<crate::types::PauseInfo>,
    name: Seq<char>,
    any_cfg: SLAConfig,
)
    ensures
        set_config_error((StorageModel { paused, pause_info, ..s }), caller@, name, any_cfg)
            == set_config_error(s, caller@, name, any_cfg),
        ({
            &&& s.version == Some(1u32)
            &&& s.admin is Some
            &&& s.admin.unwrap()@ == caller@
            &&& s.configs is Some
            &&& config_is_valid(severity, cfg)
        }) ==> set_config_error(
            (StorageModel { paused, pause_info, ..s }),
            caller@,
            severity.spec_name(),
            cfg,
        ) is None,
{
    lemma_severity_names_round_trip(severity);
}

/// An age-based prune removes exactly the entries at least `min_age_seconds`
/// older than the ledger time: an entry is kept if and only if
/// `recorded_at + min_age_seconds >= now`. In particular nothing is removed
/// when the age exceeds the ledger time.
pub proof fn lemma_prune_by_age_removes_only_old_entries(
    e: EnvModel,
    caller: AccountId,
    min_age_seconds: u64,
)
    ensures
        ({
            let h = e.storage.history;
            let now = e.ledger_timestamp;
            let p = pruned_by_age(e, caller, min_age_seconds).storage.history;
            &&& forall|i: int|
                0 <= i < h.len() && h[i].recorded_at + min_age_seconds >= now ==> p.contains(
                    #[trigger] h[i],
                )
            &&& forall|j: int|
                0 <= j < p.len() ==> #[trigger] p[j].recorded_at + min_age_seconds >= now
            &&& min_age_seconds > now ==> p == h
        }),
{
    let h = e.storage.history;
    let now = e.ledger_timestamp;
    let cutoff = age_cutoff(now, min_age_seconds);
    let pred = |r: SLAResult| r.recorded_at >= cutoff;
    lemma_prune_by_age_keeps_recent(e, caller, min_age_seconds);
    assert forall|i: int| 0 <= i < h.len() && h[i].recorded_at + min_age_seconds >= now implies
        h[i].recorded_at >= cutoff by {}
    if min_age_seconds > now {
        assert(cutoff == 0);
        lemma_filter_keeps_all(h, pred);
    }
}

/// Filtering by a predicate that every element meets changes nothing.
pub proof fn lemma_filter_keeps_all(h: Seq<SLAResult>, pred: spec_fn(SLAResult) -> bool)
    requires
        forall|i: int| 0 <= i < h.len() ==> pred(#[trigger] h[i]),
    ensures
        h.filter(pred) == h,
    decreases h.len(),
{
    reveal_with_fuel(Seq::<_>::filter, 1);
    if h.len() > 0 {
        let d = h.drop_last();
        assert forall|i: int| 0 <= i < d.len() implies pred(#[trigger] d[i]) by {
            assert(d[i] == h[i]);
        }
        lemma_filter_keeps_all(d, pred);
        assert(pred(h.last()));
        assert(d.push(h.last()) =~= h);
    }
}

} // verus!
