use apexchainx_calculator::calc::{check_result_fits, compute_result};
use apexchainx_calculator::contract::SLACalculatorContract;
use apexchainx_calculator::events::ContractEvent;
use apexchainx_calculator::hash::compute_config_hash;
use apexchainx_calculator::storage::ContractEnv;
use apexchainx_calculator::validation::validate_config;
use apexchainx_calculator::{
    AccountId, ConfigTable, Rating, SLAConfig, SLAError, SLAStats, Severity, SlaStatus,
};

fn setup_at(timestamp: u64) -> (ContractEnv, AccountId, AccountId) {
    let mut env = ContractEnv::new(timestamp);
    let admin = AccountId::from_key("GADMIN");
    let operator = AccountId::from_key("GOPERATOR");
    SLACalculatorContract::initialize(&mut env, admin.clone(), operator.clone()).unwrap();
    (env, admin, operator)
}

fn cfg(t: u32, p: i128, r: i128) -> SLAConfig {
    SLAConfig { threshold_minutes: t, penalty_per_minute: p, reward_base: r }
}

// ---------------------------------------------------------------
// Formulas
// ---------------------------------------------------------------

#[test]
fn penalty_is_overtime_times_rate() {
    let r = compute_result("X".to_string(), 47, &cfg(30, 50, 750), 9);
    assert_eq!(r.status, SlaStatus::Violated);
    assert_eq!(r.amount, -(17 * 50));
    assert_eq!(r.recorded_at, 9);
    assert_eq!(r.threshold_minutes, 30);
}

#[test]
fn reward_tiers_split_at_fifty_and_seventy_five_percent() {
    let c = cfg(100, 10, 1000);
    let top = compute_result("A".to_string(), 49, &c, 0);
    let excel_low = compute_result("B".to_string(), 50, &c, 0);
    let excel_high = compute_result("C".to_string(), 74, &c, 0);
    let good = compute_result("D".to_string(), 75, &c, 0);
    assert_eq!((top.rating, top.amount), (Rating::Top, 2000));
    assert_eq!((excel_low.rating, excel_low.amount), (Rating::Excellent, 1500));
    assert_eq!((excel_high.rating, excel_high.amount), (Rating::Excellent, 1500));
    assert_eq!((good.rating, good.amount), (Rating::Good, 1000));
}

#[test]
fn ratio_rounds_down() {
    // 8 * 100 / 15 = 53 → excellent; 7 * 100 / 15 = 46 → top.
    let c = cfg(15, 100, 750);
    assert_eq!(compute_result("A".to_string(), 8, &c, 0).rating, Rating::Excellent);
    assert_eq!(compute_result("B".to_string(), 7, &c, 0).rating, Rating::Top);
}

#[test]
fn zero_threshold_means_top_ratio() {
    let r = compute_result("Z".to_string(), 0, &cfg(0, 10, 300), 0);
    assert_eq!(r.status, SlaStatus::Met);
    assert_eq!(r.rating, Rating::Top);
    assert_eq!(r.amount, 600);
    let late = compute_result("Z".to_string(), 1, &cfg(0, 10, 300), 0);
    assert_eq!(late.amount, -10);
}

#[test]
fn reward_division_rounds_toward_zero() {
    // -149 * 150 = -22350; -22350 / 100 rounds toward zero to -223.
    let r = compute_result("N".to_string(), 60, &cfg(100, 10, -149), 0);
    assert_eq!(r.rating, Rating::Excellent);
    assert_eq!(r.amount, -223);
}

#[test]
fn overflow_is_detected_before_computing() {
    assert!(!check_result_fits(u32::MAX, &cfg(0, i128::MAX, 1)));
    assert!(check_result_fits(u32::MAX, &cfg(0, 10000, 1)));
    assert!(!check_result_fits(5, &cfg(10, 1, i128::MAX)));
    assert!(!check_result_fits(50_000_000, &cfg(60_000_000, 1, 1)));
}

// ---------------------------------------------------------------
// Validation
// ---------------------------------------------------------------

#[test]
fn validation_bounds_per_severity() {
    assert!(validate_config(Severity::Critical, &cfg(60, 50, 1)));
    assert!(!validate_config(Severity::Critical, &cfg(61, 50, 1)));
    assert!(!validate_config(Severity::Critical, &cfg(60, 49, 1)));
    assert!(validate_config(Severity::High, &cfg(120, 25, 100000)));
    assert!(!validate_config(Severity::High, &cfg(121, 25, 100000)));
    assert!(validate_config(Severity::Medium, &cfg(240, 10, 5)));
    assert!(!validate_config(Severity::Medium, &cfg(240, 9, 5)));
    assert!(validate_config(Severity::Low, &cfg(1440, 100, 5)));
    assert!(!validate_config(Severity::Low, &cfg(1441, 100, 5)));
    assert!(!validate_config(Severity::Low, &cfg(10, 101, 5)));
    assert!(!validate_config(Severity::Low, &cfg(10, 1, 100001)));
}

// ---------------------------------------------------------------
// Names
// ---------------------------------------------------------------

#[test]
fn severity_names_round_trip_and_are_case_sensitive() {
    for s in [Severity::Critical, Severity::High, Severity::Medium, Severity::Low] {
        assert_eq!(Severity::from_name(s.name()), Some(s));
    }
    assert_eq!(Severity::from_name("Critical"), None);
    assert_eq!(Severity::from_name(""), None);
}

#[test]
fn accounts_compare_by_key() {
    let a = AccountId::from_key("GA");
    assert!(a.same_as(&AccountId::from_key("GA")));
    assert!(!a.same_as(&AccountId::from_key("GB")));
}

// ---------------------------------------------------------------
// Fingerprint
// ---------------------------------------------------------------

fn fnv_reference(words: &[u64]) -> u64 {
    let mut h: u64 = 0xcbf2_9ce4_8422_2325;
    for w in words {
        h = (h ^ w).wrapping_mul(0x0000_0100_0000_01b3);
    }
    h
}

#[test]
fn fingerprint_is_fnv_over_fields_in_canonical_order() {
    let table = ConfigTable {
        critical: cfg(15, 100, 750),
        high: cfg(30, 50, 750),
        medium: cfg(60, 25, 750),
        low: cfg(120, -10, 600),
    };
    let mut words = Vec::new();
    for c in [table.critical, table.high, table.medium, table.low] {
        words.push(c.threshold_minutes as u64);
        for v in [c.penalty_per_minute, c.reward_base] {
            let bits = v as u128;
            words.push(bits as u64);
            words.push((bits >> 64) as u64);
        }
    }
    assert_eq!(compute_config_hash(&table), fnv_reference(&words));
}

// ---------------------------------------------------------------
// Errors
// ---------------------------------------------------------------

#[test]
fn every_error_has_an_input_that_gives_it() {
    let mut empty = ContractEnv::new(0);
    let someone = AccountId::from_key("GSOMEONE");
    assert_eq!(SLACalculatorContract::get_admin(&empty), Err(SLAError::NotInitialized));
    assert_eq!(SLACalculatorContract::get_stats(&empty), Err(SLAError::NotInitialized));
    assert_eq!(
        SLACalculatorContract::migrate(&mut empty, &someone),
        Err(SLAError::NotInitialized)
    );

    let (mut env, admin, operator) = setup_at(0);
    assert_eq!(
        SLACalculatorContract::initialize(&mut env, admin.clone(), operator.clone()),
        Err(SLAError::AlreadyInitialized)
    );
    assert_eq!(
        SLACalculatorContract::pause(&mut env, &operator, String::new()),
        Err(SLAError::Unauthorized)
    );
    assert_eq!(
        SLACalculatorContract::calculate_sla_view(&env, "X".to_string(), "urgent", 3),
        Err(SLAError::ConfigNotFound)
    );
    assert_eq!(
        SLACalculatorContract::set_config(&mut env, &admin, "urgent", 15, 100, 750),
        Err(SLAError::InvalidSeverity)
    );
    assert_eq!(
        SLACalculatorContract::set_config(&mut env, &admin, "high", 15, 10, 750),
        Err(SLAError::InvalidConfig)
    );
    assert_eq!(
        SLACalculatorContract::accept_operator(&mut env, &operator),
        Err(SLAError::NoPendingProposal)
    );
    SLACalculatorContract::pause(&mut env, &admin, "why".to_string()).unwrap();
    assert_eq!(
        SLACalculatorContract::calculate_sla(&mut env, &operator, "X".to_string(), "low", 3),
        Err(SLAError::ContractPaused)
    );
    env.storage.version = Some(2);
    assert_eq!(SLACalculatorContract::is_paused(&env), Err(SLAError::VersionMismatch));
    assert_eq!(SLACalculatorContract::migrate(&mut env, &admin), Err(SLAError::VersionMismatch));
}

#[test]
fn failed_calls_change_nothing() {
    let (mut env, admin, operator) = setup_at(0);
    let events_before = env.events.len();
    let hash_before = SLACalculatorContract::get_config_version_hash(&env).unwrap();
    assert!(SLACalculatorContract::set_config(&mut env, &admin, "critical", 0, 100, 750).is_err());
    assert!(SLACalculatorContract::calculate_sla(&mut env, &admin, "X".to_string(), "low", 3).is_err());
    assert_eq!(env.events.len(), events_before);
    assert_eq!(SLACalculatorContract::get_config_version_hash(&env).unwrap(), hash_before);
    assert_eq!(SLACalculatorContract::get_stats(&env).unwrap().total_calculations, 0);
    let _ = operator;
}

// ---------------------------------------------------------------
// Laws on concrete values
// ---------------------------------------------------------------

#[test]
fn view_agrees_with_calculation() {
    let (mut env, _, operator) = setup_at(77);
    for sev in ["critical", "high", "medium", "low"] {
        for mttr in [0u32, 1, 29, 30, 31, 500] {
            let v = SLACalculatorContract::calculate_sla_view(&env, "V".to_string(), sev, mttr).unwrap();
            let c = SLACalculatorContract::calculate_sla(&mut env, &operator, "V".to_string(), sev, mttr)
                .unwrap();
            assert_eq!(v, c);
        }
    }
}

#[test]
fn stats_track_history() {
    let (mut env, _, operator) = setup_at(0);
    for (i, mttr) in [3u32, 40, 15, 16, 1, 200].iter().enumerate() {
        let sev = ["critical", "high", "medium", "low"][i % 4];
        SLACalculatorContract::calculate_sla(&mut env, &operator, "S".to_string(), sev, *mttr).unwrap();
    }
    let h = SLACalculatorContract::get_history(&env).unwrap();
    let stats = SLACalculatorContract::get_stats(&env).unwrap();
    let expected = h.iter().fold(
        SLAStats { total_calculations: 0, total_violations: 0, total_rewards: 0, total_penalties: 0 },
        |mut s, r| {
            s.total_calculations += 1;
            if r.status == SlaStatus::Met {
                s.total_rewards += r.amount;
            } else {
                s.total_violations += 1;
                s.total_penalties -= r.amount;
            }
            s
        },
    );
    assert_eq!(stats, expected);
}

#[test]
fn calculation_publishes_settlement_then_result() {
    let (mut env, _, operator) = setup_at(12);
    SLACalculatorContract::calculate_sla(&mut env, &operator, "E".to_string(), "medium", 70).unwrap();
    let n = env.events.len();
    assert!(matches!(
        &env.events[n - 2],
        ContractEvent::SettlementIntent { severity: Severity::Medium, .. }
    ));
    assert!(matches!(&env.events[n - 1], ContractEvent::SlaCalculated { severity: Severity::Medium, .. }));
}

#[test]
fn renounce_is_final() {
    let (mut env, admin, operator) = setup_at(0);
    SLACalculatorContract::renounce_admin(&mut env, &admin).unwrap();
    assert_eq!(SLACalculatorContract::get_admin(&env), Err(SLAError::NotInitialized));
    assert_eq!(
        SLACalculatorContract::unpause(&mut env, &admin),
        Err(SLAError::NotInitialized)
    );
    assert_eq!(
        SLACalculatorContract::prune_history(&mut env, &admin, 0),
        Err(SLAError::NotInitialized)
    );
    assert_eq!(
        SLACalculatorContract::initialize(&mut env, admin.clone(), operator.clone()),
        Err(SLAError::AlreadyInitialized)
    );
    // the operator keeps working
    assert!(SLACalculatorContract::calculate_sla(&mut env, &operator, "R".to_string(), "low", 3).is_ok());
}

#[test]
fn cancelled_proposal_cannot_be_accepted() {
    let (mut env, admin, _) = setup_at(0);
    let next = AccountId::from_key("GNEXT");
    SLACalculatorContract::propose_admin(&mut env, &admin, next.clone()).unwrap();
    SLACalculatorContract::cancel_admin_proposal(&mut env, &admin).unwrap();
    assert_eq!(
        SLACalculatorContract::accept_admin(&mut env, &next),
        Err(SLAError::NoPendingProposal)
    );
    SLACalculatorContract::propose_operator(&mut env, &admin, next.clone()).unwrap();
    SLACalculatorContract::cancel_operator_proposal(&mut env, &admin).unwrap();
    assert_eq!(SLACalculatorContract::get_pending_operator(&env), Ok(None));
}

#[test]
fn pause_records_reason_and_ledger_time() {
    let (mut env, admin, _) = setup_at(4242);
    SLACalculatorContract::pause(&mut env, &admin, "upgrade".to_string()).unwrap();
    let info = SLACalculatorContract::get_pause_info(&env).unwrap().unwrap();
    assert_eq!(info.reason, "upgrade");
    assert_eq!(info.paused_at, 4242);
}

#[test]
fn prune_keeps_latest_in_order() {
    let (mut env, admin, operator) = setup_at(0);
    for i in 0..6 {
        SLACalculatorContract::calculate_sla(&mut env, &operator, format!("P{}", i), "low", 3).unwrap();
    }
    SLACalculatorContract::prune_history(&mut env, &admin, 3).unwrap();
    let ids: Vec<String> =
        SLACalculatorContract::get_history(&env).unwrap().into_iter().map(|r| r.outage_id).collect();
    assert_eq!(ids, vec!["P3", "P4", "P5"]);
    // keeping more than there is changes nothing and publishes nothing
    let n = env.events.len();
    SLACalculatorContract::prune_history(&mut env, &admin, 10).unwrap();
    assert_eq!(env.events.len(), n);
    assert_eq!(SLACalculatorContract::get_history(&env).unwrap().len(), 3);
}

#[test]
fn prune_by_age_keeps_interleaved_recent_entries_in_order() {
    let (mut env, admin, operator) = setup_at(100);
    for (t, id) in [(100u64, "A"), (300, "B"), (150, "C"), (400, "D")] {
        env.ledger_timestamp = t;
        SLACalculatorContract::calculate_sla(&mut env, &operator, id.to_string(), "low", 3).unwrap();
    }
    env.ledger_timestamp = 500;
    // cutoff 200: A (100) and C (150) go, B and D stay in order
    SLACalculatorContract::prune_history_by_age(&mut env, &admin, 300).unwrap();
    let ids: Vec<String> =
        SLACalculatorContract::get_history(&env).unwrap().into_iter().map(|r| r.outage_id).collect();
    assert_eq!(ids, vec!["B", "D"]);
}

#[test]
fn migrate_brings_older_storage_current() {
    let (mut env, admin, _) = setup_at(0);
    env.storage.version = Some(0);
    SLACalculatorContract::migrate(&mut env, &admin).unwrap();
    assert_eq!(env.storage.version, Some(1));
    assert!(matches!(
        env.events.last().unwrap(),
        ContractEvent::StorageMigrated { from_version: 0, to_version: 1, .. }
    ));
}

#[test]
fn config_listing_and_count() {
    let (env, _, _) = setup_at(0);
    let entries = SLACalculatorContract::list_configs(&env).unwrap();
    assert_eq!(entries.len(), 4);
    assert_eq!(entries[3].severity, Severity::Low);
    assert_eq!(entries[3].config, cfg(120, 10, 600));
    assert_eq!(SLACalculatorContract::get_config_count(&env), Ok(4));
}

#[test]
fn fit_checks_guard_the_arithmetic() {
    let (mut env, _, _) = setup_at(0);
    assert!(SLACalculatorContract::calculation_fits(&env, "critical", 25));
    assert!(SLACalculatorContract::view_fits(&env, "critical", 25));
    assert!(SLACalculatorContract::calculation_fits(&env, "unknown", 25));
    env.storage.stats = Some(SLAStats {
        total_calculations: u64::MAX,
        total_violations: 0,
        total_rewards: 0,
        total_penalties: 0,
    });
    assert!(!SLACalculatorContract::calculation_fits(&env, "critical", 25));
    assert!(SLACalculatorContract::view_fits(&env, "critical", 25));
}

#[test]
fn calculation_checks_report_the_first_failing_check() {
    let (mut env, admin, operator) = setup_at(0);
    assert_eq!(SLACalculatorContract::check_calculation(&env, &operator, "low"), Ok(()));
    assert_eq!(
        SLACalculatorContract::check_calculation(&env, &admin, "low"),
        Err(SLAError::Unauthorized)
    );
    assert_eq!(
        SLACalculatorContract::check_calculation(&env, &operator, "urgent"),
        Err(SLAError::ConfigNotFound)
    );
    SLACalculatorContract::pause(&mut env, &admin, String::new()).unwrap();
    assert_eq!(
        SLACalculatorContract::check_calculation(&env, &admin, "urgent"),
        Err(SLAError::ContractPaused)
    );
}

#[test]
fn violations_never_exceed_calculations() {
    let (mut env, admin, operator) = setup_at(0);
    for mttr in [100u32, 200, 3, 500] {
        SLACalculatorContract::calculate_sla(&mut env, &operator, "V".to_string(), "critical", mttr)
            .unwrap();
        let s = SLACalculatorContract::get_stats(&env).unwrap();
        assert!(s.total_violations <= s.total_calculations);
    }
    SLACalculatorContract::prune_history(&mut env, &admin, 1).unwrap();
    let s = SLACalculatorContract::get_stats(&env).unwrap();
    assert_eq!((s.total_calculations, s.total_violations), (4, 3));
    assert!(SLACalculatorContract::get_history(&env).unwrap().len() as u64 <= s.total_calculations);
}

#[test]
fn better_rating_pays_more() {
    let c = cfg(100, 10, 999);
    let top = compute_result("A".to_string(), 10, &c, 0);
    let excel = compute_result("B".to_string(), 60, &c, 0);
    let good = compute_result("C".to_string(), 90, &c, 0);
    assert_eq!((top.amount, excel.amount, good.amount), (1998, 1498, 999));
    assert!(top.amount >= excel.amount && excel.amount >= good.amount);
}
