//! Bounds that every severity configuration must respect.
use vstd::prelude::*;
use crate::types::{SLAConfig, Severity};

verus! {

/// Longest allowed threshold: one day.
pub const MAX_THRESHOLD_MINUTES: u32 = 1440;

/// Largest allowed penalty per minute of overtime.
pub const MAX_PENALTY_PER_MINUTE: i128 = 10000;

/// Largest allowed reward base.
pub const MAX_REWARD_BASE: i128 = 100000;

/// Longest threshold allowed for a severity.
pub open spec fn max_threshold_for(severity: Severity) -> u32 {
    match severity {
        Severity::Critical => 60,
        Severity::High => 120,
        Severity::Medium => 240,
        Severity::Low => MAX_THRESHOLD_MINUTES,
    }
}

/// Smallest penalty per minute allowed for a severity.
pub open spec fn min_penalty_for(severity: Severity) -> i128 {
    match severity {
        Severity::Critical => 50,
        Severity::High => 25,
        Severity::Medium => 10,
        Severity::Low => 1,
    }
}

/// Largest penalty per minute allowed for a severity.
pub open spec fn max_penalty_for(severity: Severity) -> i128 {
    match severity {
        Severity::Low => 100,
        _ => MAX_PENALTY_PER_MINUTE,
    }
}

/// A configuration is acceptable for a severity: a threshold of 1 to 1440
/// minutes, a penalty of 1 to 10000 per minute, a reward base of 1 to 100000,
/// and the severity's own tighter bounds.
pub open spec fn config_is_valid(severity: Severity, cfg: SLAConfig) -> bool {
    &&& 1 <= cfg.threshold_minutes <= MAX_THRESHOLD_MINUTES
    &&& 1 <= cfg.penalty_per_minute <= MAX_PENALTY_PER_MINUTE
    &&& 1 <= cfg.reward_base <= MAX_REWARD_BASE
    &&& cfg.threshold_minutes <= max_threshold_for(severity)
    &&& min_penalty_for(severity) <= cfg.penalty_per_minute <= max_penalty_for(severity)
}

/// Whether `cfg` is acceptable for `severity`.
pub fn validate_config(severity: Severity, cfg: &SLAConfig) -> (r: bool)
    ensures
        r == config_is_valid(severity, *cfg),
{
    if cfg.threshold_minutes < 1 || cfg.threshold_minutes > MAX_THRESHOLD_MINUTES {
        return false;
    }
    if cfg.penalty_per_minute < 1 || cfg.penalty_per_minute > MAX_PENALTY_PER_MINUTE {
        return false;
    }
    if cfg.reward_base < 1 || cfg.reward_base > MAX_REWARD_BASE {
        return false;
    }
    let (max_threshold, min_penalty, max_penalty): (u32, i128, i128) = match severity {
        Severity::Critical => (60, 50, MAX_PENALTY_PER_MINUTE),
        Severity::High => (120, 25, MAX_PENALTY_PER_MINUTE),
        Severity::Medium => (240, 10, MAX_PENALTY_PER_MINUTE),
        Severity::Low => (MAX_THRESHOLD_MINUTES, 1, 100),
    };
    cfg.threshold_minutes <= max_threshold && min_penalty <= cfg.penalty_per_minute
        && cfg.penalty_per_minute <= max_penalty
}

/// Every valid configuration keeps every calculation within the machine
/// integers.
pub proof fn lemma_valid_config_fits(severity: Severity, cfg: SLAConfig, mttr_minutes: u32)
    requires
        config_is_valid(severity, cfg),
    ensures
        crate::calc::result_fits(mttr_minutes, cfg),
{
    let t = cfg.threshold_minutes;
    if mttr_minutes > t {
        let o = mttr_minutes - t;
        let p = cfg.penalty_per_minute as int;
        assert(0 < o * p <= 0x1_0000_0000 * 10000) by (nonlinear_arith)
            requires
                0 < o <= 0x1_0000_0000,
                1 <= p <= 10000,
        ;
    } else {
        let m = crate::calc::tier_multiplier(crate::calc::performance_ratio(mttr_minutes, t));
        let b = cfg.reward_base as int;
        assert(0 < b * m <= 100000 * 200) by (nonlinear_arith)
            requires
                1 <= b <= 100000,
                100 <= m <= 200,
        ;
    }
}

} // verus!
