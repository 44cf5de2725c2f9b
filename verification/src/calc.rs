//! Reward and penalty arithmetic.
//!
//! An outage repaired within the configured threshold earns a reward whose
//! size depends on how quickly it was repaired relative to the threshold; one
//! repaired later is charged a penalty per minute of overtime.
use vstd::prelude::*;
use crate::types::{SLAConfig, SLAResult, SlaStatus, PaymentType, Rating};
use vstd::arithmetic::div_mod::lemma_div_is_ordered;
use vstd::arithmetic::mul::lemma_mul_inequality;

verus! {

/// Integer division rounding toward zero, as Rust's `/` on signed integers.
pub open spec fn div_toward_zero(a: int, d: int) -> int {
    if a >= 0 { a / d } else { -((-a) / d) }
}

/// Repair time as a percentage of the threshold (0 when the threshold is 0).
pub open spec fn performance_ratio(mttr_minutes: u32, threshold_minutes: u32) -> int {
    if threshold_minutes == 0 {
        0
    } else {
        (mttr_minutes * 100) / (threshold_minutes as int)
    }
}

/// Reward multiplier, in percent, of a performance ratio.
pub open spec fn tier_multiplier(ratio: int) -> int {
    if ratio < 50 {
        200
    } else if ratio < 75 {
        150
    } else {
        100
    }
}

/// Rating of a performance ratio within the threshold.
pub open spec fn tier_rating(ratio: int) -> Rating {
    if ratio < 50 {
        Rating::Top
    } else if ratio < 75 {
        Rating::Excellent
    } else {
        Rating::Good
    }
}

/// Penalty owed for a repair that took `mttr_minutes` (positive when late).
pub open spec fn penalty_owed(mttr_minutes: u32, cfg: SLAConfig) -> int {
    (mttr_minutes - cfg.threshold_minutes) * cfg.penalty_per_minute
}

/// Reward earned for a repair within the threshold.
pub open spec fn reward_earned(mttr_minutes: u32, cfg: SLAConfig) -> int {
    div_toward_zero(
        cfg.reward_base * tier_multiplier(performance_ratio(mttr_minutes, cfg.threshold_minutes)),
        100,
    )
}

/// The result of a calculation for an outage repaired in `mttr_minutes`.
pub open spec fn sla_result(
    outage_id: String,
    mttr_minutes: u32,
    cfg: SLAConfig,
    recorded_at: u64,
) -> SLAResult {
    if mttr_minutes > cfg.threshold_minutes {
        SLAResult {
            outage_id,
            status: SlaStatus::Violated,
            mttr_minutes,
            threshold_minutes: cfg.threshold_minutes,
            amount: (-penalty_owed(mttr_minutes, cfg)) as i128,
            payment_type: PaymentType::Penalty,
            rating: Rating::Poor,
            recorded_at,
        }
    } else {
        SLAResult {
            outage_id,
            status: SlaStatus::Met,
            mttr_minutes,
            threshold_minutes: cfg.threshold_minutes,
            amount: reward_earned(mttr_minutes, cfg) as i128,
            payment_type: PaymentType::Reward,
            rating: tier_rating(performance_ratio(mttr_minutes, cfg.threshold_minutes)),
            recorded_at,
        }
    }
}

/// The calculation stays within the machine integers: the percentage of the
/// threshold fits a `u32` and the penalty or the scaled reward fits an `i128`.
pub open spec fn result_fits(mttr_minutes: u32, cfg: SLAConfig) -> bool {
    if mttr_minutes > cfg.threshold_minutes {
        i128::MIN < penalty_owed(mttr_minutes, cfg) <= i128::MAX
    } else {
        &&& cfg.threshold_minutes > 0 ==> mttr_minutes * 100 <= u32::MAX
        &&& i128::MIN <= cfg.reward_base * tier_multiplier(
            performance_ratio(mttr_minutes, cfg.threshold_minutes),
        ) <= i128::MAX
    }
}

/// Tests `result_fits`.
pub fn check_result_fits(mttr_minutes: u32, cfg: &SLAConfig) -> (r: bool)
    ensures
        r == result_fits(mttr_minutes, *cfg),
{
    let threshold = cfg.threshold_minutes;
    if mttr_minutes > threshold {
        let overtime = (mttr_minutes - threshold) as i128;
        match overtime.checked_mul(cfg.penalty_per_minute) {
            Some(p) => p != i128::MIN,
            None => false,
        }
    } else {
        let ratio: u32 = if threshold == 0 {
            0
        } else {
            match mttr_minutes.checked_mul(100) {
                Some(scaled) => scaled / threshold,
                None => return false,
            }
        };
        let multiplier: i128 = if ratio < 50 {
            200
        } else if ratio < 75 {
            150
        } else {
            100
        };
        cfg.reward_base.checked_mul(multiplier).is_some()
    }
}

/// Computes the result of a calculation from the configuration of the
/// outage's severity.
pub fn compute_result(
    outage_id: String,
    mttr_minutes: u32,
    cfg: &SLAConfig,
    recorded_at: u64,
) -> (r: SLAResult)
    requires
        result_fits(mttr_minutes, *cfg),
    ensures
        r == sla_result(outage_id, mttr_minutes, *cfg, recorded_at),
{
    let threshold = cfg.threshold_minutes;
    if mttr_minutes > threshold {
        let overtime = (mttr_minutes - threshold) as i128;
        let penalty = overtime * cfg.penalty_per_minute;
        SLAResult {
            outage_id,
            status: SlaStatus::Violated,
            mttr_minutes,
            threshold_minutes: threshold,
            amount: -penalty,
            payment_type: PaymentType::Penalty,
            rating: Rating::Poor,
            recorded_at,
        }
    } else {
        let performance_ratio: u32 = if threshold == 0 {
            0
        } else {
            (mttr_minutes * 100) / threshold
        };
        let (multiplier, rating) = if performance_ratio < 50 {
            (200u32, Rating::Top)
        } else if performance_ratio < 75 {
            (150u32, Rating::Excellent)
        } else {
            (100u32, Rating::Good)
        };
        let reward = (cfg.reward_base * multiplier as i128) / 100;
        SLAResult {
            outage_id,
            status: SlaStatus::Met,
            mttr_minutes,
            threshold_minutes: threshold,
            amount: reward,
            payment_type: PaymentType::Reward,
            rating,
            recorded_at,
        }
    }
}

/// An outage is met exactly when it was repaired within the threshold: at
/// the threshold it is met, one minute over it is violated. A met result is
/// always a reward; a violated one is always a penalty rated poor.
pub proof fn lemma_met_exactly_within_threshold(
    outage_id: String,
    mttr_minutes: u32,
    cfg: SLAConfig,
    recorded_at: u64,
)
    ensures
        ({
            let r = sla_result(outage_id, mttr_minutes, cfg, recorded_at);
            &&& (r.status == SlaStatus::Met) <==> mttr_minutes <= cfg.threshold_minutes
            &&& (r.status == SlaStatus::Met) <==> r.payment_type == PaymentType::Reward
            &&& (r.status == SlaStatus::Violated) <==> r.rating == Rating::Poor
            &&& r.threshold_minutes == cfg.threshold_minutes
            &&& r.mttr_minutes == mttr_minutes
        }),
{
}

/// Past the threshold the penalty is linear in the overtime and, for a
/// positive per-minute penalty, strictly grows with every further minute.
pub proof fn lemma_penalty_grows_with_overtime(
    outage_id: String,
    earlier: u32,
    later: u32,
    cfg: SLAConfig,
    recorded_at: u64,
)
    requires
        cfg.threshold_minutes < earlier < later,
        cfg.penalty_per_minute > 0,
        result_fits(earlier, cfg),
        result_fits(later, cfg),
    ensures
        sla_result(outage_id, earlier, cfg, recorded_at).amount == -(
        (earlier - cfg.threshold_minutes) * cfg.penalty_per_minute),
        sla_result(outage_id, later, cfg, recorded_at).amount < sla_result(
            outage_id,
            earlier,
            cfg,
            recorded_at,
        ).amount,
{
    let t = cfg.threshold_minutes as int;
    let p = cfg.penalty_per_minute as int;
    assert((later - t) * p > (earlier - t) * p) by (nonlinear_arith)
        requires
            later - t > earlier - t,
            p > 0,
    ;
}

/// Within the threshold a slower repair never earns more: for a non-negative
/// reward base the reward does not increase with the repair time, so a top
/// rating pays at least an excellent one, which pays at least a good one.
pub proof fn lemma_reward_never_improves_with_slower_repair(
    outage_id: String,
    faster: u32,
    slower: u32,
    cfg: SLAConfig,
    recorded_at: u64,
)
    requires
        faster <= slower <= cfg.threshold_minutes,
        cfg.reward_base >= 0,
        result_fits(faster, cfg),
        result_fits(slower, cfg),
    ensures
        sla_result(outage_id, slower, cfg, recorded_at).amount <= sla_result(
            outage_id,
            faster,
            cfg,
            recorded_at,
        ).amount,
{
    let t = cfg.threshold_minutes;
    let rf = performance_ratio(faster, t);
    let rs = performance_ratio(slower, t);
    if t > 0 {
        lemma_div_is_ordered(faster * 100, slower * 100, t as int);
    }
    assert(rf <= rs);
    let mf = tier_multiplier(rf);
    let ms = tier_multiplier(rs);
    assert(ms <= mf);
    let b = cfg.reward_base as int;
    lemma_mul_inequality(ms, mf, b);
    assert(b * ms <= b * mf) by (nonlinear_arith)
        requires
            ms * b <= mf * b,
    ;
    assert(0 <= b * ms) by (nonlinear_arith)
        requires
            b >= 0,
            ms >= 0,
    ;
    lemma_div_is_ordered(b * ms, b * mf, 100);
}

/// Rank of a rating, 0 for the best.
pub open spec fn rating_rank(rating: Rating) -> int {
    match rating {
        Rating::Top => 0,
        Rating::Excellent => 1,
        Rating::Good => 2,
        Rating::Poor => 3,
    }
}

/// Within the threshold a better rating never pays less: for a non-negative
/// reward base, a top result pays at least an excellent one, which pays at
/// least a good one.
pub proof fn lemma_better_rating_pays_at_least_as_much(
    outage_id: String,
    first: u32,
    second: u32,
    cfg: SLAConfig,
    recorded_at: u64,
)
    requires
        first <= cfg.threshold_minutes,
        second <= cfg.threshold_minutes,
        cfg.reward_base >= 0,
        result_fits(first, cfg),
        result_fits(second, cfg),
        rating_rank(sla_result(outage_id, first, cfg, recorded_at).rating) <= rating_rank(
            sla_result(outage_id, second, cfg, recorded_at).rating,
        ),
    ensures
        sla_result(outage_id, second, cfg, recorded_at).amount <= sla_result(
            outage_id,
            first,
            cfg,
            recorded_at,
        ).amount,
{
    let t = cfg.threshold_minutes;
    let m1 = tier_multiplier(performance_ratio(first, t));
    let m2 = tier_multiplier(performance_ratio(second, t));
    assert(m2 <= m1);
    let b = cfg.reward_base as int;
    lemma_mul_inequality(m2, m1, b);
    assert(b * m2 <= b * m1) by (nonlinear_arith)
        requires
            m2 * b <= m1 * b,
    ;
    assert(0 <= b * m2) by (nonlinear_arith)
        requires
            b >= 0,
            m2 >= 0,
    ;
    lemma_div_is_ordered(b * m2, b * m1, 100);
}

} // verus!
