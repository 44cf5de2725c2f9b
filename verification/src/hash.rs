//! A fingerprint of the configuration table.
//!
//! The fingerprint is the 64-bit FNV-1a mix of the table's fields, taken in
//! canonical severity order; every `i128` contributes its low and high words.
use vstd::prelude::*;
use vstd::wrapping::u64_specs::wrapping_mul;
use crate::types::{ConfigTable, SLAConfig};

verus! {

pub const FNV_OFFSET_BASIS: u64 = 0xcbf2_9ce4_8422_2325;

pub const FNV_PRIME: u64 = 0x0000_0100_0000_01b3;

/// One FNV-1a step over a 64-bit word.
pub open spec fn fnv_mix(h: u64, word: u64) -> u64 {
    wrapping_mul(h ^ word, FNV_PRIME)
}

/// The low 64 bits of a value.
pub open spec fn low_word(v: i128) -> u64 {
    (v as u128) as u64
}

/// The high 64 bits of a value.
pub open spec fn high_word(v: i128) -> u64 {
    ((v as u128) >> 64u32) as u64
}

/// Mixes the fields of one configuration into `h`.
pub open spec fn mix_config(h: u64, cfg: SLAConfig) -> u64 {
    fnv_mix(
        fnv_mix(
            fnv_mix(
                fnv_mix(fnv_mix(h, cfg.threshold_minutes as u64), low_word(cfg.penalty_per_minute)),
                high_word(cfg.penalty_per_minute),
            ),
            low_word(cfg.reward_base),
        ),
        high_word(cfg.reward_base),
    )
}

/// The fingerprint of a configuration table.
pub open spec fn config_hash(table: ConfigTable) -> u64 {
    mix_config(
        mix_config(mix_config(mix_config(FNV_OFFSET_BASIS, table.critical), table.high), table.medium),
        table.low,
    )
}

fn mix_word(h: u64, word: u64) -> (r: u64)
    ensures
        r == fnv_mix(h, word),
{
    (h ^ word).wrapping_mul(FNV_PRIME)
}

fn split_words(v: i128) -> (r: (u64, u64))
    ensures
        r.0 == low_word(v),
        r.1 == high_word(v),
{
    let bits = v as u128;
    (bits as u64, (bits >> 64u32) as u64)
}

fn mix_config_exec(h: u64, cfg: &SLAConfig) -> (r: u64)
    ensures
        r == mix_config(h, *cfg),
{
    let (penalty_low, penalty_high) = split_words(cfg.penalty_per_minute);
    let (reward_low, reward_high) = split_words(cfg.reward_base);
    let h = mix_word(h, cfg.threshold_minutes as u64);
    let h = mix_word(h, penalty_low);
    let h = mix_word(h, penalty_high);
    let h = mix_word(h, reward_low);
    mix_word(h, reward_high)
}

/// Computes the fingerprint of a configuration table.
pub fn compute_config_hash(table: &ConfigTable) -> (r: u64)
    ensures
        r == config_hash(*table),
{
    let h = mix_config_exec(FNV_OFFSET_BASIS, &table.critical);
    let h = mix_config_exec(h, &table.high);
    let h = mix_config_exec(h, &table.medium);
    mix_config_exec(h, &table.low)
}

} // verus!
