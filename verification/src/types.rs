//! Plain data types shared by the calculator.
use vstd::prelude::*;

verus! {

/// Errors the calculator reports.
#[derive(Clone, Copy, Debug, PartialEq, Eq, Structural)]
pub enum SLAError {
    AlreadyInitialized,
    NotInitialized,
    Unauthorized,
    ConfigNotFound,
    VersionMismatch,
    ContractPaused,
    InvalidSeverity,
    InvalidConfig,
    NoPendingProposal,
}

/// Per-severity SLA configuration.
#[derive(Clone, Copy, Debug, PartialEq, Eq, Structural)]
pub struct SLAConfig {
    pub threshold_minutes: u32,
    pub penalty_per_minute: i128,
    pub reward_base: i128,
}

/// Whether the SLA target was met.
#[derive(Clone, Copy, Debug, PartialEq, Eq, Structural)]
pub enum SlaStatus {
    Met,
    Violated,
}

/// Direction of the payment that a result implies.
#[derive(Clone, Copy, Debug, PartialEq, Eq, Structural)]
pub enum PaymentType {
    Reward,
    Penalty,
}

/// Performance rating of a result.
#[derive(Clone, Copy, Debug, PartialEq, Eq, Structural)]
pub enum Rating {
    Top,
    Excellent,
    Good,
    Poor,
}

/// Outcome of one SLA calculation.
#[derive(Debug, PartialEq, Eq)]
pub struct SLAResult {
    pub outage_id: String,
    pub status: SlaStatus,
    pub mttr_minutes: u32,
    pub threshold_minutes: u32,
    /// Negative for a penalty, positive for a reward.
    pub amount: i128,
    pub payment_type: PaymentType,
    pub rating: Rating,
    /// Ledger time at which the result was produced.
    pub recorded_at: u64,
}

impl Clone for SLAResult {
    fn clone(&self) -> (r: Self)
        ensures
            r == *self,
    {
        SLAResult {
            outage_id: self.outage_id.clone(),
            status: self.status,
            mttr_minutes: self.mttr_minutes,
            threshold_minutes: self.threshold_minutes,
            amount: self.amount,
            payment_type: self.payment_type,
            rating: self.rating,
            recorded_at: self.recorded_at,
        }
    }
}

/// A Stellar account or contract, identified by its strkey text.
#[derive(Debug, PartialEq, Eq)]
pub struct AccountId {
    pub key: String,
}

impl View for AccountId {
    type V = Seq<char>;

    open spec fn view(&self) -> Seq<char> {
        self.key@
    }
}

impl AccountId {
    /// The account with the given strkey.
    pub fn from_key(key: &str) -> (r: AccountId)
        ensures
            r@ == key@,
    {
        AccountId { key: key.to_owned() }
    }

    /// Whether both identify the same account.
    pub fn same_as(&self, other: &AccountId) -> (r: bool)
        ensures
            r == (self@ == other@),
    {
        self.key == other.key
    }
}

impl Clone for AccountId {
    fn clone(&self) -> (r: Self)
        ensures
            r == *self,
    {
        AccountId { key: self.key.clone() }
    }
}

/// The four supported severities, in canonical order.
#[derive(Clone, Copy, Debug, PartialEq, Eq, Structural)]
pub enum Severity {
    Critical,
    High,
    Medium,
    Low,
}

/// The severity whose name is `name`, if any.
pub open spec fn severity_named(name: Seq<char>) -> Option<Severity> {
    if name == "critical"@ {
        Some(Severity::Critical)
    } else if name == "high"@ {
        Some(Severity::High)
    } else if name == "medium"@ {
        Some(Severity::Medium)
    } else if name == "low"@ {
        Some(Severity::Low)
    } else {
        None
    }
}

/// Whether two texts are equal.
pub fn text_eq(a: &str, b: &str) -> (r: bool)
    ensures
        r == (a@ == b@),
{
    a.to_owned() == b.to_owned()
}

impl Severity {
    pub open spec fn spec_name(self) -> Seq<char> {
        match self {
            Severity::Critical => "critical"@,
            Severity::High => "high"@,
            Severity::Medium => "medium"@,
            Severity::Low => "low"@,
        }
    }

    /// The name under which the severity is configured.
    pub fn name(&self) -> (r: &'static str)
        ensures
            r@ == self.spec_name(),
    {
        match self {
            Severity::Critical => "critical",
            Severity::High => "high",
            Severity::Medium => "medium",
            Severity::Low => "low",
        }
    }

    /// Parses a severity name; names are case-sensitive.
    pub fn from_name(name: &str) -> (r: Option<Severity>)
        ensures
            r == severity_named(name@),
    {
        if text_eq(name, "critical") {
            Some(Severity::Critical)
        } else if text_eq(name, "high") {
            Some(Severity::High)
        } else if text_eq(name, "medium") {
            Some(Severity::Medium)
        } else if text_eq(name, "low") {
            Some(Severity::Low)
        } else {
            None
        }
    }
}

/// The severities in canonical order.
pub open spec fn canonical_severities() -> Seq<Severity> {
    seq![Severity::Critical, Severity::High, Severity::Medium, Severity::Low]
}

/// The severities in canonical order.
pub fn supported_severities() -> (r: Vec<Severity>)
    ensures
        r@ == canonical_severities(),
{
    vec![Severity::Critical, Severity::High, Severity::Medium, Severity::Low]
}

impl SlaStatus {
    pub open spec fn spec_name(self) -> Seq<char> {
        match self {
            SlaStatus::Met => "met"@,
            SlaStatus::Violated => "viol"@,
        }
    }

    /// The symbol under which the status is published.
    pub fn name(&self) -> (r: &'static str)
        ensures
            r@ == self.spec_name(),
    {
        match self {
            SlaStatus::Met => "met",
            SlaStatus::Violated => "viol",
        }
    }
}

impl PaymentType {
    pub open spec fn spec_name(self) -> Seq<char> {
        match self {
            PaymentType::Reward => "rew"@,
            PaymentType::Penalty => "pen"@,
        }
    }

    /// The symbol under which the payment type is published.
    pub fn name(&self) -> (r: &'static str)
        ensures
            r@ == self.spec_name(),
    {
        match self {
            PaymentType::Reward => "rew",
            PaymentType::Penalty => "pen",
        }
    }
}

impl Rating {
    pub open spec fn spec_name(self) -> Seq<char> {
        match self {
            Rating::Top => "top"@,
            Rating::Excellent => "excel"@,
            Rating::Good => "good"@,
            Rating::Poor => "poor"@,
        }
    }

    /// The symbol under which the rating is published.
    pub fn name(&self) -> (r: &'static str)
        ensures
            r@ == self.spec_name(),
    {
        match self {
            Rating::Top => "top",
            Rating::Excellent => "excel",
            Rating::Good => "good",
            Rating::Poor => "poor",
        }
    }
}

/// Cumulative SLA performance metrics.
#[derive(Clone, Copy, Debug, PartialEq, Eq, Structural)]
pub struct SLAStats {
    pub total_calculations: u64,
    pub total_violations: u64,
    /// Sum of all rewards paid out.
    pub total_rewards: i128,
    /// Sum of all penalties, counted positive.
    pub total_penalties: i128,
}

/// Why and when the contract was paused.
#[derive(Debug, PartialEq, Eq)]
pub struct PauseInfo {
    pub reason: String,
    pub paused_at: u64,
}

impl Clone for PauseInfo {
    fn clone(&self) -> (r: Self)
        ensures
            r == *self,
    {
        PauseInfo { reason: self.reason.clone(), paused_at: self.paused_at }
    }
}

/// One severity with its configuration.
#[derive(Clone, Copy, Debug, PartialEq, Eq, Structural)]
pub struct ConfigEntry {
    pub severity: Severity,
    pub config: SLAConfig,
}

/// The configuration of every severity.
#[derive(Clone, Copy, Debug, PartialEq, Eq, Structural)]
pub struct ConfigTable {
    pub critical: SLAConfig,
    pub high: SLAConfig,
    pub medium: SLAConfig,
    pub low: SLAConfig,
}

impl ConfigTable {
    pub open spec fn spec_get(self, severity: Severity) -> SLAConfig {
        match severity {
            Severity::Critical => self.critical,
            Severity::High => self.high,
            Severity::Medium => self.medium,
            Severity::Low => self.low,
        }
    }

    pub open spec fn spec_set(self, severity: Severity, cfg: SLAConfig) -> ConfigTable {
        match severity {
            Severity::Critical => ConfigTable { critical: cfg, ..self },
            Severity::High => ConfigTable { high: cfg, ..self },
            Severity::Medium => ConfigTable { medium: cfg, ..self },
            Severity::Low => ConfigTable { low: cfg, ..self },
        }
    }

    /// The entries in canonical severity order.
    pub open spec fn spec_entries(self) -> Seq<ConfigEntry> {
        canonical_severities().map_values(
            |s: Severity| ConfigEntry { severity: s, config: self.spec_get(s) },
        )
    }

    /// The configuration of `severity`.
    pub fn get(&self, severity: Severity) -> (r: SLAConfig)
        ensures
            r == self.spec_get(severity),
    {
        match severity {
            Severity::Critical => self.critical,
            Severity::High => self.high,
            Severity::Medium => self.medium,
            Severity::Low => self.low,
        }
    }

    /// Replaces the configuration of `severity`.
    pub fn set(&mut self, severity: Severity, cfg: SLAConfig)
        ensures
            *final(self) == old(self).spec_set(severity, cfg),
    {
        match severity {
            Severity::Critical => self.critical = cfg,
            Severity::High => self.high = cfg,
            Severity::Medium => self.medium = cfg,
            Severity::Low => self.low = cfg,
        }
    }

    /// The entries in canonical severity order.
    pub fn entries(&self) -> (r: Vec<ConfigEntry>)
        ensures
            r@ == self.spec_entries(),
    {
        let r = vec![
            ConfigEntry { severity: Severity::Critical, config: self.critical },
            ConfigEntry { severity: Severity::High, config: self.high },
            ConfigEntry { severity: Severity::Medium, config: self.medium },
            ConfigEntry { severity: Severity::Low, config: self.low },
        ];
        assert(r@ =~= self.spec_entries());
        r
    }
}

/// A versioned, ordered listing of every severity's configuration.
#[derive(Debug, PartialEq, Eq)]
pub struct ConfigSnapshot {
    pub version: String,
    pub entries: Vec<ConfigEntry>,
}

/// The symbols a backend uses to read results, with their schema version.
#[derive(Debug, PartialEq, Eq)]
pub struct SLAResultSchema {
    pub version: String,
    pub schema_version: u32,
    pub status_met: String,
    pub status_violated: String,
    pub payment_reward: String,
    pub payment_penalty: String,
    pub rating_exceptional: String,
    pub rating_excellent: String,
    pub rating_good: String,
    pub rating_poor: String,
}

/// What the contract is and what it offers.
#[derive(Debug, PartialEq, Eq)]
pub struct ContractMetadata {
    pub contract_name: String,
    pub storage_version: u32,
    pub result_schema_version: u32,
    pub supported_severities: Vec<Severity>,
    pub features: Vec<String>,
}

} // verus!
