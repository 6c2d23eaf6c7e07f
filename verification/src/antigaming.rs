//! Anti-gaming configuration: the catalog of suspicious patterns, penalty
//! and cooldown bookkeeping, and the detection thresholds this engine uses.
//!
//! The exact thresholds are engine configuration: a delegation is rapid when
//! its delegator created another delegation within the rapid window, a trust
//! amount is excessive above a fixed ceiling, and circular delegation is
//! sought up to a fixed path depth.

use vstd::prelude::*;

verus! {

/// How long after a delegation a new one from the same delegator counts as
/// rapid, in seconds.
pub const RAPID_DELEGATION_WINDOW_SECS: u64 = 60;

/// A single delegation above this amount counts as excessive.
pub const EXCESSIVE_TRUST_AMOUNT: u128 = 1_000_000_000_000_000_000_000_000_000;

/// How many hops the circular-delegation scan follows.
pub const CIRCULAR_SCAN_DEPTH: u64 = 8;

/// How many active outgoing edges an entity may have before it counts as a
/// sybil-style fan-out.
pub const SYBIL_FANOUT_LIMIT: usize = 100;

/// Kinds of abuse the detector recognizes.
#[derive(Debug, Clone, Copy, PartialEq, Eq, Structural)]
pub enum PatternType {
    SybilAttack,
    WashTrading,
    FakeDelegation,
    TrustManipulation,
    GovernanceGaming,
    EnvironmentalFaking,
    CircularDelegation,
    TrustConcentration,
    RapidDelegation,
    SuspiciousActivity,
}

/// How grave a detected pattern is.
#[derive(Debug, Clone, Copy, PartialEq, Eq, Structural)]
pub enum Severity {
    Low,
    Medium,
    High,
    Critical,
}

/// A detected suspicious pattern: what was found, how grave it is, the
/// penalty multiplier it applies to the entity's trust score (in parts per
/// million) and the cooldown it imposes (in seconds).
#[derive(Debug, Clone)]
pub struct SuspiciousPattern {
    pub pattern_id: String,
    pub pattern_type: PatternType,
    pub severity: Severity,
    /// Detection threshold in parts per million.
    pub detection_threshold: u64,
    /// Penalty multiplier in parts per million.
    pub penalty: u64,
    /// Cooldown in seconds.
    pub cooldown: u64,
    pub description: String,
}

/// Anti-gaming bookkeeping: recorded patterns, per-entity penalty
/// multipliers (in parts per million) and cooldown deadlines (seconds since
/// the epoch), and the lists of entities that are always or never trusted.
#[derive(Debug, Clone)]
pub struct AntiGamingSystem {
    pub suspicious_patterns: Vec<SuspiciousPattern>,
    pub penalty_multipliers: Vec<(String, u64)>,
    pub cooldown_periods: Vec<(String, u64)>,
    /// Entities whose new delegations are always refused.
    pub blacklist: Vec<String>,
    /// Entities exempt from suspicious-delegation detection.
    pub whitelist: Vec<String>,
}

} // verus!
