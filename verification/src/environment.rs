//! Environmental-data validation: range checks, score recomputation and
//! freshness.
//!
//! The environmental score of a block is `(carbon_score + renewable_score)/2`
//! where `carbon_score = 1 - min(carbon_footprint / 1000, 1)`. All scores are
//! in parts per million; the declared score must match the recomputed one
//! within `SCORE_TOLERANCE_PPM`.

use vstd::prelude::*;

use crate::block::EnvironmentalData;
use crate::numeric::PPM_SCALE;

verus! {

/// Largest valid carbon footprint, in thousandths of a unit (1000.0 units).
pub const MAX_CARBON_FOOTPRINT_MILLI: u64 = 1_000_000;

/// Allowed gap between a declared environmental score and the recomputed
/// one: 0.01, in parts per million.
pub const SCORE_TOLERANCE_PPM: u64 = 10_000;

/// How long environmental data stays fresh, in seconds.
pub const FRESHNESS_WINDOW_SECS: u64 = 3600;

/// How data is verified before it reaches the chain.
#[allow(non_camel_case_types)]
#[derive(Debug, Clone, PartialEq, Eq, Structural)]
pub enum VerificationMethod {
    IoT_Sensors,
    ThirdPartyAudit,
    BlockchainProof,
    CommunityVerification,
}

/// Configuration of the environmental oracle: the reference figures it
/// carries and the minimum score it asks of a block.
#[derive(Debug, Clone)]
pub struct EnvironmentalDataValidator {
    /// Carbon footprint reference, in thousandths of a unit.
    pub carbon_footprint: u64,
    /// Renewable-energy share reference, in parts per million.
    pub renewable_energy_usage: u64,
    /// Environmental score reference, in parts per million.
    pub environmental_score: u64,
    pub verification_method: VerificationMethod,
    pub last_updated: u64,
    /// Minimum environmental score required, in parts per million.
    pub validation_threshold: u64,
}

/// The carbon score `1 - min(carbon_footprint / 1000, 1)` in parts per
/// million, for a footprint in thousandths of a unit.
pub open spec fn spec_carbon_score_ppm(carbon_footprint_milli: int) -> int {
    if carbon_footprint_milli >= PPM_SCALE {
        0
    } else {
        PPM_SCALE - carbon_footprint_milli
    }
}

/// The environmental score `(carbon_score + renewable_score) / 2` in parts
/// per million.
pub open spec fn spec_environmental_score_ppm(
    carbon_footprint_milli: int,
    renewable_ppm: int,
) -> int {
    (spec_carbon_score_ppm(carbon_footprint_milli) + renewable_ppm) / 2
}

/// Whether environmental data is fresh at `now`: within the freshness window
/// of its last update.
pub open spec fn spec_environmental_data_fresh(env: EnvironmentalData, now: u64) -> bool {
    now <= env.last_updated + FRESHNESS_WINDOW_SECS
}

/// Whether environmental data passes the environmental gate at validation
/// time `now`: ranges hold, the declared score matches the recomputed one
/// within tolerance, and the data is fresh.
pub open spec fn spec_environmental_data_valid(env: EnvironmentalData, now: u64) -> bool {
    let recomputed = spec_environmental_score_ppm(
        env.carbon_footprint as int,
        env.renewable_energy_usage as int,
    );
    &&& env.carbon_footprint <= MAX_CARBON_FOOTPRINT_MILLI
    &&& env.renewable_energy_usage <= PPM_SCALE
    &&& -(SCORE_TOLERANCE_PPM as int) <= recomputed - env.environmental_score
        <= SCORE_TOLERANCE_PPM as int
    &&& spec_environmental_data_fresh(env, now)
}

/// A block passes the environmental gate only when its declared score lies
/// within the tolerance of the deterministically recomputed one.
pub proof fn lemma_environmental_gate_tolerance(env: EnvironmentalData, now: u64)
    ensures
        spec_environmental_data_valid(env, now) ==> {
            let recomputed = spec_environmental_score_ppm(
                env.carbon_footprint as int,
                env.renewable_energy_usage as int,
            );
            -(SCORE_TOLERANCE_PPM as int) <= recomputed - env.environmental_score
                <= SCORE_TOLERANCE_PPM as int
        },
{
}

/// Recompute the environmental score of the given data, in parts per
/// million.
pub fn calculate_environmental_score(env: &EnvironmentalData) -> (r: u64)
    ensures
        r == spec_environmental_score_ppm(
            env.carbon_footprint as int,
            env.renewable_energy_usage as int,
        ),
{
    let carbon_score: u64 = if env.carbon_footprint >= PPM_SCALE {
        0
    } else {
        PPM_SCALE - env.carbon_footprint
    };
    let sum: u128 = carbon_score as u128 + env.renewable_energy_usage as u128;
    (sum / 2) as u64
}

/// Decide the environmental gate for the given data at validation time
/// `now`.
pub fn validate_environmental_data_at(env: &EnvironmentalData, now: u64) -> (r: bool)
    ensures
        r == spec_environmental_data_valid(*env, now),
{
    if env.carbon_footprint > MAX_CARBON_FOOTPRINT_MILLI {
        return false;
    }
    if env.renewable_energy_usage > PPM_SCALE {
        return false;
    }
    let recomputed = calculate_environmental_score(env);
    let gap_ok = if recomputed >= env.environmental_score {
        recomputed - env.environmental_score <= SCORE_TOLERANCE_PPM
    } else {
        env.environmental_score - recomputed <= SCORE_TOLERANCE_PPM
    };
    if !gap_ok {
        return false;
    }
    now as u128 <= env.last_updated as u128 + FRESHNESS_WINDOW_SECS as u128
}

} // verus!
