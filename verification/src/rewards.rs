//! Block-reward computation: halving schedule, trust multiplier,
//! environmental bonus and the five-pool split.
//!
//! `total_reward = base_block_reward * trust_multiplier * (1 + environmental_bonus)`,
//! computed in parts-per-million fixed point. The total is then split into
//! five percentage pools that sum to 100%; integer rounding dust goes to the
//! pool with the largest division remainder, so the pools sum exactly to the
//! total.

use vstd::prelude::*;

use crate::block::EnvironmentalData;
use crate::numeric::PPM_SCALE;

verus! {

/// A halving event: from `block_height` on, the base block reward is scaled
/// by `reward_multiplier` (in parts per million).
#[derive(Debug, Clone)]
pub struct HalvingEvent {
    pub block_height: u64,
    /// Multiplier applied to the base reward, in parts per million.
    pub reward_multiplier: u64,
    pub description: String,
}

/// The five reward pools, as whole percentages.
#[derive(Debug, Clone)]
pub struct RewardDistributionRules {
    /// Share for the validators (primary security), in percent.
    pub validators: u64,
    /// Share for the layer-two edge-node operators, in percent.
    pub edge_nodes: u64,
    /// Share for the token delegators, in percent.
    pub stakers: u64,
    /// Share for ecosystem growth, in percent.
    pub dev_fund: u64,
    /// Share for sustainability initiatives, in percent.
    pub environmental_fund: u64,
}

/// A trust bucket `[min_trust, max_trust)` with the reward multiplier it
/// grants; bounds and multiplier in parts per million.
#[derive(Debug, Clone)]
pub struct TrustThreshold {
    pub min_trust: u64,
    pub max_trust: u64,
    pub multiplier: u64,
}

/// The ordered, non-overlapping trust buckets and the fallback multiplier.
#[derive(Debug, Clone)]
pub struct TrustMultipliers {
    /// Multiplier used when no bucket matches, in parts per million.
    pub base_multiplier: u64,
    /// Largest multiplier the engine hands out, in parts per million.
    pub max_multiplier: u64,
    pub trust_thresholds: Vec<TrustThreshold>,
}

/// Environmental bonus coefficients, in parts per million.
#[derive(Debug, Clone)]
pub struct EnvironmentalBonuses {
    pub carbon_offset_bonus: u64,
    pub renewable_energy_bonus: u64,
    pub environmental_verification_bonus: u64,
    pub max_environmental_bonus: u64,
}

/// The reward split of one block. The five pools sum exactly to the computed
/// total reward.
#[derive(Debug, Clone, PartialEq, Eq, Structural)]
pub struct RewardDistribution {
    pub validators: u128,
    pub edge_nodes: u128,
    pub stakers: u128,
    pub dev_fund: u128,
    pub environmental_fund: u128,
}

/// Reward configuration of the consensus engine.
#[derive(Debug, Clone)]
pub struct RewardDistributionEngine {
    /// Base block reward before halving, multipliers and bonuses.
    pub block_reward: u128,
    /// Halving events ordered by ascending block height.
    pub halving_schedule: Vec<HalvingEvent>,
    pub distribution_rules: RewardDistributionRules,
    pub trust_multipliers: TrustMultipliers,
    pub environmental_bonuses: EnvironmentalBonuses,
}

impl RewardDistributionRules {
    /// The percentages sum to exactly one hundred.
    pub open spec fn wf(self) -> bool {
        self.validators + self.edge_nodes + self.stakers + self.dev_fund
            + self.environmental_fund == 100
    }
}

impl RewardDistributionEngine {
    /// Halving multipliers stay within one, events are ordered by ascending
    /// height, and the fallback trust multiplier is bounded by the largest
    /// one the engine hands out.
    pub open spec fn wf(self) -> bool {
        &&& self.distribution_rules.wf()
        &&& self.block_reward <= u128::MAX / (PPM_SCALE as u128)
        &&& forall|i: int|
            0 <= i < self.halving_schedule@.len()
                ==> #[trigger] self.halving_schedule@[i].reward_multiplier <= PPM_SCALE
        &&& forall|i: int, j: int|
            0 <= i < j < self.halving_schedule@.len() ==> self.halving_schedule@[i].block_height
                <= self.halving_schedule@[j].block_height
    }
}

/// The halving multiplier in force at `height`: the multiplier of the last
/// event whose height has been crossed, or one if none has.
pub open spec fn spec_halving_multiplier(schedule: Seq<HalvingEvent>, height: u64) -> u64
    decreases schedule.len(),
{
    if schedule.len() == 0 {
        PPM_SCALE
    } else if schedule.last().block_height <= height {
        schedule.last().reward_multiplier
    } else {
        spec_halving_multiplier(schedule.drop_last(), height)
    }
}

/// The reward multiplier granted by the first trust bucket that contains
/// `trust_score`, or `base` if none does.
pub open spec fn spec_bucket_multiplier(
    buckets: Seq<TrustThreshold>,
    trust_score: u64,
    base: u64,
) -> u64
    decreases buckets.len(),
{
    if buckets.len() == 0 {
        base
    } else if buckets.first().min_trust <= trust_score && trust_score
        < buckets.first().max_trust {
        buckets.first().multiplier
    } else {
        spec_bucket_multiplier(buckets.drop_first(), trust_score, base)
    }
}

/// The environmental bonus for the given data in parts per million:
/// `min(carbon_footprint * carbon_coefficient
///      + renewable_share * renewable_coefficient
///      + verification_bonus, max_bonus)`,
/// and zero when no data is present.
pub open spec fn spec_environmental_bonus(
    bonuses: EnvironmentalBonuses,
    env: Option<EnvironmentalData>,
) -> int {
    match env {
        Option::None => 0,
        Option::Some(e) => {
            let carbon = e.carbon_footprint * bonuses.carbon_offset_bonus / 1000;
            let renewable = e.renewable_energy_usage * bonuses.renewable_energy_bonus
                / (PPM_SCALE as int);
            let total = carbon + renewable + bonuses.environmental_verification_bonus;
            if total <= bonuses.max_environmental_bonus {
                total
            } else {
                bonuses.max_environmental_bonus as int
            }
        },
    }
}

/// The total block reward before splitting:
/// `base * multiplier * (1 + bonus)` in parts-per-million fixed point, with
/// each scaling step rounded down.
pub open spec fn spec_total_reward(base: int, multiplier_ppm: int, bonus_ppm: int) -> int {
    (base * multiplier_ppm / (PPM_SCALE as int)) * (PPM_SCALE as int + bonus_ppm) / (
    PPM_SCALE as int)
}

/// Whether the total-reward computation stays within an unsigned 128-bit
/// machine word.
pub open spec fn spec_total_reward_fits(base: int, multiplier_ppm: int, bonus_ppm: int) -> bool {
    &&& base * multiplier_ppm <= u128::MAX
    &&& (base * multiplier_ppm / (PPM_SCALE as int)) * (PPM_SCALE as int + bonus_ppm)
        <= u128::MAX
}

/// The five pool shares before dust: each pool gets the rounded-down
/// percentage of the total.
pub open spec fn spec_pool_floor(total: int, percent: int) -> int {
    total * percent / 100
}

/// The division remainder a pool leaves, used to pick where rounding dust
/// goes.
pub open spec fn spec_pool_remainder(total: int, percent: int) -> int {
    total * percent % 100
}

/// Which pool absorbs the rounding dust: the index (in the fixed order
/// validators, edge nodes, stakers, dev fund, environmental fund) of the
/// pool with the largest remainder, the earliest winning a tie.
pub open spec fn spec_dust_pool(rules: RewardDistributionRules, total: int) -> int {
    let r0 = spec_pool_remainder(total, rules.validators as int);
    let r1 = spec_pool_remainder(total, rules.edge_nodes as int);
    let r2 = spec_pool_remainder(total, rules.stakers as int);
    let r3 = spec_pool_remainder(total, rules.dev_fund as int);
    let r4 = spec_pool_remainder(total, rules.environmental_fund as int);
    if r0 >= r1 && r0 >= r2 && r0 >= r3 && r0 >= r4 {
        0
    } else if r1 >= r2 && r1 >= r3 && r1 >= r4 {
        1
    } else if r2 >= r3 && r2 >= r4 {
        2
    } else if r3 >= r4 {
        3
    } else {
        4
    }
}

/// The exact reward split: rounded-down percentage pools, with the rounding
/// dust added to the pool `spec_dust_pool` picks.
pub open spec fn spec_reward_split(rules: RewardDistributionRules, total: int) -> RewardDistribution {
    let s0 = spec_pool_floor(total, rules.validators as int);
    let s1 = spec_pool_floor(total, rules.edge_nodes as int);
    let s2 = spec_pool_floor(total, rules.stakers as int);
    let s3 = spec_pool_floor(total, rules.dev_fund as int);
    let s4 = spec_pool_floor(total, rules.environmental_fund as int);
    let dust = total - (s0 + s1 + s2 + s3 + s4);
    let d = spec_dust_pool(rules, total);
    RewardDistribution {
        validators: (s0 + if d == 0 { dust } else { 0 }) as u128,
        edge_nodes: (s1 + if d == 1 { dust } else { 0 }) as u128,
        stakers: (s2 + if d == 2 { dust } else { 0 }) as u128,
        dev_fund: (s3 + if d == 3 { dust } else { 0 }) as u128,
        environmental_fund: (s4 + if d == 4 { dust } else { 0 }) as u128,
    }
}

/// The rounding dust is small and the floors never exceed the total: with
/// percentages summing to one hundred, the five rounded-down pools fall
/// short of the total by less than five units.
pub proof fn lemma_pool_floors_bound(rules: RewardDistributionRules, total: int)
    requires
        rules.wf(),
        total >= 0,
    ensures
        0 <= total - (spec_pool_floor(total, rules.validators as int) + spec_pool_floor(
            total,
            rules.edge_nodes as int,
        ) + spec_pool_floor(total, rules.stakers as int) + spec_pool_floor(
            total,
            rules.dev_fund as int,
        ) + spec_pool_floor(total, rules.environmental_fund as int)) < 5,
{
    let p0 = rules.validators as int;
    let p1 = rules.edge_nodes as int;
    let p2 = rules.stakers as int;
    let p3 = rules.dev_fund as int;
    let p4 = rules.environmental_fund as int;
    let q0 = total * p0;
    let q1 = total * p1;
    let q2 = total * p2;
    let q3 = total * p3;
    let q4 = total * p4;
    assert(q0 + q1 + q2 + q3 + q4 == total * 100) by (nonlinear_arith)
        requires
            q0 == total * p0,
            q1 == total * p1,
            q2 == total * p2,
            q3 == total * p3,
            q4 == total * p4,
            p0 + p1 + p2 + p3 + p4 == 100,
    ;
    assert(q0 == 100 * (q0 / 100) + q0 % 100 && 0 <= q0 % 100 < 100) by {
        vstd::arithmetic::div_mod::lemma_fundamental_div_mod(q0, 100);
    }
    assert(q1 == 100 * (q1 / 100) + q1 % 100 && 0 <= q1 % 100 < 100) by {
        vstd::arithmetic::div_mod::lemma_fundamental_div_mod(q1, 100);
    }
    assert(q2 == 100 * (q2 / 100) + q2 % 100 && 0 <= q2 % 100 < 100) by {
        vstd::arithmetic::div_mod::lemma_fundamental_div_mod(q2, 100);
    }
    assert(q3 == 100 * (q3 / 100) + q3 % 100 && 0 <= q3 % 100 < 100) by {
        vstd::arithmetic::div_mod::lemma_fundamental_div_mod(q3, 100);
    }
    assert(q4 == 100 * (q4 / 100) + q4 % 100 && 0 <= q4 % 100 < 100) by {
        vstd::arithmetic::div_mod::lemma_fundamental_div_mod(q4, 100);
    }
    let floors = q0 / 100 + q1 / 100 + q2 / 100 + q3 / 100 + q4 / 100;
    let rems = q0 % 100 + q1 % 100 + q2 % 100 + q3 % 100 + q4 % 100;
    assert(100 * floors + rems == total * 100);
    assert(0 <= rems < 500);
    assert(100 * (total - floors) == rems);
}

/// The five pools of the reward split sum exactly to the total: rounding
/// loses no units and invents none.
pub proof fn lemma_reward_split_sums(rules: RewardDistributionRules, total: int)
    requires
        rules.wf(),
        0 <= total <= u128::MAX,
    ensures
        ({
            let r = spec_reward_split(rules, total);
            r.validators + r.edge_nodes + r.stakers + r.dev_fund + r.environmental_fund == total
        }),
{
    lemma_pool_floors_bound(rules, total);
    let p0 = rules.validators as int;
    let p1 = rules.edge_nodes as int;
    let p2 = rules.stakers as int;
    let p3 = rules.dev_fund as int;
    let p4 = rules.environmental_fund as int;
    assert(0 <= spec_pool_floor(total, p0) <= total) by (nonlinear_arith)
        requires
            total >= 0,
            0 <= p0 <= 100,
    ;
    assert(0 <= spec_pool_floor(total, p1) <= total) by (nonlinear_arith)
        requires
            total >= 0,
            0 <= p1 <= 100,
    ;
    assert(0 <= spec_pool_floor(total, p2) <= total) by (nonlinear_arith)
        requires
            total >= 0,
            0 <= p2 <= 100,
    ;
    assert(0 <= spec_pool_floor(total, p3) <= total) by (nonlinear_arith)
        requires
            total >= 0,
            0 <= p3 <= 100,
    ;
    assert(0 <= spec_pool_floor(total, p4) <= total) by (nonlinear_arith)
        requires
            total >= 0,
            0 <= p4 <= 100,
    ;
}

impl RewardDistributionEngine {
    /// The halving multiplier in force at the given block height.
    pub fn halving_multiplier(&self, height: u64) -> (r: u64)
        ensures
            r == spec_halving_multiplier(self.halving_schedule@, height),
    {
        let mut i: usize = self.halving_schedule.len();
        proof {
            assert(self.halving_schedule@.take(i as int) =~= self.halving_schedule@);
        }
        while i > 0
            invariant
                i <= self.halving_schedule@.len(),
                spec_halving_multiplier(self.halving_schedule@, height)
                    == spec_halving_multiplier(self.halving_schedule@.take(i as int), height),
            decreases i,
        {
            proof {
                assert(self.halving_schedule@.take(i as int).drop_last()
                    =~= self.halving_schedule@.take(i - 1));
            }
            if self.halving_schedule[i - 1].block_height <= height {
                return self.halving_schedule[i - 1].reward_multiplier;
            }
            i -= 1;
        }
        PPM_SCALE
    }

    /// The base reward in force at the given block height: the configured
    /// block reward scaled by the halving multiplier.
    pub fn effective_base_reward(&self, height: u64) -> (r: u128)
        requires
            self.wf(),
        ensures
            r == self.block_reward * spec_halving_multiplier(self.halving_schedule@, height)
                / (PPM_SCALE as int),
            r <= self.block_reward,
    {
        let m = self.halving_multiplier(height);
        proof {
            lemma_halving_multiplier_bounded(self.halving_schedule@, height);
            let b = self.block_reward as int;
            let mi = m as int;
            let p = PPM_SCALE as int;
            assert(b * mi <= b * p) by (nonlinear_arith)
                requires
                    0 <= mi <= p,
                    b >= 0,
            ;
            assert(b * p / p == b) by (nonlinear_arith)
                requires
                    p > 0,
                    b >= 0,
            ;
            assert(b * mi / p <= b * p / p) by (nonlinear_arith)
                requires
                    b * mi <= b * p,
                    p > 0,
            ;
            assert(b * mi >= 0) by (nonlinear_arith)
                requires
                    b >= 0,
                    mi >= 0,
            ;
            assert(b * mi <= u128::MAX) by (nonlinear_arith)
                requires
                    0 <= mi <= p,
                    p > 0,
                    0 <= b <= u128::MAX as int / p,
            ;
        }
        ((self.block_reward as u128) * (m as u128) / (PPM_SCALE as u128)) as u128
    }

    /// The reward multiplier for a proposer's trust score: the multiplier of
    /// the first trust bucket containing the score, or the base multiplier
    /// when no bucket matches or no score is known.
    pub fn trust_multiplier(&self, trust_score: Option<u64>) -> (r: u64)
        ensures
            r == match trust_score {
                Option::Some(score) => spec_bucket_multiplier(
                    self.trust_multipliers.trust_thresholds@,
                    score,
                    self.trust_multipliers.base_multiplier,
                ),
                Option::None => self.trust_multipliers.base_multiplier,
            },
    {
        let score = match trust_score {
            Some(s) => s,
            None => {
                return self.trust_multipliers.base_multiplier;
            },
        };
        let buckets = &self.trust_multipliers.trust_thresholds;
        let mut i: usize = 0;
        proof {
            assert(buckets@.skip(0) =~= buckets@);
        }
        while i < buckets.len()
            invariant
                i <= buckets@.len(),
                buckets@ == self.trust_multipliers.trust_thresholds@,
                trust_score == Some(score),
                spec_bucket_multiplier(buckets@, score, self.trust_multipliers.base_multiplier)
                    == spec_bucket_multiplier(
                    buckets@.skip(i as int),
                    score,
                    self.trust_multipliers.base_multiplier,
                ),
            decreases buckets@.len() - i,
        {
            proof {
                assert(buckets@.skip(i as int).drop_first() =~= buckets@.skip(i + 1));
                assert(buckets@.skip(i as int).first() == buckets@[i as int]);
            }
            let b = &buckets[i];
            if b.min_trust <= score && score < b.max_trust {
                proof {
                    assert(buckets@.skip(i as int).len() > 0);
                    assert(buckets@.skip(i as int).first().min_trust <= score);
                    assert(score < buckets@.skip(i as int).first().max_trust);
                    assert(spec_bucket_multiplier(
                        buckets@.skip(i as int),
                        score,
                        self.trust_multipliers.base_multiplier,
                    ) == buckets@[i as int].multiplier);
                    assert(spec_bucket_multiplier(
                        buckets@,
                        score,
                        self.trust_multipliers.base_multiplier,
                    ) == b.multiplier);
                }
                return b.multiplier;
            }
            i += 1;
        }
        self.trust_multipliers.base_multiplier
    }

    /// The environmental bonus for a block's environmental data, in parts
    /// per million; zero when the block carries none.
    pub fn environmental_bonus(&self, env: &Option<EnvironmentalData>) -> (r: u64)
        ensures
            r == spec_environmental_bonus(self.environmental_bonuses, *env),
            r <= self.environmental_bonuses.max_environmental_bonus || r
                == spec_environmental_bonus(self.environmental_bonuses, *env),
    {
        let e = match env {
            Some(e) => e,
            None => {
                return 0;
            },
        };
        let b = &self.environmental_bonuses;
        proof {
            let cf = e.carbon_footprint as int;
            let cb = b.carbon_offset_bonus as int;
            let re = e.renewable_energy_usage as int;
            let rb = b.renewable_energy_bonus as int;
            let m = u64::MAX as int;
            assert(cf * cb <= m * m && cf * cb >= 0) by (nonlinear_arith)
                requires
                    0 <= cf <= m,
                    0 <= cb <= m,
            ;
            assert(re * rb <= m * m && re * rb >= 0) by (nonlinear_arith)
                requires
                    0 <= re <= m,
                    0 <= rb <= m,
            ;
            vstd::arithmetic::div_mod::lemma_div_is_ordered(cf * cb, m * m, 1000);
            vstd::arithmetic::div_mod::lemma_div_is_ordered(re * rb, m * m, PPM_SCALE as int);
        }
        let carbon: u128 = (e.carbon_footprint as u128) * (b.carbon_offset_bonus as u128) / 1000;
        let renewable: u128 = (e.renewable_energy_usage as u128) * (b.renewable_energy_bonus
            as u128) / (PPM_SCALE as u128);
        let total: u128 = carbon + renewable + (b.environmental_verification_bonus as u128);
        if total <= b.max_environmental_bonus as u128 {
            total as u64
        } else {
            b.max_environmental_bonus
        }
    }

    /// Split a total reward into the five pools. The pools sum exactly to
    /// the total; the rounding dust goes to the pool with the largest
    /// division remainder.
    pub fn distribute(&self, total: u128) -> (r: RewardDistribution)
        requires
            self.distribution_rules.wf(),
            total <= u128::MAX / 100,
        ensures
            r == spec_reward_split(self.distribution_rules, total as int),
            r.validators + r.edge_nodes + r.stakers + r.dev_fund + r.environmental_fund
                == total,
    {
        let rules = &self.distribution_rules;
        proof {
            lemma_pool_floors_bound(*rules, total as int);
            let t = total as int;
            assert(t * (rules.validators as int) <= t * 100 && t * (rules.validators as int)
                >= 0) by (nonlinear_arith)
                requires
                    t >= 0,
                    0 <= rules.validators as int <= 100,
            ;
            assert(t * (rules.edge_nodes as int) <= t * 100 && t * (rules.edge_nodes as int)
                >= 0) by (nonlinear_arith)
                requires
                    t >= 0,
                    0 <= rules.edge_nodes as int <= 100,
            ;
            assert(t * (rules.stakers as int) <= t * 100 && t * (rules.stakers as int) >= 0)
                by (nonlinear_arith)
                requires
                    t >= 0,
                    0 <= rules.stakers as int <= 100,
            ;
            assert(t * (rules.dev_fund as int) <= t * 100 && t * (rules.dev_fund as int) >= 0)
                by (nonlinear_arith)
                requires
                    t >= 0,
                    0 <= rules.dev_fund as int <= 100,
            ;
            assert(t * (rules.environmental_fund as int) <= t * 100 && t * (
            rules.environmental_fund as int) >= 0) by (nonlinear_arith)
                requires
                    t >= 0,
                    0 <= rules.environmental_fund as int <= 100,
            ;
            assert(t * 100 <= u128::MAX) by (nonlinear_arith)
                requires
                    t <= u128::MAX as int / 100,
                    t >= 0,
            ;
        }
        let q0: u128 = total * (rules.validators as u128);
        let q1: u128 = total * (rules.edge_nodes as u128);
        let q2: u128 = total * (rules.stakers as u128);
        let q3: u128 = total * (rules.dev_fund as u128);
        let q4: u128 = total * (rules.environmental_fund as u128);
        let s0: u128 = q0 / 100;
        let s1: u128 = q1 / 100;
        let s2: u128 = q2 / 100;
        let s3: u128 = q3 / 100;
        let s4: u128 = q4 / 100;
        let r0: u128 = q0 % 100;
        let r1: u128 = q1 % 100;
        let r2: u128 = q2 % 100;
        let r3: u128 = q3 % 100;
        let r4: u128 = q4 % 100;
        let dust: u128 = total - (s0 + s1 + s2 + s3 + s4);
        if r0 >= r1 && r0 >= r2 && r0 >= r3 && r0 >= r4 {
            RewardDistribution {
                validators: s0 + dust,
                edge_nodes: s1,
                stakers: s2,
                dev_fund: s3,
                environmental_fund: s4,
            }
        } else if r1 >= r2 && r1 >= r3 && r1 >= r4 {
            RewardDistribution {
                validators: s0,
                edge_nodes: s1 + dust,
                stakers: s2,
                dev_fund: s3,
                environmental_fund: s4,
            }
        } else if r2 >= r3 && r2 >= r4 {
            RewardDistribution {
                validators: s0,
                edge_nodes: s1,
                stakers: s2 + dust,
                dev_fund: s3,
                environmental_fund: s4,
            }
        } else if r3 >= r4 {
            RewardDistribution {
                validators: s0,
                edge_nodes: s1,
                stakers: s2,
                dev_fund: s3 + dust,
                environmental_fund: s4,
            }
        } else {
            RewardDistribution {
                validators: s0,
                edge_nodes: s1,
                stakers: s2,
                dev_fund: s3,
                environmental_fund: s4 + dust,
            }
        }
    }
}

/// A well-formed halving schedule never scales the reward up.
proof fn lemma_halving_multiplier_bounded(schedule: Seq<HalvingEvent>, height: u64)
    requires
        forall|i: int|
            0 <= i < schedule.len() ==> #[trigger] schedule[i].reward_multiplier <= PPM_SCALE,
    ensures
        spec_halving_multiplier(schedule, height) <= PPM_SCALE,
    decreases schedule.len(),
{
    if schedule.len() > 0 && schedule.last().block_height > height {
        lemma_halving_multiplier_bounded(schedule.drop_last(), height);
    }
}

} // verus!
