//! The unified tokenomics configuration: supply, per-block reward shares,
//! fee burning and staking thresholds, with the startup validation that the
//! reward percentages are sane.
//!
//! Percentages are whole numbers of percent. Reward shares here round to the
//! nearest unit; this table is the network-wide policy input and is distinct
//! from the consensus engine's own five-pool split.

use vstd::prelude::*;

verus! {

/// The unified tokenomics configuration.
#[derive(Debug, Clone)]
pub struct UnifiedTokenomics {
    pub max_supply: u128,
    pub initial_supply: u128,
    /// Annual inflation, in percent.
    pub annual_inflation: u64,
    /// Reward share of the validators, in percent.
    pub validator_reward_pct: u64,
    /// Reward share of the delegators, in percent.
    pub delegator_reward_pct: u64,
    /// Reward share of the edge-node operators, in percent.
    pub edge_node_reward_pct: u64,
    /// Reward share of the community pool, in percent.
    pub community_pool_pct: u64,
    /// Reward share of the treasury, in percent.
    pub treasury_pct: u64,
    /// Share of an ordinary transaction fee that is burned, in percent.
    pub tx_fee_burn_pct: u64,
    /// Share of a failed transaction's fee that is burned, in percent.
    pub failed_tx_burn_pct: u64,
    pub min_validator_stake: u128,
    pub min_delegator_stake: u128,
    pub unbonding_period_days: u64,
}

/// The reward split of one block under the tokenomics configuration.
#[derive(Debug, Clone, Copy, PartialEq, Eq, Structural)]
pub struct BlockRewardDistribution {
    pub validators: u128,
    pub delegators: u128,
    pub edge_nodes: u128,
    pub community_pool: u128,
    pub treasury: u128,
}

/// A percentage share of a total, rounded to the nearest unit.
pub open spec fn spec_pct_share(total: int, pct: int) -> int {
    (total * pct + 50) / 100
}

impl UnifiedTokenomics {
    /// The startup validation of §6: every percentage lies within zero and
    /// one hundred, and the five reward shares sum to exactly one hundred.
    pub open spec fn spec_configuration_valid(self) -> bool {
        &&& self.annual_inflation <= 100
        &&& self.validator_reward_pct <= 100
        &&& self.delegator_reward_pct <= 100
        &&& self.edge_node_reward_pct <= 100
        &&& self.community_pool_pct <= 100
        &&& self.treasury_pct <= 100
        &&& self.tx_fee_burn_pct <= 100
        &&& self.failed_tx_burn_pct <= 100
        &&& self.validator_reward_pct + self.delegator_reward_pct + self.edge_node_reward_pct
            + self.community_pool_pct + self.treasury_pct == 100
    }

    /// Validate the configuration once at startup: percentages within range
    /// and reward shares summing to one hundred.
    pub fn validate_configuration(&self) -> (r: bool)
        ensures
            r == self.spec_configuration_valid(),
    {
        self.annual_inflation <= 100 && self.validator_reward_pct <= 100
            && self.delegator_reward_pct <= 100 && self.edge_node_reward_pct <= 100
            && self.community_pool_pct <= 100 && self.treasury_pct <= 100
            && self.tx_fee_burn_pct <= 100 && self.failed_tx_burn_pct <= 100 && (
        self.validator_reward_pct + self.delegator_reward_pct + self.edge_node_reward_pct
            + self.community_pool_pct + self.treasury_pct == 100)
    }

    /// Split a block reward into the five configured shares, each rounded to
    /// the nearest whole unit.
    pub fn distribute_block_reward(&self, total_block_reward: u128) -> (r: BlockRewardDistribution)
        requires
            self.spec_configuration_valid(),
            total_block_reward <= u128::MAX / 200,
        ensures
            r.validators == spec_pct_share(
                total_block_reward as int,
                self.validator_reward_pct as int,
            ),
            r.delegators == spec_pct_share(
                total_block_reward as int,
                self.delegator_reward_pct as int,
            ),
            r.edge_nodes == spec_pct_share(
                total_block_reward as int,
                self.edge_node_reward_pct as int,
            ),
            r.community_pool == spec_pct_share(
                total_block_reward as int,
                self.community_pool_pct as int,
            ),
            r.treasury == spec_pct_share(total_block_reward as int, self.treasury_pct as int),
    {
        proof {
            lemma_pct_share_bounds(total_block_reward as int, self.validator_reward_pct as int);
            lemma_pct_share_bounds(total_block_reward as int, self.delegator_reward_pct as int);
            lemma_pct_share_bounds(total_block_reward as int, self.edge_node_reward_pct as int);
            lemma_pct_share_bounds(total_block_reward as int, self.community_pool_pct as int);
            lemma_pct_share_bounds(total_block_reward as int, self.treasury_pct as int);
        }
        let validators = (total_block_reward * (self.validator_reward_pct as u128) + 50) / 100;
        let delegators = (total_block_reward * (self.delegator_reward_pct as u128) + 50) / 100;
        let edge_nodes = (total_block_reward * (self.edge_node_reward_pct as u128) + 50) / 100;
        let community_pool = (total_block_reward * (self.community_pool_pct as u128) + 50) / 100;
        let treasury = (total_block_reward * (self.treasury_pct as u128) + 50) / 100;
        BlockRewardDistribution { validators, delegators, edge_nodes, community_pool, treasury }
    }

    /// Apply the fee-burn rule to a paid fee: the configured share (of the
    /// failed-transaction rate for failed transactions) is burned, rounded
    /// to the nearest unit, and the rest is retained.
    pub fn apply_fee_burn(&self, fee_paid: u128, is_failed_tx: bool) -> (r: (u128, u128))
        requires
            self.spec_configuration_valid(),
            fee_paid <= u128::MAX / 200,
        ensures
            ({
                let pct = if is_failed_tx {
                    self.failed_tx_burn_pct
                } else {
                    self.tx_fee_burn_pct
                };
                &&& r.0 == spec_pct_share(fee_paid as int, pct as int)
                &&& r.1 == fee_paid - r.0
                &&& r.0 + r.1 == fee_paid
            }),
    {
        let burn_pct = if is_failed_tx {
            self.failed_tx_burn_pct
        } else {
            self.tx_fee_burn_pct
        };
        proof {
            lemma_pct_share_bounds(fee_paid as int, burn_pct as int);
            lemma_pct_share_at_most_total(fee_paid as int, burn_pct as int);
        }
        let burned = (fee_paid * (burn_pct as u128) + 50) / 100;
        let retained = fee_paid - burned;
        (burned, retained)
    }

    /// Whether a validator stake and a delegator stake both meet their
    /// configured minimums.
    pub fn validate_stake_thresholds(&self, validator_stake: u128, delegator_stake: u128) -> (r:
        bool)
        ensures
            r == (validator_stake >= self.min_validator_stake && delegator_stake
                >= self.min_delegator_stake),
    {
        validator_stake >= self.min_validator_stake && delegator_stake
            >= self.min_delegator_stake
    }
}

impl Default for UnifiedTokenomics {
    /// The default network policy.
    fn default() -> (r: Self)
        ensures
            r.max_supply == 21_000_000,
            r.initial_supply == 10_500_000,
            r.annual_inflation == 5,
            r.validator_reward_pct == 45,
            r.delegator_reward_pct == 30,
            r.edge_node_reward_pct == 10,
            r.community_pool_pct == 10,
            r.treasury_pct == 5,
            r.tx_fee_burn_pct == 50,
            r.failed_tx_burn_pct == 100,
            r.min_validator_stake == 100_000,
            r.min_delegator_stake == 1_000,
            r.unbonding_period_days == 21,
            r.spec_configuration_valid(),
    {
        UnifiedTokenomics {
            max_supply: 21_000_000,
            initial_supply: 10_500_000,
            annual_inflation: 5,
            validator_reward_pct: 45,
            delegator_reward_pct: 30,
            edge_node_reward_pct: 10,
            community_pool_pct: 10,
            treasury_pct: 5,
            tx_fee_burn_pct: 50,
            failed_tx_burn_pct: 100,
            min_validator_stake: 100_000,
            min_delegator_stake: 1_000,
            unbonding_period_days: 21,
        }
    }
}

/// A rounded percentage share of a bounded total stays within a machine
/// word.
proof fn lemma_pct_share_bounds(total: int, pct: int)
    requires
        0 <= total <= u128::MAX as int / 200,
        0 <= pct <= 100,
    ensures
        0 <= total * pct <= u128::MAX as int - 50,
        0 <= spec_pct_share(total, pct) <= u128::MAX as int,
{
    assert(total * pct <= total * 100) by (nonlinear_arith)
        requires
            total >= 0,
            0 <= pct <= 100,
    ;
    assert(total * 100 <= (u128::MAX as int / 200) * 100) by (nonlinear_arith)
        requires
            total <= u128::MAX as int / 200,
    ;
    assert((u128::MAX as int / 200) * 100 <= u128::MAX as int - 50) by (nonlinear_arith);
    assert(total * pct >= 0) by (nonlinear_arith)
        requires
            total >= 0,
            pct >= 0,
    ;
}

/// A rounded percentage share never exceeds the total it is taken from.
proof fn lemma_pct_share_at_most_total(total: int, pct: int)
    requires
        0 <= total,
        0 <= pct <= 100,
    ensures
        spec_pct_share(total, pct) <= total,
{
    assert(total * pct + 50 <= total * 100 + 50) by (nonlinear_arith)
        requires
            total >= 0,
            pct <= 100,
    ;
    assert((total * 100 + 50) / 100 == total) by (nonlinear_arith)
        requires
            total >= 0,
    ;
    assert((total * pct + 50) / 100 <= (total * 100 + 50) / 100) by (nonlinear_arith)
        requires
            total * pct + 50 <= total * 100 + 50,
    ;
}

} // verus!
