//! Tests for quorum arithmetic, environmental scoring, reward computation,
//! the bridge oracle, tokenomics and settlement.

use blockchain_core::block::EnvironmentalData;
use blockchain_core::bridge::{BridgeError, BridgeOracle, BridgeParams, PegStatus};
use blockchain_core::environment::{calculate_environmental_score, validate_environmental_data_at};
use blockchain_core::rewards::{
    EnvironmentalBonuses, HalvingEvent, RewardDistributionEngine, RewardDistributionRules,
    TrustMultipliers, TrustThreshold,
};
use blockchain_core::settlement::{
    AdaptiveBatchConfig, DualChainEdgeSettlement, SettlementBatch, SettlementTarget,
};
use blockchain_core::tokenomics::UnifiedTokenomics;
use blockchain_core::validator::{required_signatures, Validator, ValidatorSet};

fn env_data(carbon: u64, renewable: u64, score: u64, last_updated: u64) -> EnvironmentalData {
    EnvironmentalData {
        carbon_footprint: carbon,
        renewable_energy_usage: renewable,
        environmental_score: score,
        last_updated,
    }
}

fn default_engine() -> RewardDistributionEngine {
    RewardDistributionEngine {
        block_reward: 50_000_000_000_000_000_000,
        halving_schedule: vec![
            HalvingEvent {
                block_height: 210_000,
                reward_multiplier: 500_000,
                description: "First halving".to_owned(),
            },
            HalvingEvent {
                block_height: 420_000,
                reward_multiplier: 250_000,
                description: "Second halving".to_owned(),
            },
        ],
        distribution_rules: RewardDistributionRules {
            validators: 50,
            edge_nodes: 20,
            stakers: 15,
            dev_fund: 10,
            environmental_fund: 5,
        },
        trust_multipliers: TrustMultipliers {
            base_multiplier: 1_000_000,
            max_multiplier: 2_000_000,
            trust_thresholds: vec![
                TrustThreshold { min_trust: 0, max_trust: 300_000, multiplier: 1_000_000 },
                TrustThreshold { min_trust: 300_000, max_trust: 600_000, multiplier: 1_200_000 },
                TrustThreshold { min_trust: 600_000, max_trust: 800_000, multiplier: 1_500_000 },
                TrustThreshold { min_trust: 800_000, max_trust: 1_000_000, multiplier: 2_000_000 },
            ],
        },
        environmental_bonuses: EnvironmentalBonuses {
            carbon_offset_bonus: 100_000,
            renewable_energy_bonus: 100_000,
            environmental_verification_bonus: 50_000,
            max_environmental_bonus: 250_000,
        },
    }
}

#[test]
fn required_signatures_exact_values() {
    // threshold 2/3 + 0.01, in parts per million
    let t = 676_667;
    assert_eq!(required_signatures(1, t), 1);
    assert_eq!(required_signatures(2, t), 2);
    assert_eq!(required_signatures(3, t), 3);
    assert_eq!(required_signatures(4, t), 3);
    assert_eq!(required_signatures(10, t), 7);
    assert_eq!(required_signatures(100, t), 68);
    assert_eq!(required_signatures(0, t), 0);
}

#[test]
fn required_signatures_supermajority() {
    let t = 676_667;
    for n in 1..200usize {
        let r = required_signatures(n, t);
        assert!(3 * r > 2 * n, "no supermajority at {}", n);
    }
}

#[test]
fn environmental_score_arithmetic() {
    // carbon 500.0, renewable 0.4: carbon score 0.5, mean 0.45
    let env = env_data(500_000, 400_000, 450_000, 0);
    assert_eq!(calculate_environmental_score(&env), 450_000);
    // carbon above the 1000.0 cap scores zero
    let env = env_data(1_000_000, 200_000, 100_000, 0);
    assert_eq!(calculate_environmental_score(&env), 100_000);
}

#[test]
fn environmental_gate_tolerance_and_freshness() {
    // declared within 0.01 of the recomputed 0.45 passes
    assert!(validate_environmental_data_at(&env_data(500_000, 400_000, 450_000, 1000), 1000));
    assert!(validate_environmental_data_at(&env_data(500_000, 400_000, 459_000, 1000), 1000));
    // declared outside the tolerance fails
    assert!(!validate_environmental_data_at(&env_data(500_000, 400_000, 461_000, 1000), 1000));
    // stale data fails; data exactly at the window edge passes
    assert!(validate_environmental_data_at(&env_data(500_000, 400_000, 450_000, 1000), 4600));
    assert!(!validate_environmental_data_at(&env_data(500_000, 400_000, 450_000, 1000), 4601));
    // out-of-range carbon or renewable share fails
    assert!(!validate_environmental_data_at(&env_data(1_000_001, 400_000, 0, 1000), 1000));
    assert!(!validate_environmental_data_at(&env_data(0, 1_000_001, 0, 1000), 1000));
}

#[test]
fn reward_split_sums_exactly() {
    let engine = default_engine();
    // 1003 leaves remainders 50, 60, 45, 30, 15: the edge-node pool takes
    // the two units of dust
    let r = engine.distribute(1003);
    assert_eq!(r.validators, 501);
    assert_eq!(r.edge_nodes, 202);
    assert_eq!(r.stakers, 150);
    assert_eq!(r.dev_fund, 100);
    assert_eq!(r.environmental_fund, 50);
    assert_eq!(
        r.validators + r.edge_nodes + r.stakers + r.dev_fund + r.environmental_fund,
        1003
    );
    // a round total splits without dust
    let r = engine.distribute(1000);
    assert_eq!(r.validators, 500);
    assert_eq!(r.edge_nodes, 200);
    assert_eq!(r.stakers, 150);
    assert_eq!(r.dev_fund, 100);
    assert_eq!(r.environmental_fund, 50);
    for total in [0u128, 1, 7, 99, 100, 101, 12_345, 999_999_937] {
        let r = engine.distribute(total);
        assert_eq!(
            r.validators + r.edge_nodes + r.stakers + r.dev_fund + r.environmental_fund,
            total
        );
    }
}

#[test]
fn trust_multiplier_buckets() {
    let engine = default_engine();
    assert_eq!(engine.trust_multiplier(Some(0)), 1_000_000);
    assert_eq!(engine.trust_multiplier(Some(299_999)), 1_000_000);
    assert_eq!(engine.trust_multiplier(Some(300_000)), 1_200_000);
    assert_eq!(engine.trust_multiplier(Some(700_000)), 1_500_000);
    assert_eq!(engine.trust_multiplier(Some(999_999)), 2_000_000);
    // exactly 1.0 falls outside the last half-open bucket: base applies
    assert_eq!(engine.trust_multiplier(Some(1_000_000)), 1_000_000);
    assert_eq!(engine.trust_multiplier(None), 1_000_000);
}

#[test]
fn halving_schedule_applies() {
    let engine = default_engine();
    assert_eq!(engine.halving_multiplier(0), 1_000_000);
    assert_eq!(engine.halving_multiplier(209_999), 1_000_000);
    assert_eq!(engine.halving_multiplier(210_000), 500_000);
    assert_eq!(engine.halving_multiplier(419_999), 500_000);
    assert_eq!(engine.halving_multiplier(420_000), 250_000);
    assert_eq!(engine.effective_base_reward(0), 50_000_000_000_000_000_000);
    assert_eq!(engine.effective_base_reward(210_000), 25_000_000_000_000_000_000);
}

#[test]
fn environmental_bonus_caps() {
    let engine = default_engine();
    assert_eq!(engine.environmental_bonus(&None), 0);
    // carbon 500.0 * 0.1 alone exceeds the 0.25 cap
    let env = env_data(500_000, 400_000, 450_000, 0);
    assert_eq!(engine.environmental_bonus(&Some(env)), 250_000);
    // carbon 1.0 * 0.1 + renewable 0.4 * 0.1 + 0.05 = 0.19, under the cap
    let env = env_data(1_000, 400_000, 0, 0);
    assert_eq!(engine.environmental_bonus(&Some(env)), 190_000);
}

fn oracle(threshold: usize, confirmations: u32) -> BridgeOracle {
    BridgeOracle {
        validators: vec!["v1".to_owned(), "v2".to_owned()],
        mainnet_vault: "vault".to_owned(),
        privacy_mint: "mint".to_owned(),
        params: BridgeParams {
            multisig_threshold: threshold,
            required_confirmations: confirmations,
        },
    }
}

#[test]
fn verify_peg_healthy_and_violation() {
    let o = oracle(1, 1);
    assert_eq!(
        o.verify_peg(100, 100),
        PegStatus::Healthy { locked_mainnet: 100, circulating_privacy: 100 }
    );
    assert_eq!(
        o.verify_peg(100, 99),
        PegStatus::Violation { locked_mainnet: 100, circulating_privacy: 99 }
    );
}

#[test]
fn verify_multisig_counts_distinct_approvals() {
    let o = oracle(2, 1);
    let approvals = vec!["a".to_owned(), "a".to_owned(), "b".to_owned()];
    assert!(o.verify_multisig(&approvals).is_ok());
    let o3 = oracle(3, 1);
    assert_eq!(
        o3.verify_multisig(&approvals),
        Err(BridgeError::MultisigThresholdNotMet)
    );
}

#[test]
fn bridge_transfer_checks() {
    let o = oracle(2, 6);
    let approvals = vec!["a".to_owned(), "b".to_owned()];
    assert_eq!(
        o.bridge_to_privacy(0, 10, 10, &approvals, 6),
        Err(BridgeError::InvalidAmount)
    );
    assert_eq!(
        o.bridge_to_privacy(5, 10, 10, &approvals, 5),
        Err(BridgeError::InsufficientConfirmations)
    );
    assert_eq!(
        o.bridge_to_privacy(5, 10, 10, &vec!["a".to_owned()], 6),
        Err(BridgeError::MultisigThresholdNotMet)
    );
    assert_eq!(
        o.bridge_to_privacy(5, 10, 10, &approvals, 6),
        Ok(PegStatus::Healthy { locked_mainnet: 10, circulating_privacy: 10 })
    );
    assert_eq!(
        o.bridge_to_mainnet(5, 11, 10, &approvals, 6),
        Ok(PegStatus::Violation { locked_mainnet: 11, circulating_privacy: 10 })
    );
}

#[test]
fn tokenomics_distribution_and_fee_burn() {
    let t = UnifiedTokenomics::default();
    assert!(t.validate_configuration());
    let r = t.distribute_block_reward(1000);
    assert_eq!(r.validators, 450);
    assert_eq!(r.delegators, 300);
    assert_eq!(r.edge_nodes, 100);
    assert_eq!(r.community_pool, 100);
    assert_eq!(r.treasury, 50);
    // fee burning rounds to the nearest unit
    assert_eq!(t.apply_fee_burn(100, false), (50, 50));
    assert_eq!(t.apply_fee_burn(101, false), (51, 50));
    assert_eq!(t.apply_fee_burn(101, true), (101, 0));
    assert!(t.validate_stake_thresholds(100_000, 1_000));
    assert!(!t.validate_stake_thresholds(99_999, 1_000));
    assert!(!t.validate_stake_thresholds(100_000, 999));
}

#[test]
fn invalid_tokenomics_configuration_is_rejected() {
    let mut t = UnifiedTokenomics::default();
    t.treasury_pct = 6;
    assert!(!t.validate_configuration());
}

#[test]
fn settlement_batching_policy() {
    let engine = DualChainEdgeSettlement::new(None);
    let quiet = SettlementBatch {
        channel_ids: vec!["c1".to_owned()],
        total_value: 10,
        urgent: false,
    };
    assert!(!engine.should_settle(&quiet, 0));
    let urgent = SettlementBatch { urgent: true, ..quiet.clone() };
    assert!(engine.should_settle(&urgent, 0));
    assert!(engine.should_settle(&quiet, 600));
    let heavy = SettlementBatch { total_value: 1_000_000, ..quiet.clone() };
    assert!(engine.should_settle(&heavy, 0));
    let big: Vec<String> = (0..100).map(|i| i.to_string()).collect();
    let full = SettlementBatch { channel_ids: big, total_value: 1, urgent: false };
    assert!(engine.should_settle(&full, 0));

    let custom = DualChainEdgeSettlement::new(Some(AdaptiveBatchConfig {
        min_batch_size: 1,
        max_wait_secs: 10,
        value_threshold: 5,
        capacity_threshold: 500_000,
    }));
    assert!(custom.should_settle(&quiet, 0));
}

#[test]
fn settlement_targets() {
    let engine = DualChainEdgeSettlement::new(None);
    let batch = SettlementBatch { channel_ids: vec![], total_value: 0, urgent: false };
    let r = engine.settle(&batch, SettlementTarget::Mainnet("a".to_owned()));
    assert!(r.mainnet_tx.is_some() && r.privacy_tx.is_none());
    let r = engine.settle(&batch, SettlementTarget::Privacy("b".to_owned()));
    assert!(r.mainnet_tx.is_none() && r.privacy_tx.is_some());
    let r = engine.settle(
        &batch,
        SettlementTarget::Both {
            mainnet: "a".to_owned(),
            privacy: "b".to_owned(),
            split_ratio: 500_000,
        },
    );
    assert!(r.mainnet_tx.is_some() && r.privacy_tx.is_some());
}

#[test]
fn validator_registry_operations() {
    let mut vs = ValidatorSet::new(100, 1000, 700_000, 676_667);
    let v = Validator {
        address: "val1".to_owned(),
        stake: 2000,
        trust_score: 800_000,
        uptime: 990_000,
        commission_rate: 50_000,
        is_active: true,
        last_activity: 0,
        origin_wallet_country: None,
        kyc_verified: true,
    };
    assert!(vs.register(v.clone()).is_ok());
    assert_eq!(vs.active_validator_count(), 1);
    assert!(vs.is_eligible(&"val1".to_owned()));
    // a duplicate registration is refused and changes nothing
    assert!(vs.register(v).is_err());
    assert_eq!(vs.active_validator_count(), 1);
    // dropping the stake below the threshold loses eligibility
    assert!(vs.update_stake(&"val1".to_owned(), 999));
    assert!(!vs.is_eligible(&"val1".to_owned()));
    assert!(vs.update_stake(&"val1".to_owned(), 5000));
    assert!(vs.is_eligible(&"val1".to_owned()));
    // deactivation removes the validator from the active list
    assert!(vs.deactivate(&"val1".to_owned()));
    assert_eq!(vs.active_validator_count(), 0);
    assert!(!vs.is_eligible(&"val1".to_owned()));
    // unknown addresses are no-ops
    assert!(!vs.deactivate(&"ghost".to_owned()));
    assert!(!vs.update_stake(&"ghost".to_owned(), 1));
}
