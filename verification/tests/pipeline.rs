//! End-to-end tests for the consensus pipeline and the compliance
//! framework.

use blockchain_core::block::{
    Block, BlockHeader, EnvironmentalData, Transaction, TransactionSignature, ValidatorSignature,
};
use blockchain_core::compliance::{
    ComplianceError, ComplianceManager, LayerType, Operation, OperationType, PrivacyLevel,
};
use blockchain_core::compliance::ComplianceLevel as FrameworkComplianceLevel;
use blockchain_core::compliance::{
    ComplianceRequirement, DataField, DataType, EnforcementLevel, RegulatoryRule, RuleType,
};
use blockchain_core::consensus::{PureDPoSConsensus, HIGH_VALUE_THRESHOLD};
use blockchain_core::delegation::{ComplianceLevel, Delegation, DelegationLevel, DelegationType};
use blockchain_core::errors::ConsensusError;
use blockchain_core::validator::Validator;

const NOW: u64 = 1_700_000_000;

fn validator(address: &str, stake: u128, country: Option<&str>) -> Validator {
    Validator {
        address: address.to_owned(),
        stake,
        trust_score: 800_000,
        uptime: 990_000,
        commission_rate: 50_000,
        is_active: true,
        last_activity: NOW,
        origin_wallet_country: country.map(|c| c.to_owned()),
        kyc_verified: true,
    }
}

fn signed_block(proposer: &str, transactions: Vec<Transaction>) -> Block {
    Block {
        header: BlockHeader {
            height: 1,
            timestamp: NOW,
            previous_hash: [0u8; 32],
            merkle_root: [0u8; 32],
            proposer: Some(proposer.to_owned()),
            validator_signatures: vec![ValidatorSignature {
                validator_id: proposer.to_owned(),
                signature: vec![1, 2, 3],
                timestamp: NOW,
            }],
            dilithium_signature: vec![9, 9],
        },
        transactions,
        environmental_data: Some(EnvironmentalData {
            carbon_footprint: 500_000,
            renewable_energy_usage: 400_000,
            environmental_score: 450_000,
            last_updated: NOW,
        }),
    }
}

fn transaction(from: &str, to: &str, amount: u128) -> Transaction {
    Transaction {
        from: from.to_owned(),
        to: to.to_owned(),
        amount,
        fee: 1,
        nonce: 0,
        signature: TransactionSignature { dilithium_signature: vec![4, 5], public_key: vec![6] },
    }
}

/// An engine whose single validator is eligible and fully trusted through a
/// Foundation delegation, with an origin wallet at the given compliance
/// level.
fn engine_with_proposer(stake: u128, level: ComplianceLevel) -> PureDPoSConsensus {
    let mut c = PureDPoSConsensus::new(NOW);
    c.validators.register(validator("val1", stake, Some("US"))).unwrap();
    let mut wallet = blockchain_core::delegation::OriginWallet {
        country_code: "US".to_owned(),
        wallet_address: "wallet_us".to_owned(),
        multisig_address: "multisig_us".to_owned(),
        required_signatures: 2,
        total_signers: 3,
        signers: vec![],
        stake_amount: 1_000_000,
        compliance_level: level,
        veto_power: false,
        delegation_capacity: 1_000_000,
        active_delegations: vec![],
        trust_score: 900_000,
        is_active: true,
        created_at: NOW,
        last_activity: NOW,
    };
    wallet.active_delegations.push(Delegation {
        delegation_id: "genesis_delegation".to_owned(),
        delegator: "zpc1foundation".to_owned(),
        delegate: "val1".to_owned(),
        delegation_type: DelegationType::Trust,
        trust_amount: 1000,
        delegation_level: DelegationLevel::Level1,
        is_active: true,
        created_at: NOW,
        expires_at: None,
        last_used: 0,
    });
    c.trust_engine.origin_wallets.push(wallet);
    c
}

#[test]
fn low_stake_proposer_is_rejected_at_the_quorum_gate() {
    // stake below the 100K threshold: rejected regardless of valid
    // signatures and environmental data
    let c = engine_with_proposer(1, ComplianceLevel::Government);
    let block = signed_block("val1", vec![]);
    assert_eq!(c.validate_block(&block, NOW), Ok(false));
    assert_eq!(c.validate_validator_signatures(&block), Ok(false));
}

#[test]
fn eligible_proposer_block_is_accepted() {
    let c = engine_with_proposer(100_000_000_000_000_000_000_000, ComplianceLevel::Government);
    let block = signed_block("val1", vec![]);
    // the Foundation delegation gives the proposer a full trust score
    assert_eq!(c.calculate_trust_score(&"val1".to_owned()), Ok(1_000_000));
    assert_eq!(c.validate_validator_signatures(&block), Ok(true));
    assert_eq!(c.validate_trust_requirements(&block), Ok(true));
    assert_eq!(c.validate_environmental_data(&block, NOW), Ok(true));
    assert_eq!(c.validate_quantum_signatures(&block), Ok(true));
    assert_eq!(c.validate_origin_wallet_compliance(&block), Ok(true));
    assert_eq!(c.validate_block(&block, NOW), Ok(true));
}

#[test]
fn environmental_arithmetic_gate_scenario() {
    // {carbon 500, renewable 0.4, score 0.45}: carbon score 0.5,
    // mean 0.45: the declared score passes exactly
    let c = engine_with_proposer(100_000_000_000_000_000_000_000, ComplianceLevel::Government);
    let block = signed_block("val1", vec![]);
    let env = block.environmental_data.as_ref().unwrap();
    assert_eq!(c.calculate_environmental_score(env), Ok(450_000));
    assert_eq!(c.validate_block(&block, NOW), Ok(true));
    // a declared score off by more than 0.01 fails gate three
    let mut bad = signed_block("val1", vec![]);
    bad.environmental_data.as_mut().unwrap().environmental_score = 461_000;
    assert_eq!(c.validate_environmental_data(&bad, NOW), Ok(false));
    assert_eq!(c.validate_block(&bad, NOW), Ok(false));
    // stale environmental data fails as well
    let stale = signed_block("val1", vec![]);
    assert_eq!(c.validate_block(&stale, NOW + 3601), Ok(false));
}

#[test]
fn basic_wallet_high_value_is_rejected_at_the_compliance_gate() {
    let stake = 100_000_000_000_000_000_000_000;
    let high_value = transaction("a", "b", HIGH_VALUE_THRESHOLD);
    // under a Basic origin wallet the block fails the compliance gate
    let c = engine_with_proposer(stake, ComplianceLevel::Basic);
    let block = signed_block("val1", vec![high_value.clone()]);
    assert!(c.has_high_value_transactions(&block));
    assert_eq!(c.validate_validator_signatures(&block), Ok(true));
    assert_eq!(c.validate_trust_requirements(&block), Ok(true));
    assert_eq!(c.validate_environmental_data(&block, NOW), Ok(true));
    assert_eq!(c.validate_quantum_signatures(&block), Ok(true));
    assert_eq!(c.validate_origin_wallet_compliance(&block), Ok(false));
    assert_eq!(c.validate_block(&block, NOW), Ok(false));
    // the same block passes under a Government wallet
    let c = engine_with_proposer(stake, ComplianceLevel::Government);
    let block = signed_block("val1", vec![high_value]);
    assert_eq!(c.validate_block(&block, NOW), Ok(true));
    // a small transfer passes even under a Basic wallet
    let c = engine_with_proposer(stake, ComplianceLevel::Basic);
    let block = signed_block("val1", vec![transaction("a", "b", 5)]);
    assert_eq!(c.validate_block(&block, NOW), Ok(true));
}

#[test]
fn enhanced_wallet_rejects_cross_border() {
    let stake = 100_000_000_000_000_000_000_000;
    let mut c = engine_with_proposer(stake, ComplianceLevel::Enhanced);
    // a second validator from another country makes a transfer between the
    // two validator addresses cross-border
    c.validators.register(validator("val2", stake, Some("DE"))).unwrap();
    let block = signed_block("val1", vec![transaction("val1", "val2", 5)]);
    assert!(c.has_cross_border_transactions(&block));
    assert_eq!(c.validate_origin_wallet_compliance(&block), Ok(false));
    assert_eq!(c.validate_block(&block, NOW), Ok(false));
}

#[test]
fn basic_wallet_rejects_governance() {
    let stake = 100_000_000_000_000_000_000_000;
    let c = engine_with_proposer(stake, ComplianceLevel::Basic);
    // a transfer to the Foundation is a governance operation
    let block = signed_block("val1", vec![transaction("val1", "zpc1foundation", 5)]);
    assert!(c.has_governance_transactions(&block));
    assert_eq!(c.validate_block(&block, NOW), Ok(false));
}

#[test]
fn block_without_proposer_is_an_internal_error() {
    let c = engine_with_proposer(100_000_000_000_000_000_000_000, ComplianceLevel::Government);
    let mut block = signed_block("val1", vec![]);
    block.header.proposer = None;
    assert_eq!(c.validate_block(&block, NOW), Err(ConsensusError::InternalError));
}

#[test]
fn missing_quantum_signature_fails_gate_four() {
    let c = engine_with_proposer(100_000_000_000_000_000_000_000, ComplianceLevel::Government);
    let mut block = signed_block("val1", vec![]);
    block.header.dilithium_signature = vec![];
    // the quorum gate already rejects the empty header signature list?
    // no: the validator signatures are intact, only the quantum header
    // signature is missing, so gate four rejects
    assert_eq!(c.validate_quantum_signatures(&block), Ok(false));
    assert_eq!(c.validate_block(&block, NOW), Ok(false));
    // a transaction without its quantum signature also fails
    let mut tx = transaction("a", "b", 5);
    tx.signature.dilithium_signature = vec![];
    let block = signed_block("val1", vec![tx]);
    assert_eq!(c.validate_quantum_signatures(&block), Ok(false));
}

#[test]
fn block_rewards_split_the_scaled_total() {
    let c = engine_with_proposer(100_000_000_000_000_000_000_000, ComplianceLevel::Government);
    let block = signed_block("val1", vec![]);
    // base 50e18, trust score 1.0 falls outside the last bucket: base
    // multiplier 1.0; environmental bonus caps at 0.25
    let r = c.calculate_block_rewards(&block).unwrap();
    let total: u128 = 62_500_000_000_000_000_000;
    assert_eq!(
        r.validators + r.edge_nodes + r.stakers + r.dev_fund + r.environmental_fund,
        total
    );
    assert_eq!(r.validators, total / 2);
    assert_eq!(r.edge_nodes, total / 5);
    assert_eq!(r.stakers, total * 15 / 100);
    assert_eq!(r.dev_fund, total / 10);
    assert_eq!(r.environmental_fund, total / 20);
    // without environmental data there is no bonus
    let mut plain = signed_block("val1", vec![]);
    plain.environmental_data = None;
    let r = c.calculate_block_rewards(&plain).unwrap();
    assert_eq!(
        r.validators + r.edge_nodes + r.stakers + r.dev_fund + r.environmental_fund,
        50_000_000_000_000_000_000
    );
}

#[test]
fn signature_verifier_rejects_empty_signatures() {
    let c = PureDPoSConsensus::new(NOW);
    let v = &c.signature_validator;
    assert!(v.verify(&vec![1], &vec![], &vec![]));
    assert!(!v.verify(&vec![], &vec![1], &vec![1]));
    let off = blockchain_core::consensus::SignatureValidator {
        quantum_signatures: false,
        fallback_signatures: false,
    };
    assert!(!off.verify(&vec![1], &vec![], &vec![]));
}

fn operation(
    id: &str,
    op_type: OperationType,
    country: &str,
    has_kyc: bool,
    has_origin_wallet: bool,
    privacy: PrivacyLevel,
) -> Operation {
    Operation {
        id: id.to_owned(),
        operation_type: op_type,
        country_code: country.to_owned(),
        has_kyc,
        has_origin_wallet,
        privacy_level: privacy,
        data_fields: vec![],
    }
}

#[test]
fn edge_layer_is_permissive() {
    let mut m = ComplianceManager::new();
    let op = operation("op1", OperationType::Transaction, "US", false, false, PrivacyLevel::Anonymous);
    let st = m.check_compliance(&op, &LayerType::EdgeLayer, NOW).unwrap();
    assert!(st.is_compliant);
    assert_eq!(st.compliance_score, 100);
    // the verdict is cached and returned unchanged
    let again = m.check_compliance(&op, &LayerType::EdgeLayer, NOW).unwrap();
    assert_eq!(again.is_compliant, st.is_compliant);
    assert_eq!(again.compliance_score, st.compliance_score);
}

#[test]
fn mainnet_layer_demands_vetting() {
    let mut m = ComplianceManager::new();
    // no KYC (-30), no origin-wallet vetting (-20), privacy below the
    // required level (-10), no wallet for the country (-40): score zero
    let op = operation("op2", OperationType::Transaction, "US", false, false, PrivacyLevel::Anonymous);
    let st = m.check_compliance(&op, &LayerType::Mainnet, NOW).unwrap();
    assert!(!st.is_compliant);
    assert_eq!(st.compliance_score, 0);
    assert_eq!(st.missing_requirements.len(), 2);
}

#[test]
fn basic_wallet_operation_gating() {
    let mut m = ComplianceManager::new();
    m.register_origin_wallet(
        "US".to_owned(),
        "wallet_us".to_owned(),
        FrameworkComplianceLevel::Basic,
        NOW,
    )
    .unwrap();
    // a vetted high-value operation under a Basic wallet fails with -30
    let op = operation("op3", OperationType::HighValue, "US", true, true, PrivacyLevel::SemiPrivate);
    let st = m.check_compliance(&op, &LayerType::Mainnet, NOW).unwrap();
    assert!(!st.is_compliant);
    assert_eq!(st.compliance_score, 70);
    assert_eq!(st.errors.len(), 1);
    // the same operation under a Government wallet passes
    m.register_origin_wallet(
        "DE".to_owned(),
        "wallet_de".to_owned(),
        FrameworkComplianceLevel::Government,
        NOW,
    )
    .unwrap();
    let op = operation("op4", OperationType::HighValue, "DE", true, true, PrivacyLevel::SemiPrivate);
    let st = m.check_compliance(&op, &LayerType::Mainnet, NOW).unwrap();
    assert!(st.is_compliant);
    assert_eq!(st.compliance_score, 100);
}

#[test]
fn regulatory_rules_check_data_presence() {
    let mut m = ComplianceManager::new();
    let rule = RegulatoryRule {
        jurisdiction: "Global".to_owned(),
        rule_type: RuleType::AML,
        requirements: vec![ComplianceRequirement {
            requirement_id: "aml_x".to_owned(),
            description: "transaction amount must be declared".to_owned(),
            data_required: vec![DataField {
                field_name: "transaction_amount".to_owned(),
                field_type: DataType::Number,
                is_required: true,
                is_sensitive: false,
                encryption_required: false,
            }],
            validation_rules: vec![],
            retention_period: 30,
        }],
        enforcement_level: EnforcementLevel::Mandatory,
    };
    m.update_compliance_rules(vec![rule]).unwrap();
    // the field is missing: a mandatory violation (-30)
    let op = operation("op5", OperationType::Transaction, "US", false, false, PrivacyLevel::Anonymous);
    let st = m.check_compliance(&op, &LayerType::EdgeLayer, NOW).unwrap();
    assert!(!st.is_compliant);
    assert_eq!(st.compliance_score, 70);
    // with the field present the operation is compliant again
    let mut op = operation("op6", OperationType::Transaction, "US", false, false, PrivacyLevel::Anonymous);
    op.data_fields.push(("transaction_amount".to_owned(), "5".to_owned()));
    assert!(op.has_data_field(&"transaction_amount".to_owned()));
    assert!(!op.has_data_field(&"source_address".to_owned()));
    let st = m.check_compliance(&op, &LayerType::EdgeLayer, NOW).unwrap();
    assert!(st.is_compliant);
    assert_eq!(st.compliance_score, 100);
}

#[test]
fn rule_updates_invalidate_the_cache() {
    let mut m = ComplianceManager::new();
    let op = operation("op7", OperationType::Transaction, "US", false, false, PrivacyLevel::Anonymous);
    let st = m.check_compliance(&op, &LayerType::EdgeLayer, NOW).unwrap();
    assert!(st.is_compliant);
    // a new mandatory rule flips the verdict; the old verdict must not be
    // served from the cache
    m.update_compliance_rules(vec![RegulatoryRule {
        jurisdiction: "Global".to_owned(),
        rule_type: RuleType::KYC,
        requirements: vec![ComplianceRequirement {
            requirement_id: "kyc_x".to_owned(),
            description: "identity document required".to_owned(),
            data_required: vec![DataField {
                field_name: "identity_document".to_owned(),
                field_type: DataType::Document,
                is_required: true,
                is_sensitive: true,
                encryption_required: true,
            }],
            validation_rules: vec![],
            retention_period: 365,
        }],
        enforcement_level: EnforcementLevel::Critical,
    }])
    .unwrap();
    let st = m.check_compliance(&op, &LayerType::EdgeLayer, NOW).unwrap();
    assert!(!st.is_compliant);
    assert_eq!(st.compliance_score, 50);
}

#[test]
fn unknown_layer_cannot_be_checked() {
    let mut m = ComplianceManager::new();
    m.layers.clear();
    let op = operation("op8", OperationType::Transaction, "US", true, true, PrivacyLevel::Public);
    assert!(matches!(
        m.check_compliance(&op, &LayerType::Mainnet, NOW),
        Err(ComplianceError::LayerNotFound)
    ));
}
