//! The pure delegated-proof-of-stake consensus engine: five ordered
//! validation gates over a proposed block, short-circuiting on the first
//! failure, and the reward computation for an accepted block.
//!
//! A block without a proposer is a validation infrastructure failure, not an
//! invalid block: it is reported as an internal error so that callers can
//! tell the two apart.

use vstd::prelude::*;

use crate::block::{Block, EnvironmentalData, ValidatorSignature};
use crate::chain::{
    credential_index, has_credential, spec_chain_valid, spec_circular_pattern,
    spec_concentration_pattern, spec_incoming, spec_sybil_pattern, spec_trust_num,
    spec_trust_score, spec_weight_den, TrustDelegationChain,
};
use crate::chain::{has_wallet, wallet_index};
use crate::delegation::{ComplianceLevel, KYCType, VerificationLevel};
use crate::environment::{
    spec_environmental_data_valid, validate_environmental_data_at, EnvironmentalDataValidator,
    VerificationMethod,
};
use crate::errors::ConsensusError;
use crate::numeric::PPM_SCALE;
use crate::rewards::{
    spec_bucket_multiplier, spec_environmental_bonus, spec_halving_multiplier, spec_reward_split,
    spec_total_reward, spec_total_reward_fits, EnvironmentalBonuses, HalvingEvent,
    RewardDistribution, RewardDistributionEngine, RewardDistributionRules, TrustMultipliers,
    TrustThreshold,
};
use crate::validator::{
    has_validator, required_signatures, spec_required_signatures, validator_index, Validator,
    ValidatorSet,
};

verus! {

/// A transaction moving at least this many base units counts as high-value
/// for compliance gating.
pub const HIGH_VALUE_THRESHOLD: u128 = 10_000_000_000_000_000_000_000;

/// Where a trust factor of the scoring engine comes from.
#[derive(Debug, Clone, Copy, PartialEq, Eq, Structural)]
pub enum TrustSource {
    TransactionHistory,
    ValidatorUptime,
    GovernanceParticipation,
    DeFiParticipation,
    EnvironmentalContribution,
    OriginWalletDelegation,
    NFTCredential,
    CommunityReputation,
    TechnicalCompetence,
    EconomicStake,
}

/// Which signature schemes the engine currently accepts: the
/// quantum-resistant primary scheme and the classical fallback.
#[derive(Debug, Clone)]
pub struct SignatureValidator {
    /// Whether the quantum-resistant primary scheme is enabled.
    pub quantum_signatures: bool,
    /// Whether the classical fallback scheme is enabled.
    pub fallback_signatures: bool,
}

/// Finality bookkeeping: which blocks are final and which signatures are
/// still pending.
#[derive(Debug, Clone)]
pub struct FinalityManager {
    pub finalized_blocks: Vec<u64>,
    /// Pending validator signatures per block height.
    pub pending_finality: Vec<(u64, Vec<String>)>,
    /// Fraction of validators needed for finality, in parts per million.
    pub finality_threshold: u64,
}

/// A know-your-customer requirement an origin wallet imposes.
#[derive(Debug, Clone)]
pub struct KYCRequirement {
    pub requirement_type: KYCType,
    pub is_required: bool,
    pub verification_level: VerificationLevel,
}

/// The origin-wallet compliance configuration of the engine.
#[derive(Debug, Clone)]
pub struct OriginWalletCompliance {
    pub country_code: String,
    pub compliance_level: ComplianceLevel,
    pub kyc_requirements: Vec<KYCRequirement>,
    pub veto_power: bool,
    pub stake_requirement: u128,
}

/// The consensus engine: the validator roster, the trust-delegation chain
/// backing the trust gate, the signature-scheme switches, the environmental
/// oracle, the compliance configuration and the reward engine.
pub struct PureDPoSConsensus {
    pub validators: ValidatorSet,
    pub trust_engine: TrustDelegationChain,
    pub finality_manager: FinalityManager,
    pub signature_validator: SignatureValidator,
    pub environmental_oracle: EnvironmentalDataValidator,
    pub origin_wallet_compliance: OriginWalletCompliance,
    pub reward_distribution: RewardDistributionEngine,
}

/// Whether a signature is accepted under the enabled schemes: signature
/// bytes are opaque to this core beyond scheme identification, so a
/// signature must be present and non-empty, and some scheme must be enabled;
/// an empty signature is always rejected.
pub open spec fn spec_signature_accepted(v: SignatureValidator, signature: Seq<u8>) -> bool {
    (v.quantum_signatures || v.fallback_signatures) && signature.len() > 0
}

impl SignatureValidator {
    /// Verify a single signature over a signer's public key and a message.
    /// The key and message are opaque to this core; an empty signature is
    /// always rejected, and so is every signature when no scheme is enabled.
    pub fn verify(&self, signature_bytes: &Vec<u8>, _public_key: &Vec<u8>, _message: &Vec<u8>) -> (r:
        bool)
        ensures
            r == spec_signature_accepted(*self, signature_bytes@),
    {
        (self.quantum_signatures || self.fallback_signatures) && signature_bytes.len() > 0
    }
}

/// The first gate: the proposer is an eligible validator, enough validator
/// signatures are attached for a supermajority, and every attached signature
/// verifies.
pub open spec fn spec_quorum_gate(c: PureDPoSConsensus, b: Block, p: Seq<char>) -> bool {
    &&& c.validators.spec_is_eligible(p)
    &&& b.header.validator_signatures@.len() >= spec_required_signatures(
        c.validators.active_validators@.len() as int,
        c.validators.signature_threshold as int,
    )
    &&& forall|i: int|
        0 <= i < b.header.validator_signatures@.len() ==> spec_signature_accepted(
            c.signature_validator,
            (#[trigger] b.header.validator_signatures@[i]).signature@,
        )
}

/// Whether the trust-score computation for the proposer stays within a
/// machine word; outside it the engine reports an internal error.
pub open spec fn spec_trust_score_fits(c: PureDPoSConsensus, p: Seq<char>) -> bool {
    p == c.trust_engine.foundation.address@ || {
        let ds = spec_incoming(c.trust_engine, p);
        spec_trust_num(c.trust_engine, ds) <= u128::MAX && spec_weight_den(ds) <= u128::MAX
    }
}

/// The second gate: the proposer's computed trust score meets the trust
/// threshold, the anti-gaming detector reports no pattern for the proposer,
/// and the proposer's credential chain (if the proposer holds a credential)
/// verifies.
pub open spec fn spec_trust_gate(c: PureDPoSConsensus, p: Seq<char>) -> bool {
    &&& spec_trust_score(c.trust_engine, p) >= c.validators.trust_threshold
    &&& !spec_sybil_pattern(c.trust_engine, p)
    &&& !spec_circular_pattern(c.trust_engine, p)
    &&& !spec_concentration_pattern(c.trust_engine, p)
    &&& (has_credential(c.trust_engine.individuals@, p) ==> spec_chain_valid(
        c.trust_engine,
        c.trust_engine.individuals@[credential_index(c.trust_engine.individuals@, p)],
    ))
}

/// The third gate: environmental data, when present, passes range, score and
/// freshness checks at validation time `now`.
pub open spec fn spec_environmental_gate(b: Block, now: u64) -> bool {
    match b.environmental_data {
        Option::None => true,
        Option::Some(e) => spec_environmental_data_valid(e, now),
    }
}

/// The transaction half of the quantum gate: with the quantum scheme
/// enabled, every transaction carries a non-empty quantum-resistant
/// signature.
pub open spec fn spec_quantum_tx_signatures(c: PureDPoSConsensus, b: Block) -> bool {
    c.signature_validator.quantum_signatures ==> forall|i: int|
        0 <= i < b.transactions@.len() ==> (#[trigger] b.transactions@[i])
            .signature.dilithium_signature@.len() > 0
}

/// The fourth gate: with the quantum scheme enabled, the header and every
/// transaction must carry a non-empty quantum-resistant signature,
/// regardless of which scheme satisfied the quorum gate.
pub open spec fn spec_quantum_gate(c: PureDPoSConsensus, b: Block) -> bool {
    &&& (c.signature_validator.quantum_signatures ==> b.header.dilithium_signature@.len() > 0)
    &&& spec_quantum_tx_signatures(c, b)
}

/// The origin-wallet country a validator address resolves to, if any.
pub open spec fn spec_country_of(vs: Seq<Validator>, addr: Seq<char>) -> Option<Seq<char>> {
    if has_validator(vs, addr) {
        match vs[validator_index(vs, addr)].origin_wallet_country {
            Option::Some(c) => Some(c@),
            Option::None => None,
        }
    } else {
        None
    }
}

/// The compliance level of the proposer's origin wallet: resolved through
/// the validator's registered country and the chain's wallet registry, and
/// the most restrictive level when either is missing.
pub open spec fn spec_owc_level(c: PureDPoSConsensus, p: Seq<char>) -> ComplianceLevel {
    match spec_country_of(c.validators.validators@, p) {
        Option::Some(country) => if has_wallet(c.trust_engine.origin_wallets@, country) {
            c.trust_engine.origin_wallets@[wallet_index(
                c.trust_engine.origin_wallets@,
                country,
            )].compliance_level
        } else {
            ComplianceLevel::Basic
        },
        Option::None => ComplianceLevel::Basic,
    }
}

/// Whether the block contains a transaction at or above the high-value
/// threshold.
pub open spec fn spec_has_high_value(b: Block) -> bool {
    exists|i: int|
        0 <= i < b.transactions@.len() && (#[trigger] b.transactions@[i]).amount
            >= HIGH_VALUE_THRESHOLD
}

/// Whether the block contains a cross-border transaction: both parties
/// resolve to known origin-wallet countries and the countries differ.
pub open spec fn spec_has_cross_border(c: PureDPoSConsensus, b: Block) -> bool {
    exists|i: int|
        0 <= i < b.transactions@.len() && {
            let t = #[trigger] b.transactions@[i];
            match (
                spec_country_of(c.validators.validators@, t.from@),
                spec_country_of(c.validators.validators@, t.to@),
            ) {
                (Option::Some(a), Option::Some(bb)) => a != bb,
                _ => false,
            }
        }
}

/// Whether the block contains a governance transaction: one addressed to
/// the Foundation.
pub open spec fn spec_has_governance(c: PureDPoSConsensus, b: Block) -> bool {
    exists|i: int|
        0 <= i < b.transactions@.len() && (#[trigger] b.transactions@[i]).to@
            == c.trust_engine.foundation.address@
}

/// The military-specific attestation: the proposer is a registered validator
/// with verified know-your-customer status.
pub open spec fn spec_military_compliance(c: PureDPoSConsensus, p: Seq<char>) -> bool {
    has_validator(c.validators.validators@, p) && c.validators.validators@[validator_index(
        c.validators.validators@,
        p,
    )].kyc_verified
}

/// The fifth gate: the escalation rule over the proposer's origin-wallet
/// compliance level. Basic forbids high-value, cross-border and governance
/// operations; Enhanced forbids high-value and cross-border; Institutional
/// forbids high-value; Government imposes no extra restriction; Military
/// needs its attestation.
pub open spec fn spec_compliance_gate(c: PureDPoSConsensus, b: Block, p: Seq<char>) -> bool {
    match spec_owc_level(c, p) {
        ComplianceLevel::Government => true,
        ComplianceLevel::Institutional => !spec_has_high_value(b),
        ComplianceLevel::Enhanced => !spec_has_high_value(b) && !spec_has_cross_border(c, b),
        ComplianceLevel::Basic => !spec_has_high_value(b) && !spec_has_cross_border(c, b)
            && !spec_has_governance(c, b),
        ComplianceLevel::Military => spec_military_compliance(c, p),
    }
}

/// The complete validation outcome for a block at validation time `now`:
/// a block without a proposer is an internal error; a trust-score sum beyond
/// a machine word is an internal error; otherwise the five gates decide in
/// order, short-circuiting on the first failure.
pub open spec fn spec_validate_block(c: PureDPoSConsensus, b: Block, now: u64) -> Result<
    bool,
    ConsensusError,
> {
    match b.header.proposer {
        Option::None => Err(ConsensusError::InternalError),
        Option::Some(p) => {
            if !spec_quorum_gate(c, b, p@) {
                Ok(false)
            } else if !spec_trust_score_fits(c, p@) {
                Err(ConsensusError::InternalError)
            } else if !spec_trust_gate(c, p@) {
                Ok(false)
            } else if !spec_environmental_gate(b, now) {
                Ok(false)
            } else if !spec_quantum_gate(c, b) {
                Ok(false)
            } else if !spec_compliance_gate(c, b, p@) {
                Ok(false)
            } else {
                Ok(true)
            }
        },
    }
}

impl PureDPoSConsensus {
    /// Well-formedness of the whole engine.
    pub open spec fn wf(self) -> bool {
        &&& self.validators.wf()
        &&& self.trust_engine.wf()
        &&& self.reward_distribution.wf()
    }

    /// A fresh engine with the default network parameters, created at `now`.
    pub fn new(now: u64) -> (r: PureDPoSConsensus)
        ensures
            r.wf(),
            r.validators.validators@.len() == 0,
            r.validators.active_validators@.len() == 0,
            r.validators.epoch_duration == 100,
            r.validators.stake_threshold == 100_000_000_000_000_000_000_000u128,
            r.validators.trust_threshold == 700_000u64,
            r.validators.signature_threshold == 676_667u64,
            r.finality_manager.finality_threshold == 676_667u64,
            r.finality_manager.finalized_blocks@.len() == 0,
            r.finality_manager.pending_finality@.len() == 0,
            r.signature_validator.quantum_signatures,
            r.signature_validator.fallback_signatures,
            r.trust_engine.foundation.is_active,
            r.trust_engine.origin_wallets@.len() == 0,
            r.trust_engine.issuers@.len() == 0,
            r.trust_engine.individuals@.len() == 0,
            r.environmental_oracle.validation_threshold == 500_000u64,
            r.origin_wallet_compliance.compliance_level == ComplianceLevel::Basic,
            !r.origin_wallet_compliance.veto_power,
            r.origin_wallet_compliance.stake_requirement
                == 1_000_000_000_000_000_000_000_000u128,
            r.reward_distribution.block_reward == 50_000_000_000_000_000_000u128,
            r.reward_distribution.halving_schedule@.len() == 2,
            r.reward_distribution.halving_schedule@[0].block_height == 210_000,
            r.reward_distribution.halving_schedule@[0].reward_multiplier == 500_000,
            r.reward_distribution.halving_schedule@[1].block_height == 420_000,
            r.reward_distribution.halving_schedule@[1].reward_multiplier == 250_000,
            r.reward_distribution.distribution_rules.validators == 50,
            r.reward_distribution.distribution_rules.edge_nodes == 20,
            r.reward_distribution.distribution_rules.stakers == 15,
            r.reward_distribution.distribution_rules.dev_fund == 10,
            r.reward_distribution.distribution_rules.environmental_fund == 5,
            r.reward_distribution.trust_multipliers.base_multiplier == 1_000_000,
            r.reward_distribution.trust_multipliers.max_multiplier == 2_000_000,
            r.reward_distribution.trust_multipliers.trust_thresholds@.len() == 4,
            r.reward_distribution.trust_multipliers.trust_thresholds@[0] == (TrustThreshold {
                min_trust: 0,
                max_trust: 300_000,
                multiplier: 1_000_000,
            }),
            r.reward_distribution.trust_multipliers.trust_thresholds@[1] == (TrustThreshold {
                min_trust: 300_000,
                max_trust: 600_000,
                multiplier: 1_200_000,
            }),
            r.reward_distribution.trust_multipliers.trust_thresholds@[2] == (TrustThreshold {
                min_trust: 600_000,
                max_trust: 800_000,
                multiplier: 1_500_000,
            }),
            r.reward_distribution.trust_multipliers.trust_thresholds@[3] == (TrustThreshold {
                min_trust: 800_000,
                max_trust: 1_000_000,
                multiplier: 2_000_000,
            }),
            r.reward_distribution.environmental_bonuses.carbon_offset_bonus == 100_000,
            r.reward_distribution.environmental_bonuses.renewable_energy_bonus == 100_000,
            r.reward_distribution.environmental_bonuses.environmental_verification_bonus
                == 50_000,
            r.reward_distribution.environmental_bonuses.max_environmental_bonus == 250_000,
    {
        let mut halving_schedule: Vec<HalvingEvent> = Vec::new();
        halving_schedule.push(
            HalvingEvent {
                block_height: 210_000,
                reward_multiplier: 500_000,
                description: "First halving".to_owned(),
            },
        );
        halving_schedule.push(
            HalvingEvent {
                block_height: 420_000,
                reward_multiplier: 250_000,
                description: "Second halving".to_owned(),
            },
        );
        let mut trust_thresholds: Vec<TrustThreshold> = Vec::new();
        trust_thresholds.push(TrustThreshold { min_trust: 0, max_trust: 300_000, multiplier: 1_000_000 });
        trust_thresholds.push(
            TrustThreshold { min_trust: 300_000, max_trust: 600_000, multiplier: 1_200_000 },
        );
        trust_thresholds.push(
            TrustThreshold { min_trust: 600_000, max_trust: 800_000, multiplier: 1_500_000 },
        );
        trust_thresholds.push(
            TrustThreshold { min_trust: 800_000, max_trust: 1_000_000, multiplier: 2_000_000 },
        );
        let engine = PureDPoSConsensus {
            validators: ValidatorSet::new(
                100,
                100_000_000_000_000_000_000_000,
                700_000,
                676_667,
            ),
            trust_engine: TrustDelegationChain::new(now),
            finality_manager: FinalityManager {
                finalized_blocks: Vec::new(),
                pending_finality: Vec::new(),
                finality_threshold: 676_667,
            },
            signature_validator: SignatureValidator {
                quantum_signatures: true,
                fallback_signatures: true,
            },
            environmental_oracle: EnvironmentalDataValidator {
                carbon_footprint: 0,
                renewable_energy_usage: 0,
                environmental_score: 0,
                verification_method: VerificationMethod::IoT_Sensors,
                last_updated: 0,
                validation_threshold: 500_000,
            },
            origin_wallet_compliance: OriginWalletCompliance {
                country_code: "GLOBAL".to_owned(),
                compliance_level: ComplianceLevel::Basic,
                kyc_requirements: Vec::new(),
                veto_power: false,
                stake_requirement: 1_000_000_000_000_000_000_000_000,
            },
            reward_distribution: RewardDistributionEngine {
                block_reward: 50_000_000_000_000_000_000,
                halving_schedule,
                distribution_rules: RewardDistributionRules {
                    validators: 50,
                    edge_nodes: 20,
                    stakers: 15,
                    dev_fund: 10,
                    environmental_fund: 5,
                },
                trust_multipliers: TrustMultipliers {
                    base_multiplier: 1_000_000,
                    max_multiplier: 2_000_000,
                    trust_thresholds,
                },
                environmental_bonuses: EnvironmentalBonuses {
                    carbon_offset_bonus: 100_000,
                    renewable_energy_bonus: 100_000,
                    environmental_verification_bonus: 50_000,
                    max_environmental_bonus: 250_000,
                },
            },
        };
        proof {
            let sched = engine.reward_distribution.halving_schedule@;
            assert(sched.len() == 2);
            assert forall|i: int|
                0 <= i < sched.len() implies #[trigger] sched[i].reward_multiplier <= PPM_SCALE
                by {
                assert(sched[0].reward_multiplier == 500_000);
                assert(sched[1].reward_multiplier == 250_000);
            }
            assert forall|i: int, j: int| 0 <= i < j < sched.len() implies sched[i].block_height
                <= sched[j].block_height by {
                assert(sched[0].block_height == 210_000);
                assert(sched[1].block_height == 420_000);
            }
            assert(engine.reward_distribution.block_reward as int * (PPM_SCALE as int)
                <= u128::MAX as int);
            assert(engine.reward_distribution.block_reward as int <= u128::MAX as int / (
            PPM_SCALE as int)) by (nonlinear_arith)
                requires
                    engine.reward_distribution.block_reward as int * (PPM_SCALE as int)
                        <= u128::MAX as int,
                    engine.reward_distribution.block_reward as int >= 0,
                    PPM_SCALE as int > 0,
            ;
        }
        engine
    }

    /// Verify a single validator signature attached to a block.
    fn verify_validator_signature(&self, signature: &ValidatorSignature, _block: &Block) -> (r:
        bool)
        ensures
            r == spec_signature_accepted(self.signature_validator, signature.signature@),
    {
        (self.signature_validator.quantum_signatures
            || self.signature_validator.fallback_signatures) && signature.signature.len() > 0
    }

    /// The first gate: proposer eligibility, signature quorum, and
    /// verification of every attached signature. A block without a proposer
    /// is rejected here.
    #[verifier::loop_isolation(false)]
    pub fn validate_validator_signatures(&self, block: &Block) -> (r: Result<
        bool,
        ConsensusError,
    >)
        requires
            self.wf(),
        ensures
            r == match block.header.proposer {
                Option::Some(p) => Ok::<bool, ConsensusError>(
                    spec_quorum_gate(*self, *block, p@),
                ),
                Option::None => Ok::<bool, ConsensusError>(false),
            },
    {
        let proposer = match &block.header.proposer {
            Some(p) => p,
            None => {
                return Ok(false);
            },
        };
        if !self.validators.is_eligible(proposer) {
            return Ok(false);
        }
        let required = required_signatures(
            self.validators.active_validator_count(),
            self.validators.signature_threshold,
        );
        if block.header.validator_signatures.len() < required {
            return Ok(false);
        }
        let sigs = &block.header.validator_signatures;
        let mut i: usize = 0;
        while i < sigs.len()
            invariant
                i <= sigs@.len(),
                forall|k: int|
                    0 <= k < i ==> spec_signature_accepted(
                        self.signature_validator,
                        (#[trigger] sigs@[k]).signature@,
                    ),
            decreases sigs@.len() - i,
        {
            if !self.verify_validator_signature(&sigs[i], block) {
                return Ok(false);
            }
            i += 1;
        }
        Ok(true)
    }

    /// The proposer's trust score, computed by the trust engine.
    pub fn calculate_trust_score(&self, address: &String) -> (r: Result<u64, ConsensusError>)
        requires
            self.wf(),
        ensures
            spec_trust_score_fits(*self, address@) ==> r == Ok::<u64, ConsensusError>(
                spec_trust_score(self.trust_engine, address@) as u64,
            ),
            !spec_trust_score_fits(*self, address@) ==> r == Err::<u64, ConsensusError>(
                ConsensusError::InternalError,
            ),
    {
        match self.trust_engine.calculate_trust_score(address) {
            Ok(score) => Ok(score),
            Err(_) => Err(ConsensusError::InternalError),
        }
    }

    /// Whether the anti-gaming detector reports any pattern for the entity.
    pub fn detect_suspicious_patterns(&self, address: &String) -> (r: Result<
        bool,
        ConsensusError,
    >)
        requires
            self.wf(),
        ensures
            r == Ok::<bool, ConsensusError>(
                spec_sybil_pattern(self.trust_engine, address@) || spec_circular_pattern(
                    self.trust_engine,
                    address@,
                ) || spec_concentration_pattern(self.trust_engine, address@),
            ),
    {
        match self.trust_engine.detect_suspicious_patterns(address) {
            Ok(patterns) => Ok(patterns.len() > 0),
            Err(_) => Err(ConsensusError::InternalError),
        }
    }

    /// Whether the delegation chains the block relies on verify: a proposer
    /// holding a credential must have a verifiable chain; a proposer without
    /// one passes.
    pub fn validate_trust_delegation_chains(&self, block: &Block) -> (r: Result<
        bool,
        ConsensusError,
    >)
        requires
            self.wf(),
        ensures
            r == match block.header.proposer {
                Option::Some(p) => Ok::<bool, ConsensusError>(
                    has_credential(self.trust_engine.individuals@, p@) ==> spec_chain_valid(
                        self.trust_engine,
                        self.trust_engine.individuals@[credential_index(
                            self.trust_engine.individuals@,
                            p@,
                        )],
                    ),
                ),
                Option::None => Ok::<bool, ConsensusError>(true),
            },
    {
        let proposer = match &block.header.proposer {
            Some(p) => p,
            None => {
                return Ok(true);
            },
        };
        match self.trust_engine.find_credential(proposer) {
            Some(i) => {
                proof {
                    assert(credential_index(self.trust_engine.individuals@, proposer@)
                        == i as int);
                }
                let cred = &self.trust_engine.individuals[i];
                match self.trust_engine.verify_chain(cred) {
                    Ok(b) => Ok(b),
                    Err(_) => Err(ConsensusError::InternalError),
                }
            },
            None => Ok(true),
        }
    }

    /// The second gate: the proposer's trust score, anti-gaming scan and
    /// credential chain. A block without a proposer passes vacuously here:
    /// the first gate has already rejected it.
    pub fn validate_trust_requirements(&self, block: &Block) -> (r: Result<bool, ConsensusError>)
        requires
            self.wf(),
        ensures
            r == match block.header.proposer {
                Option::Some(p) => if spec_trust_score_fits(*self, p@) {
                    Ok::<bool, ConsensusError>(spec_trust_gate(*self, p@))
                } else {
                    Err::<bool, ConsensusError>(ConsensusError::InternalError)
                },
                Option::None => Ok::<bool, ConsensusError>(true),
            },
    {
        if let Some(proposer) = &block.header.proposer {
            proof {
                crate::chain::lemma_trust_score_bounds(self.trust_engine, proposer@);
            }
            let trust_score = match self.calculate_trust_score(proposer) {
                Ok(s) => s,
                Err(e) => {
                    return Err(e);
                },
            };
            if trust_score < self.validators.trust_threshold {
                return Ok(false);
            }
            let suspicious = match self.detect_suspicious_patterns(proposer) {
                Ok(b) => b,
                Err(e) => {
                    return Err(e);
                },
            };
            if suspicious {
                return Ok(false);
            }
            self.validate_trust_delegation_chains(block)
        } else {
            Ok(true)
        }
    }

    /// The third gate: environmental-data integrity at validation time
    /// `now`; a block without environmental data passes.
    pub fn validate_environmental_data(&self, block: &Block, now: u64) -> (r: Result<
        bool,
        ConsensusError,
    >)
        ensures
            r == Ok::<bool, ConsensusError>(spec_environmental_gate(*block, now)),
    {
        match &block.environmental_data {
            Some(env) => Ok(validate_environmental_data_at(env, now)),
            None => Ok(true),
        }
    }

    /// Recompute the environmental score of attached data, in parts per
    /// million.
    pub fn calculate_environmental_score(&self, env_data: &EnvironmentalData) -> (r: Result<
        u64,
        ConsensusError,
    >)
        ensures
            r == Ok::<u64, ConsensusError>(
                crate::environment::spec_environmental_score_ppm(
                    env_data.carbon_footprint as int,
                    env_data.renewable_energy_usage as int,
                ) as u64,
            ),
    {
        Ok(crate::environment::calculate_environmental_score(env_data))
    }

    /// The fourth gate: quantum-scheme signatures on the header and every
    /// transaction, regardless of which scheme satisfied the quorum gate.
    /// A block without a proposer checks only its transactions.
    #[verifier::loop_isolation(false)]
    pub fn validate_quantum_signatures(&self, block: &Block) -> (r: Result<bool, ConsensusError>)
        ensures
            block.header.proposer is Some ==> r == Ok::<bool, ConsensusError>(
                spec_quantum_gate(*self, *block),
            ),
            block.header.proposer is None ==> r == Ok::<bool, ConsensusError>(
                spec_quantum_tx_signatures(*self, *block),
            ),
    {
        if block.header.proposer.is_some() {
            if self.signature_validator.quantum_signatures {
                if block.header.dilithium_signature.len() == 0 {
                    return Ok(false);
                }
            }
        }
        if self.signature_validator.quantum_signatures {
            let txs = &block.transactions;
            let mut i: usize = 0;
            while i < txs.len()
                invariant
                    i <= txs@.len(),
                    forall|k: int|
                        0 <= k < i ==> (#[trigger] txs@[k]).signature.dilithium_signature@.len()
                            > 0,
                decreases txs@.len() - i,
            {
                if txs[i].signature.dilithium_signature.len() == 0 {
                    return Ok(false);
                }
                i += 1;
            }
        }
        Ok(true)
    }

    /// The compliance level of the proposer's origin wallet; the most
    /// restrictive level when the proposer or its wallet is unknown.
    pub fn get_origin_wallet_compliance_level(&self, address: &String) -> (r: Result<
        ComplianceLevel,
        ConsensusError,
    >)
        requires
            self.wf(),
        ensures
            r == Ok::<ComplianceLevel, ConsensusError>(spec_owc_level(*self, address@)),
    {
        let vi = match self.validators.find_validator(address) {
            Some(i) => i,
            None => {
                return Ok(ComplianceLevel::Basic);
            },
        };
        proof {
            assert(validator_index(self.validators.validators@, address@) == vi as int);
        }
        let country = match &self.validators.validators[vi].origin_wallet_country {
            Some(c) => c,
            None => {
                return Ok(ComplianceLevel::Basic);
            },
        };
        match self.trust_engine.find_wallet(country) {
            Some(wi) => {
                proof {
                    assert(wallet_index(self.trust_engine.origin_wallets@, country@)
                        == wi as int);
                }
                Ok(self.trust_engine.origin_wallets[wi].compliance_level)
            },
            None => Ok(ComplianceLevel::Basic),
        }
    }

    /// Whether the block contains a transaction at or above the high-value
    /// threshold.
    #[verifier::loop_isolation(false)]
    pub fn has_high_value_transactions(&self, block: &Block) -> (r: bool)
        ensures
            r == spec_has_high_value(*block),
    {
        let txs = &block.transactions;
        let mut i: usize = 0;
        while i < txs.len()
            invariant
                i <= txs@.len(),
                forall|k: int|
                    0 <= k < i ==> (#[trigger] txs@[k]).amount < HIGH_VALUE_THRESHOLD,
            decreases txs@.len() - i,
        {
            if txs[i].amount >= HIGH_VALUE_THRESHOLD {
                return true;
            }
            i += 1;
        }
        false
    }

    /// The origin-wallet country the address resolves to through the
    /// validator roster.
    fn country_of(&self, address: &String) -> (r: Option<String>)
        requires
            self.validators.wf(),
        ensures
            match r {
                Some(c) => spec_country_of(self.validators.validators@, address@) == Some(c@),
                None => spec_country_of(self.validators.validators@, address@) is None,
            },
    {
        let vi = match self.validators.find_validator(address) {
            Some(i) => i,
            None => {
                return None;
            },
        };
        proof {
            assert(validator_index(self.validators.validators@, address@) == vi as int);
        }
        match &self.validators.validators[vi].origin_wallet_country {
            Some(c) => Some(c.clone()),
            None => None,
        }
    }

    /// Whether the block contains a cross-border transaction: both parties
    /// resolve to known, distinct origin-wallet countries.
    #[verifier::loop_isolation(false)]
    pub fn has_cross_border_transactions(&self, block: &Block) -> (r: bool)
        requires
            self.wf(),
        ensures
            r == spec_has_cross_border(*self, *block),
    {
        let txs = &block.transactions;
        let mut i: usize = 0;
        while i < txs.len()
            invariant
                i <= txs@.len(),
                forall|k: int|
                    0 <= k < i ==> !{
                        let t = #[trigger] txs@[k];
                        match (
                            spec_country_of(self.validators.validators@, t.from@),
                            spec_country_of(self.validators.validators@, t.to@),
                        ) {
                            (Option::Some(a), Option::Some(bb)) => a != bb,
                            _ => false,
                        }
                    },
            decreases txs@.len() - i,
        {
            let from_country = self.country_of(&txs[i].from);
            let to_country = self.country_of(&txs[i].to);
            if let (Some(a), Some(b)) = (from_country, to_country) {
                if !(a == b) {
                    return true;
                }
            }
            i += 1;
        }
        false
    }

    /// Whether the block contains a governance transaction: one addressed
    /// to the Foundation.
    #[verifier::loop_isolation(false)]
    pub fn has_governance_transactions(&self, block: &Block) -> (r: bool)
        ensures
            r == spec_has_governance(*self, *block),
    {
        let txs = &block.transactions;
        let mut i: usize = 0;
        while i < txs.len()
            invariant
                i <= txs@.len(),
                forall|k: int|
                    0 <= k < i ==> (#[trigger] txs@[k]).to@
                        != self.trust_engine.foundation.address@,
            decreases txs@.len() - i,
        {
            if txs[i].to == self.trust_engine.foundation.address {
                return true;
            }
            i += 1;
        }
        false
    }

    /// The military-specific attestation: the proposer is registered with
    /// verified know-your-customer status.
    pub fn verify_military_compliance(&self, address: &String) -> (r: Result<
        bool,
        ConsensusError,
    >)
        requires
            self.wf(),
        ensures
            r == Ok::<bool, ConsensusError>(spec_military_compliance(*self, address@)),
    {
        match self.validators.find_validator(address) {
            Some(i) => {
                proof {
                    assert(validator_index(self.validators.validators@, address@) == i as int);
                }
                Ok(self.validators.validators[i].kyc_verified)
            },
            None => Ok(false),
        }
    }

    /// The fifth gate: the compliance escalation rule over the proposer's
    /// origin-wallet level. A block without a proposer passes, as the first
    /// gate already rejected it.
    pub fn validate_origin_wallet_compliance(&self, block: &Block) -> (r: Result<
        bool,
        ConsensusError,
    >)
        requires
            self.wf(),
        ensures
            r == match block.header.proposer {
                Option::Some(p) => Ok::<bool, ConsensusError>(
                    spec_compliance_gate(*self, *block, p@),
                ),
                Option::None => Ok::<bool, ConsensusError>(true),
            },
    {
        let proposer = match &block.header.proposer {
            Some(p) => p,
            None => {
                return Ok(true);
            },
        };
        let level = match self.get_origin_wallet_compliance_level(proposer) {
            Ok(l) => l,
            Err(e) => {
                return Err(e);
            },
        };
        match level {
            ComplianceLevel::Government => Ok(true),
            ComplianceLevel::Institutional => Ok(!self.has_high_value_transactions(block)),
            ComplianceLevel::Enhanced => {
                if self.has_high_value_transactions(block) {
                    return Ok(false);
                }
                Ok(!self.has_cross_border_transactions(block))
            },
            ComplianceLevel::Basic => {
                if self.has_high_value_transactions(block) {
                    return Ok(false);
                }
                if self.has_cross_border_transactions(block) {
                    return Ok(false);
                }
                Ok(!self.has_governance_transactions(block))
            },
            ComplianceLevel::Military => self.verify_military_compliance(proposer),
        }
    }

    /// Validate a block at validation time `now`: the five ordered gates,
    /// short-circuiting on the first failure. A block without a proposer is
    /// an internal error, not a rejection.
    pub fn validate_block(&self, block: &Block, now: u64) -> (r: Result<bool, ConsensusError>)
        requires
            self.wf(),
        ensures
            r == spec_validate_block(*self, *block, now),
    {
        if block.header.proposer.is_none() {
            return Err(ConsensusError::InternalError);
        }
        match self.validate_validator_signatures(block) {
            Ok(true) => (),
            Ok(false) => {
                return Ok(false);
            },
            Err(e) => {
                return Err(e);
            },
        }
        match self.validate_trust_requirements(block) {
            Ok(true) => (),
            Ok(false) => {
                return Ok(false);
            },
            Err(e) => {
                return Err(e);
            },
        }
        match self.validate_environmental_data(block, now) {
            Ok(true) => (),
            Ok(false) => {
                return Ok(false);
            },
            Err(e) => {
                return Err(e);
            },
        }
        match self.validate_quantum_signatures(block) {
            Ok(true) => (),
            Ok(false) => {
                return Ok(false);
            },
            Err(e) => {
                return Err(e);
            },
        }
        match self.validate_origin_wallet_compliance(block) {
            Ok(b) => Ok(b),
            Err(e) => Err(e),
        }
    }

    /// The trust multiplier a block's proposer earns, from the trust-bucket
    /// table; the base multiplier when the block has no proposer.
    pub fn calculate_trust_multiplier(&self, block: &Block) -> (r: Result<u64, ConsensusError>)
        requires
            self.wf(),
        ensures
            r == match block.header.proposer {
                Option::Some(p) => if spec_trust_score_fits(*self, p@) {
                    Ok::<u64, ConsensusError>(
                        spec_bucket_multiplier(
                            self.reward_distribution.trust_multipliers.trust_thresholds@,
                            spec_trust_score(self.trust_engine, p@) as u64,
                            self.reward_distribution.trust_multipliers.base_multiplier,
                        ),
                    )
                } else {
                    Err::<u64, ConsensusError>(ConsensusError::InternalError)
                },
                Option::None => Ok::<u64, ConsensusError>(
                    self.reward_distribution.trust_multipliers.base_multiplier,
                ),
            },
    {
        match &block.header.proposer {
            Some(p) => {
                let score = match self.calculate_trust_score(p) {
                    Ok(s) => s,
                    Err(e) => {
                        return Err(e);
                    },
                };
                Ok(self.reward_distribution.trust_multiplier(Some(score)))
            },
            None => Ok(self.reward_distribution.trust_multiplier(None)),
        }
    }

    /// The environmental bonus a block earns, in parts per million; zero
    /// without environmental data.
    pub fn calculate_environmental_bonus(&self, block: &Block) -> (r: Result<
        u64,
        ConsensusError,
    >)
        ensures
            r == Ok::<u64, ConsensusError>(
                spec_environmental_bonus(
                    self.reward_distribution.environmental_bonuses,
                    block.environmental_data,
                ) as u64,
            ),
    {
        Ok(self.reward_distribution.environmental_bonus(&block.environmental_data))
    }

    /// Compute the reward split of a block: the halved base reward scaled by
    /// the proposer's trust multiplier and the environmental bonus, split
    /// into the five pools. Totals beyond a machine word are an internal
    /// error.
    pub fn calculate_block_rewards(&self, block: &Block) -> (r: Result<
        RewardDistribution,
        ConsensusError,
    >)
        requires
            self.wf(),
        ensures
            ({
                let base = self.reward_distribution.block_reward as int * spec_halving_multiplier(
                    self.reward_distribution.halving_schedule@,
                    block.header.height,
                ) / (PPM_SCALE as int);
                let mult = match block.header.proposer {
                    Option::Some(p) => if spec_trust_score_fits(*self, p@) {
                        Some(
                            spec_bucket_multiplier(
                                self.reward_distribution.trust_multipliers.trust_thresholds@,
                                spec_trust_score(self.trust_engine, p@) as u64,
                                self.reward_distribution.trust_multipliers.base_multiplier,
                            ) as int,
                        )
                    } else {
                        None
                    },
                    Option::None => Some(
                        self.reward_distribution.trust_multipliers.base_multiplier as int,
                    ),
                };
                let bonus = spec_environmental_bonus(
                    self.reward_distribution.environmental_bonuses,
                    block.environmental_data,
                );
                match mult {
                    Option::None => r == Err::<RewardDistribution, ConsensusError>(
                        ConsensusError::InternalError,
                    ),
                    Option::Some(m) => {
                        let total = spec_total_reward(base, m, bonus);
                        if spec_total_reward_fits(base, m, bonus) && total <= u128::MAX as int
                            / 100 {
                            r == Ok::<RewardDistribution, ConsensusError>(
                                spec_reward_split(
                                    self.reward_distribution.distribution_rules,
                                    total,
                                ),
                            )
                        } else {
                            r == Err::<RewardDistribution, ConsensusError>(
                                ConsensusError::InternalError,
                            )
                        }
                    },
                }
            }),
    {
        let base_reward = self.reward_distribution.effective_base_reward(block.header.height);
        let trust_multiplier = match self.calculate_trust_multiplier(block) {
            Ok(m) => m,
            Err(e) => {
                return Err(e);
            },
        };
        let environmental_bonus = match self.calculate_environmental_bonus(block) {
            Ok(b) => b,
            Err(e) => {
                return Err(e);
            },
        };
        let scaled = match crate::numeric::mul_u128_checked(
            base_reward,
            trust_multiplier as u128,
        ) {
            Some(x) => x / (PPM_SCALE as u128),
            None => {
                return Err(ConsensusError::InternalError);
            },
        };
        let total_reward = match crate::numeric::mul_u128_checked(
            scaled,
            (PPM_SCALE as u128) + (environmental_bonus as u128),
        ) {
            Some(x) => x / (PPM_SCALE as u128),
            None => {
                return Err(ConsensusError::InternalError);
            },
        };
        if total_reward > u128::MAX / 100 {
            return Err(ConsensusError::InternalError);
        }
        proof {
            let t = total_reward as int;
            vstd::arithmetic::div_mod::lemma_div_is_ordered(
                0,
                spec_total_reward(
                    base_reward as int,
                    trust_multiplier as int,
                    spec_environmental_bonus(
                        self.reward_distribution.environmental_bonuses,
                        block.environmental_data,
                    ),
                ),
                1,
            );
        }
        Ok(self.reward_distribution.distribute(total_reward))
    }
}

} // verus!
