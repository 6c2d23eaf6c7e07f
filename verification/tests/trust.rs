//! Tests for the trust-delegation chain: chain verification, delegation
//! creation and revocation, trust scoring and anti-gaming detection.

use blockchain_core::antigaming::{PatternType, EXCESSIVE_TRUST_AMOUNT};
use blockchain_core::chain::TrustDelegationChain;
use blockchain_core::delegation::Delegation;
use blockchain_core::delegation::{
    ComplianceLevel, CredentialIssuer, CredentialType, DelegationLevel, DelegationType, IssuerType,
    KYCLevel, NFTCredential, OriginWallet, VerificationData,
};
use blockchain_core::errors::TrustError;

fn wallet(country: &str, trust: u64, capacity: u128, active: bool) -> OriginWallet {
    OriginWallet {
        country_code: country.to_owned(),
        wallet_address: format!("wallet_{}", country),
        multisig_address: format!("multisig_{}", country),
        required_signatures: 2,
        total_signers: 3,
        signers: vec![],
        stake_amount: 1_000_000,
        compliance_level: ComplianceLevel::Enhanced,
        veto_power: false,
        delegation_capacity: capacity,
        active_delegations: vec![],
        trust_score: trust,
        is_active: active,
        created_at: 0,
        last_activity: 0,
    }
}

fn issuer(id: &str, country: &str, trust: u64, active: bool) -> CredentialIssuer {
    CredentialIssuer {
        issuer_id: id.to_owned(),
        name: format!("issuer {}", id),
        organization: "org".to_owned(),
        country_code: country.to_owned(),
        origin_wallet: country.to_owned(),
        issuer_type: IssuerType::Financial,
        compliance_level: ComplianceLevel::Enhanced,
        kyc_capabilities: vec![],
        delegation_capacity: 1_000_000,
        active_delegations: vec![],
        trust_score: trust,
        is_active: active,
        created_at: 0,
        last_activity: 0,
    }
}

fn credential(owner: &str, issuer_id: &str, chain_path: Vec<&str>, trust: u64, active: bool) -> NFTCredential {
    NFTCredential {
        token_id: 1,
        owner: owner.to_owned(),
        credential_type: CredentialType::Identity,
        issuer: issuer_id.to_owned(),
        delegation_chain: chain_path.into_iter().map(|s| s.to_owned()).collect(),
        kyc_level: KYCLevel::Advanced,
        verification_data: VerificationData {
            document_hash: [0u8; 32],
            biometric_hash: None,
            verification_proof: vec![],
            metadata: vec![],
            verification_timestamp: 0,
        },
        trust_score: trust,
        is_active: active,
        issued_at: 0,
        expires_at: None,
        last_verified: 0,
    }
}

/// A chain with an active wallet, issuer and credential, a signed
/// Foundation, and an active delegation edge from the wallet to the issuer.
fn populated_chain() -> TrustDelegationChain {
    let mut c = TrustDelegationChain::new(1000);
    c.foundation.signature = vec![1, 2, 3];
    c.origin_wallets.push(wallet("US", 900_000, 1_000_000, true));
    c.issuers.push(issuer("issuer1", "US", 800_000, true));
    c.individuals
        .push(credential("alice", "issuer1", vec!["zpc1foundation", "US", "issuer1", "alice"], 700_000, true));
    let d = c
        .create_delegation(
            "US".to_owned(),
            "issuer1".to_owned(),
            DelegationType::Trust,
            1000,
            2000,
        )
        .expect("delegation should succeed");
    assert!(d.is_active);
    c
}

#[test]
fn chain_shorter_than_three_is_rejected() {
    let c = populated_chain();
    let short = credential("alice", "issuer1", vec!["zpc1foundation", "US"], 700_000, true);
    assert_eq!(c.verify_chain(&short), Ok(false));
    let empty = credential("alice", "issuer1", vec![], 700_000, true);
    assert_eq!(c.verify_chain(&empty), Ok(false));
}

#[test]
fn valid_chain_verifies() {
    let c = populated_chain();
    let cred = &c.individuals[0].clone();
    // flow strength: (1.0*1.0 + 0.9*0.8 + 0.8*0.6 + 0.7*0.4) / 4 = 0.62
    assert_eq!(c.calculate_trust_flow_strength(cred), 620_000);
    assert_eq!(c.verify_chain(cred), Ok(true));
}

#[test]
fn inactive_hops_are_rejected() {
    // inactive foundation
    let mut c = populated_chain();
    c.foundation.is_active = false;
    let cred = c.individuals[0].clone();
    assert_eq!(c.verify_chain(&cred), Ok(false));
    // inactive origin wallet
    let mut c = populated_chain();
    c.origin_wallets[0].is_active = false;
    let cred = c.individuals[0].clone();
    assert_eq!(c.verify_chain(&cred), Ok(false));
    // inactive issuer
    let mut c = populated_chain();
    c.issuers[0].is_active = false;
    let cred = c.individuals[0].clone();
    assert_eq!(c.verify_chain(&cred), Ok(false));
    // inactive credential
    let mut c = populated_chain();
    c.individuals[0].is_active = false;
    let cred = c.individuals[0].clone();
    assert_eq!(c.verify_chain(&cred), Ok(false));
}

#[test]
fn missing_foundation_signature_is_rejected() {
    let mut c = populated_chain();
    c.foundation.signature = vec![];
    let cred = c.individuals[0].clone();
    assert_eq!(c.verify_chain(&cred), Ok(false));
}

#[test]
fn weak_flow_strength_is_rejected() {
    let mut c = populated_chain();
    c.origin_wallets[0].trust_score = 0;
    c.issuers[0].trust_score = 0;
    c.individuals[0].trust_score = 0;
    let cred = c.individuals[0].clone();
    // only the Foundation hop contributes: 1.0/4 = 0.25 < 0.5
    assert_eq!(c.calculate_trust_flow_strength(&cred), 250_000);
    assert_eq!(c.verify_chain(&cred), Ok(false));
}

#[test]
fn create_delegation_produces_edge_and_flow() {
    let c = populated_chain();
    assert_eq!(c.delegation_graph.edges.len(), 1);
    let e = &c.delegation_graph.edges[0];
    assert_eq!(e.from_node, "US");
    assert_eq!(e.to_node, "issuer1");
    assert_eq!(e.trust_amount, 1000);
    assert!(e.is_active);
    assert_eq!(c.delegation_graph.trust_flows.len(), 1);
    let f = &c.delegation_graph.trust_flows[0];
    assert_eq!(f.flow_id, e.edge_id);
    assert_eq!(f.path, vec!["US".to_owned(), "issuer1".to_owned()]);
    assert_eq!(f.total_trust, 1000);
    // path strength: (0.9*1.0 + 0.8*0.8) / 2 = 0.77
    assert_eq!(f.flow_strength, 770_000);
    // nodes exist for both endpoints plus the Foundation's genesis node
    assert_eq!(c.delegation_graph.nodes.len(), 3);
}

#[test]
fn create_delegation_rejects_insufficient_capacity() {
    let mut c = populated_chain();
    // 1000 of the 1_000_000 capacity are already delegated
    let r = c.create_delegation(
        "US".to_owned(),
        "issuer1".to_owned(),
        DelegationType::Trust,
        999_001,
        5000,
    );
    assert!(matches!(r, Err(TrustError::InsufficientTrustCapacity)));
    // no partial state change: still one edge and one flow
    assert_eq!(c.delegation_graph.edges.len(), 1);
    assert_eq!(c.delegation_graph.trust_flows.len(), 1);
    // exactly the remaining capacity still succeeds
    let r = c.create_delegation(
        "US".to_owned(),
        "issuer1".to_owned(),
        DelegationType::Trust,
        999_000,
        5000,
    );
    assert!(r.is_ok());
}

#[test]
fn create_delegation_rejects_unknown_delegator() {
    let mut c = populated_chain();
    let r = c.create_delegation(
        "nowhere".to_owned(),
        "issuer1".to_owned(),
        DelegationType::Trust,
        1,
        5000,
    );
    assert!(matches!(r, Err(TrustError::EntityNotFound)));
}

#[test]
fn create_delegation_rejects_rapid_delegation() {
    let mut c = populated_chain();
    // the edge from the setup was created at 2000; within the 60-second
    // window a new delegation from the same delegator is rapid
    let r = c.create_delegation(
        "US".to_owned(),
        "issuer1".to_owned(),
        DelegationType::KYC,
        1,
        2030,
    );
    assert!(matches!(r, Err(TrustError::SuspiciousActivity)));
    // well past the window it is accepted
    let r = c.create_delegation(
        "US".to_owned(),
        "issuer1".to_owned(),
        DelegationType::KYC,
        1,
        5000,
    );
    assert!(r.is_ok());
}

#[test]
fn create_delegation_rejects_circular_delegation() {
    let mut c = populated_chain();
    // an edge US -> issuer1 exists; issuer1 -> US would close a cycle
    let r = c.create_delegation(
        "issuer1".to_owned(),
        "US".to_owned(),
        DelegationType::Trust,
        1,
        5000,
    );
    assert!(matches!(r, Err(TrustError::SuspiciousActivity)));
    // self-delegation is circular as well
    let r = c.create_delegation(
        "US".to_owned(),
        "US".to_owned(),
        DelegationType::Trust,
        1,
        5000,
    );
    assert!(matches!(r, Err(TrustError::SuspiciousActivity)));
}

#[test]
fn create_delegation_rejects_excessive_amount() {
    let mut c = TrustDelegationChain::new(0);
    c.origin_wallets.push(wallet("DE", 900_000, u128::MAX, true));
    let r = c.create_delegation(
        "DE".to_owned(),
        "anyone".to_owned(),
        DelegationType::Trust,
        EXCESSIVE_TRUST_AMOUNT + 1,
        100,
    );
    assert!(matches!(r, Err(TrustError::SuspiciousActivity)));
    // a blacklisted delegator is refused outright
    let mut c = TrustDelegationChain::new(0);
    c.origin_wallets.push(wallet("DE", 900_000, u128::MAX, true));
    c.anti_gaming.blacklist.push("DE".to_owned());
    let r = c.create_delegation("DE".to_owned(), "x".to_owned(), DelegationType::Trust, 1, 100);
    assert!(matches!(r, Err(TrustError::SuspiciousActivity)));
    // a whitelisted delegator bypasses detection
    let mut c = TrustDelegationChain::new(0);
    c.origin_wallets.push(wallet("DE", 900_000, u128::MAX, true));
    c.anti_gaming.whitelist.push("DE".to_owned());
    let r = c.create_delegation(
        "DE".to_owned(),
        "x".to_owned(),
        DelegationType::Trust,
        EXCESSIVE_TRUST_AMOUNT + 1,
        100,
    );
    assert!(r.is_ok());
}

#[test]
fn delegation_levels_follow_delegator_role() {
    let mut c = populated_chain();
    let d = c
        .create_delegation(
            "zpc1foundation".to_owned(),
            "US".to_owned(),
            DelegationType::Trust,
            5,
            10_000,
        )
        .unwrap();
    assert_eq!(d.delegation_level, DelegationLevel::Level1);
    let d = c
        .create_delegation("US".to_owned(), "issuer1".to_owned(), DelegationType::KYC, 5, 20_000)
        .unwrap();
    assert_eq!(d.delegation_level, DelegationLevel::Level2);
    let d = c
        .create_delegation(
            "issuer1".to_owned(),
            "newperson".to_owned(),
            DelegationType::KYC,
            5,
            30_000,
        )
        .unwrap();
    assert_eq!(d.delegation_level, DelegationLevel::Level3);
}

#[test]
fn revoke_nonexistent_delegation_is_a_noop() {
    let mut c = populated_chain();
    let edges_before = c.delegation_graph.edges.len();
    let flows_before = c.delegation_graph.trust_flows.len();
    let r = c.revoke_delegation("no_such_id".to_owned(), "cleanup".to_owned());
    assert!(r.is_ok());
    assert_eq!(c.delegation_graph.edges.len(), edges_before);
    assert_eq!(c.delegation_graph.trust_flows.len(), flows_before);
    assert!(c.delegation_graph.edges[0].is_active);
}

#[test]
fn revoke_twice_is_idempotent() {
    let mut c = populated_chain();
    let id = c.delegation_graph.edges[0].edge_id.clone();
    assert!(c.revoke_delegation(id.clone(), "audit".to_owned()).is_ok());
    assert!(!c.delegation_graph.edges[0].is_active);
    assert_eq!(c.delegation_graph.trust_flows.len(), 0);
    let edges_after_first: Vec<(String, bool)> = c
        .delegation_graph
        .edges
        .iter()
        .map(|e| (e.edge_id.clone(), e.is_active))
        .collect();
    assert!(c.revoke_delegation(id, "audit again".to_owned()).is_ok());
    let edges_after_second: Vec<(String, bool)> = c
        .delegation_graph
        .edges
        .iter()
        .map(|e| (e.edge_id.clone(), e.is_active))
        .collect();
    assert_eq!(edges_after_first, edges_after_second);
    assert_eq!(c.delegation_graph.trust_flows.len(), 0);
}

#[test]
fn revoked_delegation_frees_capacity() {
    let mut c = populated_chain();
    let id = c.delegation_graph.edges[0].edge_id.clone();
    c.revoke_delegation(id, "rebalance".to_owned()).unwrap();
    // the full capacity is available again
    let r = c.create_delegation(
        "US".to_owned(),
        "issuer1".to_owned(),
        DelegationType::Trust,
        1_000_000,
        9000,
    );
    assert!(r.is_ok());
}

#[test]
fn trust_score_is_one_for_foundation_and_zero_without_delegations() {
    let c = populated_chain();
    assert_eq!(c.calculate_trust_score(&"zpc1foundation".to_owned()), Ok(1_000_000));
    assert_eq!(c.get_entity_trust_score(&"zpc1foundation".to_owned()), 1_000_000);
    // no stored incoming delegations for the issuer
    assert_eq!(c.calculate_trust_score(&"issuer1".to_owned()), Ok(0));
    assert_eq!(c.calculate_trust_score(&"stranger".to_owned()), Ok(0));
}

#[test]
fn trust_score_weighted_mean() {
    let mut c = populated_chain();
    // two incoming delegations for val1: the Foundation (trust 1.0) with a
    // Trust/Level1 delegation of 300, and the US wallet (trust 0.9) with a
    // KYC/Level2 delegation of 100
    c.origin_wallets[0].active_delegations.push(Delegation {
        delegation_id: "d1".to_owned(),
        delegator: "zpc1foundation".to_owned(),
        delegate: "val1".to_owned(),
        delegation_type: DelegationType::Trust,
        trust_amount: 300,
        delegation_level: DelegationLevel::Level1,
        is_active: true,
        created_at: 0,
        expires_at: None,
        last_used: 0,
    });
    c.origin_wallets[0].active_delegations.push(Delegation {
        delegation_id: "d2".to_owned(),
        delegator: "US".to_owned(),
        delegate: "val1".to_owned(),
        delegation_type: DelegationType::KYC,
        trust_amount: 100,
        delegation_level: DelegationLevel::Level2,
        is_active: true,
        created_at: 0,
        expires_at: None,
        last_used: 0,
    });
    // an inactive delegation and one for someone else are ignored
    c.origin_wallets[0].active_delegations.push(Delegation {
        delegation_id: "d3".to_owned(),
        delegator: "zpc1foundation".to_owned(),
        delegate: "val1".to_owned(),
        delegation_type: DelegationType::Trust,
        trust_amount: 1_000_000,
        delegation_level: DelegationLevel::Level1,
        is_active: false,
        created_at: 0,
        expires_at: None,
        last_used: 0,
    });
    // weights: d1 = 1.0*1.0 = 1.0 over 300, d2 = 0.9*0.8 = 0.72 over 100
    // score = (1.0*1.0*300 + 0.9*0.72*100) / (1.0*300 + 0.72*100)
    //       = (300 + 64.8) / 372 = 0.980645...
    let num: u128 = 1_000_000u128 * 1_000_000 * 300 + 900_000u128 * 720_000 * 100;
    let den: u128 = 1_000_000u128 * 300 + 720_000u128 * 100;
    let expected = (num / den) as u64;
    assert_eq!(c.calculate_trust_score(&"val1".to_owned()), Ok(expected));
    assert_eq!(expected, 980_645);
}

#[test]
fn suspicious_pattern_scan() {
    let mut c = populated_chain();
    // no patterns for the wallet in the ordinary setup
    let patterns = c.detect_suspicious_patterns(&"US".to_owned()).unwrap();
    assert_eq!(patterns.len(), 0);
    // a delegation far above half the capacity concentrates trust:
    // capacity 1_000_000, delegated 600_001 > 500_000
    let r = c.create_delegation(
        "US".to_owned(),
        "issuer1".to_owned(),
        DelegationType::Governance,
        600_001,
        9000,
    );
    assert!(r.is_ok());
    let patterns = c.detect_suspicious_patterns(&"US".to_owned()).unwrap();
    assert_eq!(patterns.len(), 1);
    assert_eq!(patterns[0].pattern_type, PatternType::TrustConcentration);
    assert_eq!(patterns[0].pattern_id, "trust_concentration");
    // a hand-built cycle is detected
    let mut c2 = populated_chain();
    let mut edge = c2.delegation_graph.edges[0].clone();
    edge.edge_id = "back_edge".to_owned();
    edge.from_node = "issuer1".to_owned();
    edge.to_node = "US".to_owned();
    c2.delegation_graph.edges.push(edge);
    let patterns = c2.detect_suspicious_patterns(&"US".to_owned()).unwrap();
    assert!(patterns.iter().any(|p| p.pattern_type == PatternType::CircularDelegation));
}
