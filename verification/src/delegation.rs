//! Entities and records of the hierarchical trust-delegation system:
//! the Foundation, origin wallets, credential issuers, individual
//! credentials, and the delegation graph that ties them together.
//!
//! Trust scores are in parts per million of 1; trust amounts and capacities
//! are unsigned 128-bit token quantities.

use vstd::prelude::*;

verus! {

/// Authority tiers of a trust authority.
#[derive(Debug, Clone, Copy, PartialEq, Eq, Structural)]
pub enum AuthorityLevel {
    Foundation,
    Regional,
    National,
    Local,
}

/// Compliance tiers of an origin wallet, from the weakest upward.
#[derive(Debug, Clone, Copy, PartialEq, Eq, Structural)]
pub enum ComplianceLevel {
    Basic,
    Enhanced,
    Institutional,
    Government,
    Military,
}

/// Role of a multisig signer of an origin wallet.
#[derive(Debug, Clone, Copy, PartialEq, Eq, Structural)]
pub enum SignerRole {
    Primary,
    Secondary,
    Emergency,
    Observer,
}

/// Kinds of know-your-customer verification.
#[allow(non_camel_case_types)]
#[derive(Debug, Clone, Copy, PartialEq, Eq, Structural)]
pub enum KYCType {
    IdentityVerification,
    AddressVerification,
    SourceOfFunds,
    PEP_Check,
    SanctionsCheck,
    BiometricVerification,
    ProfessionalVerification,
    EducationalVerification,
    FinancialVerification,
}

/// How a verification was performed.
#[allow(non_camel_case_types)]
#[derive(Debug, Clone, Copy, PartialEq, Eq, Structural)]
pub enum VerificationLevel {
    Self_Attestation,
    Document_Verification,
    Biometric_Verification,
    Third_Party_Verification,
    Government_Verification,
    Blockchain_Verification,
}

/// Kinds of credential issuers.
#[derive(Debug, Clone, Copy, PartialEq, Eq, Structural)]
pub enum IssuerType {
    Government,
    Financial,
    Educational,
    Corporate,
    NonProfit,
    Individual,
}

/// What a credential certifies.
#[derive(Debug, Clone)]
pub enum CredentialType {
    Identity,
    Address,
    SourceOfFunds,
    PEP_Status,
    SanctionsCheck,
    Biometric,
    Professional,
    Educational,
    Financial,
    Custom(String),
}

/// Depth of know-your-customer vetting behind a credential.
#[derive(Debug, Clone, Copy, PartialEq, Eq, Structural)]
pub enum KYCLevel {
    Basic,
    Intermediate,
    Advanced,
    Institutional,
    Government,
}

/// What a delegation confers.
#[derive(Debug, Clone, Copy, PartialEq, Eq, Structural)]
pub enum DelegationType {
    Trust,
    Governance,
    KYC,
    Compliance,
    Technical,
    Economic,
}

/// Hierarchy level of a delegation, derived from the delegator's role.
#[derive(Debug, Clone, Copy, PartialEq, Eq, Structural)]
pub enum DelegationLevel {
    /// Foundation to origin wallet.
    Level1,
    /// Origin wallet to issuer.
    Level2,
    /// Issuer to individual.
    Level3,
    /// Individual to individual.
    Level4,
}

/// Kind of a node in the delegation graph.
#[derive(Debug, Clone, Copy, PartialEq, Eq, Structural)]
pub enum NodeType {
    Foundation,
    OriginWallet,
    Issuer,
    Individual,
}

/// The singleton root of the trust hierarchy. Its trust score is one by
/// definition; after genesis only `is_active` may change.
#[derive(Debug, Clone)]
pub struct TrustAuthority {
    pub address: String,
    pub name: String,
    pub authority_level: AuthorityLevel,
    pub public_key: Vec<u8>,
    /// Signature the Foundation publishes over origin-wallet onboarding.
    pub signature: Vec<u8>,
    pub is_active: bool,
    pub created_at: u64,
}

/// A multisig signer of an origin wallet.
#[derive(Debug, Clone)]
pub struct Signer {
    pub address: String,
    pub name: String,
    pub role: SignerRole,
    pub public_key: Vec<u8>,
    pub is_active: bool,
    pub added_at: u64,
}

/// A know-your-customer capability an issuer offers.
#[derive(Debug, Clone)]
pub struct KYCCapability {
    pub capability_type: KYCType,
    pub verification_level: VerificationLevel,
    pub is_available: bool,
    pub cost: u128,
    /// Processing time in seconds.
    pub processing_time: u64,
}

/// A trust delegation from one entity to another.
#[derive(Debug)]
pub struct Delegation {
    pub delegation_id: String,
    pub delegator: String,
    pub delegate: String,
    pub delegation_type: DelegationType,
    pub trust_amount: u128,
    pub delegation_level: DelegationLevel,
    pub is_active: bool,
    pub created_at: u64,
    pub expires_at: Option<u64>,
    pub last_used: u64,
}

impl Clone for Delegation {
    /// Cloning a delegation preserves it exactly.
    fn clone(&self) -> (r: Self)
        ensures
            r == *self,
    {
        Delegation {
            delegation_id: self.delegation_id.clone(),
            delegator: self.delegator.clone(),
            delegate: self.delegate.clone(),
            delegation_type: self.delegation_type,
            trust_amount: self.trust_amount,
            delegation_level: self.delegation_level,
            is_active: self.is_active,
            created_at: self.created_at,
            expires_at: self.expires_at,
            last_used: self.last_used,
        }
    }
}

/// A country-level, multisig-controlled entity holding compliance authority
/// and stake for its jurisdiction. One per country code.
#[derive(Debug, Clone)]
pub struct OriginWallet {
    /// Unique key of the wallet.
    pub country_code: String,
    pub wallet_address: String,
    pub multisig_address: String,
    pub required_signatures: u8,
    pub total_signers: u8,
    pub signers: Vec<Signer>,
    pub stake_amount: u128,
    pub compliance_level: ComplianceLevel,
    pub veto_power: bool,
    pub delegation_capacity: u128,
    pub active_delegations: Vec<Delegation>,
    /// Trust score in parts per million of 1.
    pub trust_score: u64,
    pub is_active: bool,
    pub created_at: u64,
    pub last_activity: u64,
}

/// An entity empowered by an origin wallet to issue credentials.
#[derive(Debug, Clone)]
pub struct CredentialIssuer {
    /// Unique key of the issuer.
    pub issuer_id: String,
    pub name: String,
    pub organization: String,
    pub country_code: String,
    /// Back-reference to the owning origin wallet, by country code.
    pub origin_wallet: String,
    pub issuer_type: IssuerType,
    pub compliance_level: ComplianceLevel,
    pub kyc_capabilities: Vec<KYCCapability>,
    pub delegation_capacity: u128,
    pub active_delegations: Vec<Delegation>,
    /// Trust score in parts per million of 1.
    pub trust_score: u64,
    pub is_active: bool,
    pub created_at: u64,
    pub last_activity: u64,
}

/// Evidence attached to a credential.
#[derive(Debug, Clone)]
pub struct VerificationData {
    pub document_hash: [u8; 32],
    pub biometric_hash: Option<[u8; 32]>,
    pub verification_proof: Vec<u8>,
    /// Free-form metadata entries, keyed by name.
    pub metadata: Vec<(String, String)>,
    pub verification_timestamp: u64,
}

/// A credential minted by an issuer for an individual. Its delegation chain
/// is the path Foundation, origin wallet, issuer, individual; a chain needs
/// at least three entries to be verifiable.
#[derive(Debug, Clone)]
pub struct NFTCredential {
    pub token_id: u64,
    /// Unique key: the owner's address.
    pub owner: String,
    pub credential_type: CredentialType,
    pub issuer: String,
    pub delegation_chain: Vec<String>,
    pub kyc_level: KYCLevel,
    pub verification_data: VerificationData,
    /// Trust score in parts per million of 1.
    pub trust_score: u64,
    pub is_active: bool,
    pub issued_at: u64,
    pub expires_at: Option<u64>,
    pub last_verified: u64,
}

/// A node of the delegation graph.
#[derive(Debug, Clone)]
pub struct DelegationNode {
    pub node_id: String,
    pub node_type: NodeType,
    /// Trust score in parts per million of 1.
    pub trust_score: u64,
    pub delegation_capacity: u128,
    pub active_delegations: u32,
    pub is_active: bool,
}

/// A directed delegation edge of the graph.
#[derive(Debug, Clone)]
pub struct DelegationEdge {
    /// The id of the delegation the edge records.
    pub edge_id: String,
    pub from_node: String,
    pub to_node: String,
    pub trust_amount: u128,
    pub delegation_type: DelegationType,
    pub is_active: bool,
    pub created_at: u64,
}

/// A recorded trust flow along a delegation path.
#[derive(Debug, Clone)]
pub struct TrustFlow {
    /// Unique key of the flow: the id of the delegation behind it.
    pub flow_id: String,
    pub path: Vec<String>,
    pub total_trust: u128,
    /// Flow strength in parts per million of 1.
    pub flow_strength: u64,
    pub is_valid: bool,
    pub last_verified: u64,
}

/// The delegation graph: flat node, edge and flow tables. Every edge's
/// endpoints must exist as nodes.
#[derive(Debug, Clone)]
pub struct DelegationGraph {
    pub nodes: Vec<DelegationNode>,
    pub edges: Vec<DelegationEdge>,
    pub trust_flows: Vec<TrustFlow>,
}

} // verus!
