//! Error taxonomies of the consensus core and the trust-delegation layer.
//!
//! Neither kind of error is recoverable by retrying within a single
//! validation pass; a retry only makes sense after external state changes.

use vstd::prelude::*;

verus! {

/// Consensus-level failures. `InternalError` marks an invariant violation in
/// the core itself (a bug, not an adversarial block) and is surfaced, never
/// swallowed.
#[derive(Debug, Clone, PartialEq, Eq, Structural)]
pub enum ConsensusError {
    InvalidBlock,
    InvalidSignature,
    InsufficientStake,
    TrustScoreTooLow,
    EnvironmentalDataInvalid,
    ComplianceFailure,
    SuspiciousActivity,
    NetworkError,
    InternalError,
}

/// Trust-level failures raised by delegation-graph operations.
#[derive(Debug, Clone, PartialEq, Eq, Structural)]
pub enum TrustError {
    InsufficientTrustCapacity,
    SuspiciousActivity,
    InvalidDelegation,
    CircularDelegation,
    TrustFlowInvalid,
    EntityNotFound,
    DelegationNotFound,
    SignatureInvalid,
    NetworkError,
    InternalError,
}

} // verus!
