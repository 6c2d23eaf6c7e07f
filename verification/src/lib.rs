//! Trust-weighted block-validation core for a delegated-proof-of-stake chain.
//!
//! The library combines validator-signature quorum checks, a hierarchical
//! trust-delegation graph with per-entity trust scores, environmental-data
//! sanity checks and compliance gating into a single accept/reject decision
//! for a proposed block, and computes the resulting reward split.
//!
//! Fractional quantities (trust scores, thresholds, multipliers) are carried
//! as fixed-point integers in parts per million, so that every formula in the
//! crate is exact integer arithmetic.

pub mod antigaming;
pub mod block;
pub mod bridge;
pub mod chain;
pub mod compliance;
pub mod consensus;
pub mod delegation;
pub mod environment;
pub mod errors;
pub mod numeric;
pub mod rewards;
pub mod settlement;
pub mod tokenomics;
pub mod validator;
