//! Blocks, headers, transactions and their attached signatures.
//!
//! Signature byte strings are opaque to this core beyond scheme
//! identification. Environmental figures are fixed-point integers: the
//! carbon footprint is in thousandths of a carbon unit (so `500_000` stands
//! for a footprint of 500.0 on the 0..=1000 scale), and the renewable-energy
//! share and environmental score are in parts per million.

use vstd::prelude::*;

verus! {

/// A validator's signature over a block header.
#[derive(Debug, Clone)]
pub struct ValidatorSignature {
    pub validator_id: String,
    pub signature: Vec<u8>,
    pub timestamp: u64,
}

/// The signature bundle attached to a transaction: the quantum-resistant
/// primary signature and the signer's public key.
#[derive(Debug, Clone)]
pub struct TransactionSignature {
    pub dilithium_signature: Vec<u8>,
    pub public_key: Vec<u8>,
}

/// A transfer inside a block.
#[derive(Debug, Clone)]
pub struct Transaction {
    pub from: String,
    pub to: String,
    pub amount: u128,
    pub fee: u128,
    pub nonce: u64,
    pub signature: TransactionSignature,
}

/// Environmental-impact data attached to a block.
#[derive(Debug, Clone)]
pub struct EnvironmentalData {
    /// Carbon footprint in thousandths of a unit; valid range 0..=1_000_000
    /// (that is, 0.0..=1000.0 units).
    pub carbon_footprint: u64,
    /// Share of renewable energy, in parts per million of 1.
    pub renewable_energy_usage: u64,
    /// Declared environmental score, in parts per million of 1.
    pub environmental_score: u64,
    /// When the data was last refreshed, seconds since the epoch.
    pub last_updated: u64,
}

/// A block header.
#[derive(Debug, Clone)]
pub struct BlockHeader {
    pub height: u64,
    pub timestamp: u64,
    pub previous_hash: [u8; 32],
    pub merkle_root: [u8; 32],
    pub proposer: Option<String>,
    pub validator_signatures: Vec<ValidatorSignature>,
    /// Quantum-resistant signature over the header.
    pub dilithium_signature: Vec<u8>,
}

/// A proposed block.
#[derive(Debug, Clone)]
pub struct Block {
    pub header: BlockHeader,
    pub transactions: Vec<Transaction>,
    pub environmental_data: Option<EnvironmentalData>,
}

} // verus!
