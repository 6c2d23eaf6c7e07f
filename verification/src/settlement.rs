//! Dual-chain edge settlement: when a pending batch of edge channels should
//! settle, and to which chain the settlement goes.

use vstd::prelude::*;

verus! {

/// Where a settlement batch goes: the main chain, the privacy chain, or
/// both under a split ratio in parts per million.
#[derive(Debug, Clone)]
pub enum SettlementTarget {
    Mainnet(String),
    Privacy(String),
    Both { mainnet: String, privacy: String, split_ratio: u64 },
}

/// A pending batch of edge channels awaiting settlement.
#[derive(Debug, Clone)]
pub struct SettlementBatch {
    pub channel_ids: Vec<String>,
    pub total_value: u128,
    pub urgent: bool,
}

/// The outcome of a settlement: which chain transactions were submitted.
#[derive(Debug, Clone)]
pub struct SettlementResult {
    pub target: SettlementTarget,
    pub mainnet_tx: Option<String>,
    pub privacy_tx: Option<String>,
}

/// The adaptive batching policy.
#[derive(Debug, Clone)]
pub struct AdaptiveBatchConfig {
    /// Settle once this many channels are pending.
    pub min_batch_size: usize,
    /// Settle after waiting this many seconds.
    pub max_wait_secs: u64,
    /// Settle once this much value is pending.
    pub value_threshold: u128,
    /// Capacity share that forces a settlement, in parts per million.
    pub capacity_threshold: u64,
}

impl Default for AdaptiveBatchConfig {
    /// The default batching policy.
    fn default() -> (r: Self)
        ensures
            r.min_batch_size == 100,
            r.max_wait_secs == 600,
            r.value_threshold == 1_000_000,
            r.capacity_threshold == 800_000,
    {
        AdaptiveBatchConfig {
            min_batch_size: 100,
            max_wait_secs: 600,
            value_threshold: 1_000_000,
            capacity_threshold: 800_000,
        }
    }
}

/// Whether a pending batch should settle now: urgency, batch size, waiting
/// time or pending value force a settlement.
pub open spec fn spec_should_settle(
    config: AdaptiveBatchConfig,
    pending: SettlementBatch,
    seconds_since_last: u64,
) -> bool {
    ||| pending.urgent
    ||| pending.channel_ids@.len() >= config.min_batch_size
    ||| seconds_since_last >= config.max_wait_secs
    ||| pending.total_value >= config.value_threshold
}

/// The dual-chain edge settlement engine.
pub struct DualChainEdgeSettlement {
    pub config: AdaptiveBatchConfig,
}

impl DualChainEdgeSettlement {
    /// An engine with the given policy, or the default one.
    pub fn new(config: Option<AdaptiveBatchConfig>) -> (r: DualChainEdgeSettlement)
        ensures
            match config {
                Option::Some(c) => r.config == c,
                Option::None => {
                    &&& r.config.min_batch_size == 100
                    &&& r.config.max_wait_secs == 600
                    &&& r.config.value_threshold == 1_000_000
                    &&& r.config.capacity_threshold == 800_000
                },
            },
    {
        match config {
            Some(c) => DualChainEdgeSettlement { config: c },
            None => DualChainEdgeSettlement { config: AdaptiveBatchConfig::default() },
        }
    }

    /// Decide whether to settle the current pending batch.
    pub fn should_settle(&self, pending: &SettlementBatch, seconds_since_last: u64) -> (r: bool)
        ensures
            r == spec_should_settle(self.config, *pending, seconds_since_last),
    {
        if pending.urgent {
            return true;
        }
        if pending.channel_ids.len() >= self.config.min_batch_size {
            return true;
        }
        if seconds_since_last >= self.config.max_wait_secs {
            return true;
        }
        pending.total_value >= self.config.value_threshold
    }

    /// Perform settlement to the specified target: a main-chain transaction
    /// for main-chain targets, a privacy-chain transaction for privacy
    /// targets, and one of each when settling to both.
    pub fn settle(&self, _pending: &SettlementBatch, target: SettlementTarget) -> (r:
        SettlementResult)
        ensures
            r.target == target,
            r.mainnet_tx is Some <==> (target is Mainnet || target is Both),
            r.privacy_tx is Some <==> (target is Privacy || target is Both),
            r.mainnet_tx is Some ==> r.mainnet_tx->0@ == "mainnet_tx_hash"@,
            r.privacy_tx is Some ==> r.privacy_tx->0@ == "privacy_tx_hash"@,
    {
        match &target {
            SettlementTarget::Mainnet(_) => SettlementResult {
                target,
                mainnet_tx: Some("mainnet_tx_hash".to_owned()),
                privacy_tx: None,
            },
            SettlementTarget::Privacy(_) => SettlementResult {
                target,
                mainnet_tx: None,
                privacy_tx: Some("privacy_tx_hash".to_owned()),
            },
            SettlementTarget::Both { .. } => SettlementResult {
                target,
                mainnet_tx: Some("mainnet_tx_hash".to_owned()),
                privacy_tx: Some("privacy_tx_hash".to_owned()),
            },
        }
    }
}

} // verus!
