//! Peg verification and cross-chain transfer checks for the two-chain bridge.
//!
//! The oracle confirms that the amount locked on the main chain matches the
//! amount circulating on the privacy chain one for one, that a transfer has
//! enough distinct multisig approvals, and that it has enough confirmations.

use vstd::prelude::*;

verus! {

/// Outcome of a peg integrity check: the two sides either match exactly or
/// the peg is violated.
#[derive(Debug, Clone, PartialEq, Eq, Structural)]
pub enum PegStatus {
    Healthy { locked_mainnet: u128, circulating_privacy: u128 },
    Violation { locked_mainnet: u128, circulating_privacy: u128 },
}

/// Reasons a bridge operation is refused.
#[derive(Debug, Clone, PartialEq, Eq, Structural)]
pub enum BridgeError {
    PegViolation,
    InsufficientConfirmations,
    MultisigThresholdNotMet,
    InvalidAmount,
}

/// Bridge oracle parameters.
#[derive(Debug, Clone)]
pub struct BridgeParams {
    /// How many distinct validator approvals a transfer needs.
    pub multisig_threshold: usize,
    /// How many block confirmations a transfer needs before mint or burn.
    pub required_confirmations: u32,
}

/// Bridge oracle between the main chain and the privacy chain.
#[derive(Debug, Clone)]
pub struct BridgeOracle {
    /// Validator addresses trusted to approve transfers.
    pub validators: Vec<String>,
    /// Address where tokens are locked on the main chain.
    pub mainnet_vault: String,
    /// Address where tokens are minted on the privacy chain.
    pub privacy_mint: String,
    pub params: BridgeParams,
}

/// How many distinct approver addresses a list of approvals contains.
pub open spec fn distinct_approvals(approvals: Seq<String>) -> nat {
    approvals.map_values(|a: String| a@).to_set().len()
}

/// The outcome every bridge transfer check yields for the given inputs:
/// a zero amount, too few confirmations and a missed multisig threshold are
/// rejected in that order, and an accepted transfer reports the peg status
/// of the post-transfer balances.
pub open spec fn spec_bridge_outcome(
    oracle: BridgeOracle,
    amount: u128,
    mainnet_locked_after: u128,
    privacy_circulating_after: u128,
    approvals: Seq<String>,
    confirmations: u32,
) -> Result<PegStatus, BridgeError> {
    if amount == 0 {
        Err(BridgeError::InvalidAmount)
    } else if confirmations < oracle.params.required_confirmations {
        Err(BridgeError::InsufficientConfirmations)
    } else if distinct_approvals(approvals) < oracle.params.multisig_threshold {
        Err(BridgeError::MultisigThresholdNotMet)
    } else if mainnet_locked_after == privacy_circulating_after {
        Ok(PegStatus::Healthy {
            locked_mainnet: mainnet_locked_after,
            circulating_privacy: privacy_circulating_after,
        })
    } else {
        Ok(PegStatus::Violation {
            locked_mainnet: mainnet_locked_after,
            circulating_privacy: privacy_circulating_after,
        })
    }
}

impl BridgeOracle {
    /// Verify one-to-one peg integrity between the locked and circulating
    /// amounts.
    pub fn verify_peg(&self, locked_mainnet: u128, circulating_privacy: u128) -> (r: PegStatus)
        ensures
            locked_mainnet == circulating_privacy ==> r == (PegStatus::Healthy {
                locked_mainnet,
                circulating_privacy,
            }),
            locked_mainnet != circulating_privacy ==> r == (PegStatus::Violation {
                locked_mainnet,
                circulating_privacy,
            }),
    {
        if locked_mainnet == circulating_privacy {
            PegStatus::Healthy { locked_mainnet, circulating_privacy }
        } else {
            PegStatus::Violation { locked_mainnet, circulating_privacy }
        }
    }

    /// Verify that the distinct approvals meet the multisig threshold.
    pub fn verify_multisig(&self, approvals: &[String]) -> (r: Result<(), BridgeError>)
        ensures
            r is Ok <==> distinct_approvals(approvals@) >= self.params.multisig_threshold,
            r is Err ==> r->Err_0 == BridgeError::MultisigThresholdNotMet,
    {
        let ghost all = approvals@.map_values(|a: String| a@);
        let mut seen: Vec<String> = Vec::new();
        let mut i: usize = 0;
        while i < approvals.len()
            invariant
                i <= approvals.len(),
                all == approvals@.map_values(|a: String| a@),
                seen@.map_values(|a: String| a@).no_duplicates(),
                seen@.map_values(|a: String| a@).to_set() == all.take(i as int).to_set(),
            decreases approvals.len() - i,
        {
            let ghost pre = seen@.map_values(|a: String| a@);
            let ghost cur = approvals@[i as int]@;
            let mut found = false;
            let mut j: usize = 0;
            while j < seen.len()
                invariant
                    i < approvals.len(),
                    j <= seen.len(),
                    cur == approvals@[i as int]@,
                    pre == seen@.map_values(|a: String| a@),
                    found <==> exists|k: int| 0 <= k < j && pre[k] == cur,
                decreases seen.len() - j,
            {
                proof {
                    assert(pre[j as int] == seen@[j as int]@);
                }
                if seen[j] == approvals[i] {
                    found = true;
                }
                j += 1;
            }
            proof {
                assert(found <==> pre.contains(cur));
                assert(all.take(i + 1) =~= all.take(i as int).push(cur));
                assert(all.take(i + 1).to_set() =~= all.take(i as int).to_set().insert(cur))
                    by {
                    assert forall|x: Seq<char>| all.take(i + 1).contains(x)
                        implies all.take(i as int).to_set().insert(cur).contains(x) by {
                        let k = choose|k: int|
                            0 <= k < all.take(i + 1).len() && #[trigger] all.take(i + 1)[k] == x;
                        if k < i {
                            assert(all.take(i as int)[k] == x);
                        }
                    }
                    assert forall|x: Seq<char>|
                        all.take(i as int).to_set().insert(cur).contains(x)
                        implies all.take(i + 1).to_set().contains(x) by {
                        if all.take(i as int).contains(x) {
                            let k = choose|k: int|
                                0 <= k < all.take(i as int).len() && #[trigger] all.take(i as int)[k] == x;
                            assert(all.take(i + 1)[k] == x);
                        } else {
                            assert(all.take(i + 1)[i as int] == cur);
                        }
                    }
                }
            }
            if !found {
                let a = &approvals[i];
                seen.push(a.clone());
                proof {
                    assert(seen@.map_values(|a: String| a@) =~= pre.push(cur));
                    pre.lemma_push_to_set_commute(cur);
                }
            } else {
                proof {
                    assert(all.take(i as int).to_set().insert(cur)
                        =~= all.take(i as int).to_set());
                }
            }
            i += 1;
        }
        proof {
            assert(all.take(approvals@.len() as int) == all);
            seen@.map_values(|a: String| a@).unique_seq_to_set();
        }
        if seen.len() >= self.params.multisig_threshold {
            Ok(())
        } else {
            Err(BridgeError::MultisigThresholdNotMet)
        }
    }

    /// Bridge a transfer from the main chain to the privacy chain.
    pub fn bridge_to_privacy(
        &self,
        amount: u128,
        mainnet_locked_after: u128,
        privacy_circulating_after: u128,
        approvals: &[String],
        confirmations: u32,
    ) -> (r: Result<PegStatus, BridgeError>)
        ensures
            r == spec_bridge_outcome(
                *self,
                amount,
                mainnet_locked_after,
                privacy_circulating_after,
                approvals@,
                confirmations,
            ),
    {
        if amount == 0 {
            return Err(BridgeError::InvalidAmount);
        }
        if confirmations < self.params.required_confirmations {
            return Err(BridgeError::InsufficientConfirmations);
        }
        match self.verify_multisig(approvals) {
            Ok(()) => Ok(self.verify_peg(mainnet_locked_after, privacy_circulating_after)),
            Err(e) => Err(e),
        }
    }

    /// Bridge a transfer from the privacy chain back to the main chain.
    pub fn bridge_to_mainnet(
        &self,
        amount: u128,
        mainnet_locked_after: u128,
        privacy_circulating_after: u128,
        approvals: &[String],
        confirmations: u32,
    ) -> (r: Result<PegStatus, BridgeError>)
        ensures
            r == spec_bridge_outcome(
                *self,
                amount,
                mainnet_locked_after,
                privacy_circulating_after,
                approvals@,
                confirmations,
            ),
    {
        if amount == 0 {
            return Err(BridgeError::InvalidAmount);
        }
        if confirmations < self.params.required_confirmations {
            return Err(BridgeError::InsufficientConfirmations);
        }
        match self.verify_multisig(approvals) {
            Ok(()) => Ok(self.verify_peg(mainnet_locked_after, privacy_circulating_after)),
            Err(e) => Err(e),
        }
    }
}

} // verus!
