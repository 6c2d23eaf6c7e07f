//! The active-validator roster: per-validator stake, trust and activity
//! state, eligibility and quorum arithmetic.
//!
//! Validators are never physically removed; deactivation clears `is_active`
//! and takes the address off the active list.

use vstd::prelude::*;

use crate::errors::ConsensusError;
use crate::numeric::{ceil_div, PPM_SCALE};

verus! {

/// A registered validator.
#[derive(Debug, Clone)]
pub struct Validator {
    pub address: String,
    pub stake: u128,
    /// Trust score in parts per million of 1.
    pub trust_score: u64,
    /// Uptime share in parts per million of 1.
    pub uptime: u64,
    /// Commission rate in parts per million of 1.
    pub commission_rate: u64,
    pub is_active: bool,
    pub last_activity: u64,
    pub origin_wallet_country: Option<String>,
    pub kyc_verified: bool,
}

/// The validator roster together with epoch bookkeeping and the thresholds
/// of the consensus engine.
#[derive(Debug, Clone)]
pub struct ValidatorSet {
    pub validators: Vec<Validator>,
    /// Addresses of the currently active validators.
    pub active_validators: Vec<String>,
    pub epoch_duration: u64,
    pub current_epoch: u64,
    /// Minimum stake a validator needs to propose.
    pub stake_threshold: u128,
    /// Minimum trust score a validator needs, in parts per million.
    pub trust_threshold: u64,
    /// Fraction of active validators whose signatures a block needs, in
    /// parts per million; a true supermajority strictly above two thirds.
    pub signature_threshold: u64,
}

/// Whether some validator in `vs` has the given address.
pub open spec fn has_validator(vs: Seq<Validator>, addr: Seq<char>) -> bool {
    exists|i: int| 0 <= i < vs.len() && vs[i].address@ == addr
}

/// The index of the validator with the given address.
pub open spec fn validator_index(vs: Seq<Validator>, addr: Seq<char>) -> int {
    choose|i: int| 0 <= i < vs.len() && vs[i].address@ == addr
}

/// The number of required signatures for `active_count` active validators
/// under a signature threshold in parts per million: the ceiling of
/// `active_count * threshold`.
pub open spec fn spec_required_signatures(active_count: int, threshold_ppm: int) -> int {
    ceil_div(active_count * threshold_ppm, PPM_SCALE as int)
}

impl ValidatorSet {
    /// Well-formedness: addresses are unique, the active list holds exactly
    /// the addresses of the validators marked active, without duplicates,
    /// and the signature threshold is a fraction of 1.
    pub open spec fn wf(self) -> bool {
        &&& forall|i: int, j: int|
            0 <= i < j < self.validators@.len() ==> self.validators@[i].address@
                != self.validators@[j].address@
        &&& forall|i: int|
            0 <= i < self.validators@.len() ==> (#[trigger] self.validators@[i].is_active
                <==> self.active_view().contains(self.validators@[i].address@))
        &&& forall|k: int|
            0 <= k < self.active_view().len() ==> has_validator(
                self.validators@,
                #[trigger] self.active_view()[k],
            )
        &&& self.active_view().no_duplicates()
        &&& self.signature_threshold <= PPM_SCALE
    }

    /// The active list as a sequence of address views.
    pub open spec fn active_view(self) -> Seq<Seq<char>> {
        self.active_validators@.map_values(|a: String| a@)
    }

    /// Whether the validator with the given address may propose: registered,
    /// active, with enough stake and enough trust.
    pub open spec fn spec_is_eligible(self, addr: Seq<char>) -> bool {
        exists|i: int|
            0 <= i < self.validators@.len() && {
                let v = #[trigger] self.validators@[i];
                &&& v.address@ == addr
                &&& v.is_active
                &&& v.stake >= self.stake_threshold
                &&& v.trust_score >= self.trust_threshold
            }
    }

    /// An empty roster with the given thresholds.
    pub fn new(
        epoch_duration: u64,
        stake_threshold: u128,
        trust_threshold: u64,
        signature_threshold: u64,
    ) -> (r: ValidatorSet)
        requires
            signature_threshold <= PPM_SCALE,
        ensures
            r.wf(),
            r.validators@.len() == 0,
            r.active_validators@.len() == 0,
            r.epoch_duration == epoch_duration,
            r.current_epoch == 0,
            r.stake_threshold == stake_threshold,
            r.trust_threshold == trust_threshold,
            r.signature_threshold == signature_threshold,
    {
        ValidatorSet {
            validators: Vec::new(),
            active_validators: Vec::new(),
            epoch_duration,
            current_epoch: 0,
            stake_threshold,
            trust_threshold,
            signature_threshold,
        }
    }

    /// Find the index of the validator with the given address.
    pub(crate) fn find_validator(&self, address: &String) -> (r: Option<usize>)
        ensures
            match r {
                Some(i) => i < self.validators@.len() && self.validators@[i as int].address@
                    == address@,
                None => !has_validator(self.validators@, address@),
            },
    {
        let mut i: usize = 0;
        while i < self.validators.len()
            invariant
                i <= self.validators@.len(),
                forall|k: int| 0 <= k < i ==> self.validators@[k].address@ != address@,
            decreases self.validators@.len() - i,
        {
            if self.validators[i].address == *address {
                return Some(i);
            }
            i += 1;
        }
        None
    }

    /// Register a new validator. A second validator with an address already
    /// on the roster is refused as an internal error, and nothing changes.
    pub fn register(&mut self, v: Validator) -> (r: Result<(), ConsensusError>)
        requires
            old(self).wf(),
        ensures
            final(self).wf(),
            has_validator(old(self).validators@, v.address@) ==> r
                == Err::<(), ConsensusError>(ConsensusError::InternalError) && *final(self)
                == *old(self),
            !has_validator(old(self).validators@, v.address@) ==> {
                &&& r is Ok
                &&& final(self).validators@ == old(self).validators@.push(v)
                &&& final(self).active_view() == if v.is_active {
                    old(self).active_view().push(v.address@)
                } else {
                    old(self).active_view()
                }
                &&& *final(self) == (ValidatorSet {
                    validators: final(self).validators,
                    active_validators: final(self).active_validators,
                    ..*old(self)
                })
            },
    {
        if self.find_validator(&v.address).is_some() {
            return Err(ConsensusError::InternalError);
        }
        let ghost pre = *self;
        let is_active = v.is_active;
        let ghost addr = v.address@;
        if is_active {
            let address = v.address.clone();
            self.validators.push(v);
            self.active_validators.push(address);
        } else {
            self.validators.push(v);
        }
        proof {
            let post = *self;
            assert(post.validators@ =~= pre.validators@.push(v));
            if is_active {
                assert(post.active_view() =~= pre.active_view().push(addr));
            } else {
                assert(post.active_view() =~= pre.active_view());
            }
            assert(!has_validator(pre.validators@, addr));
            assert forall|i: int|
                0 <= i < pre.validators@.len() implies #[trigger] pre.validators@[i].address@
                != addr by {
                assert(!(exists|j: int|
                    0 <= j < pre.validators@.len() && pre.validators@[j].address@ == addr));
            }
            assert(!pre.active_view().contains(addr)) by {
                if pre.active_view().contains(addr) {
                    let k = choose|k: int|
                        0 <= k < pre.active_view().len() && pre.active_view()[k] == addr;
                    assert(has_validator(pre.validators@, pre.active_view()[k]));
                }
            }
            assert forall|x: Seq<char>| #[trigger] post.active_view().contains(x)
                implies pre.active_view().contains(x) || (is_active && x == addr) by {
                let k = choose|k: int|
                    0 <= k < post.active_view().len() && post.active_view()[k] == x;
                if k < pre.active_view().len() {
                    assert(pre.active_view()[k] == x);
                }
            }
            assert forall|i: int|
                0 <= i < post.validators@.len() implies (#[trigger] post.validators@[i].is_active
                <==> post.active_view().contains(post.validators@[i].address@)) by {
                if i < pre.validators@.len() {
                    assert(post.validators@[i] == pre.validators@[i]);
                    assert(pre.validators@[i].is_active <==> pre.active_view().contains(
                        pre.validators@[i].address@,
                    ));
                    if pre.active_view().contains(pre.validators@[i].address@) {
                        let k = choose|k: int|
                            0 <= k < pre.active_view().len() && pre.active_view()[k]
                                == pre.validators@[i].address@;
                        assert(post.active_view()[k] == pre.validators@[i].address@);
                    }
                } else {
                    assert(post.validators@[i] == v);
                    if is_active {
                        assert(post.active_view()[pre.active_view().len() as int] == addr);
                    }
                }
            }
            assert forall|k: int|
                0 <= k < post.active_view().len() implies has_validator(
                post.validators@,
                #[trigger] post.active_view()[k],
            ) by {
                if k < pre.active_view().len() {
                    assert(pre.active_view()[k] == post.active_view()[k]);
                    assert(has_validator(pre.validators@, pre.active_view()[k]));
                    let j = choose|j: int|
                        0 <= j < pre.validators@.len() && pre.validators@[j].address@
                            == pre.active_view()[k];
                    assert(post.validators@[j].address@ == post.active_view()[k]);
                } else {
                    assert(post.validators@[pre.validators@.len() as int].address@ == addr);
                }
            }
        }
        Ok(())
    }

    /// Deactivate the validator with the given address: clear its active
    /// flag and remove its address from the active list. Reports whether the
    /// address was on the roster; an unknown address changes nothing.
    pub fn deactivate(&mut self, address: &String) -> (found: bool)
        requires
            old(self).wf(),
        ensures
            final(self).wf(),
            found == has_validator(old(self).validators@, address@),
            !found ==> *final(self) == *old(self),
            found ==> {
                let i = validator_index(old(self).validators@, address@);
                &&& final(self).validators@ == old(self).validators@.update(
                    i,
                    Validator { is_active: false, ..old(self).validators@[i] },
                )
                &&& final(self).active_view().no_duplicates()
                &&& forall|a: Seq<char>|
                    final(self).active_view().contains(a) <==> old(self).active_view().contains(a)
                        && a != address@
                &&& *final(self) == (ValidatorSet {
                    validators: final(self).validators,
                    active_validators: final(self).active_validators,
                    ..*old(self)
                })
            },
    {
        let idx = match self.find_validator(address) {
            Some(i) => i,
            None => {
                return false;
            },
        };
        let ghost pre = *self;
        let ghost addr = address@;
        proof {
            assert(pre.validators@[idx as int].address@ == addr);
            assert(validator_index(pre.validators@, addr) == idx as int);
        }
        self.validators[idx].is_active = false;
        let mut kept: Vec<String> = Vec::new();
        let mut k: usize = 0;
        while k < self.active_validators.len()
            invariant
                k <= self.active_validators@.len(),
                self.active_validators@ == pre.active_validators@,
                addr == address@,
                pre.active_view().no_duplicates(),
                kept@.map_values(|a: String| a@).no_duplicates(),
                forall|a: Seq<char>|
                    kept@.map_values(|x: String| x@).contains(a) <==> pre.active_view().take(
                        k as int,
                    ).contains(a) && a != addr,
            decreases self.active_validators@.len() - k,
        {
            let ghost kept_pre = kept@.map_values(|x: String| x@);
            let ghost cur = pre.active_view()[k as int];
            proof {
                assert forall|a: Seq<char>| #[trigger] pre.active_view().take(k + 1).contains(a)
                    implies pre.active_view().take(k as int).contains(a) || a == cur by {
                    let j = choose|j: int|
                        0 <= j < k + 1 && #[trigger] pre.active_view().take(k + 1)[j] == a;
                    if j < k {
                        assert(pre.active_view().take(k as int)[j] == a);
                    }
                }
                assert forall|a: Seq<char>|
                    pre.active_view().take(k as int).contains(a) || a == cur
                    implies #[trigger] pre.active_view().take(k + 1).contains(a) by {
                    if pre.active_view().take(k as int).contains(a) {
                        let j = choose|j: int|
                            0 <= j < k && #[trigger] pre.active_view().take(k as int)[j] == a;
                        assert(pre.active_view().take(k + 1)[j] == a);
                    } else {
                        assert(pre.active_view().take(k + 1)[k as int] == a);
                    }
                }
                assert(!pre.active_view().take(k as int).contains(cur)) by {
                    if pre.active_view().take(k as int).contains(cur) {
                        let j = choose|j: int|
                            0 <= j < k && #[trigger] pre.active_view().take(k as int)[j] == cur;
                        assert(pre.active_view()[j] == pre.active_view()[k as int]);
                    }
                }
            }
            if !(self.active_validators[k] == *address) {
                let a = self.active_validators[k].clone();
                kept.push(a);
                proof {
                    assert(kept@.map_values(|x: String| x@) =~= kept_pre.push(cur));
                    assert forall|a: Seq<char>|
                        #[trigger] kept_pre.push(cur).contains(a) implies kept_pre.contains(a)
                        || a == cur by {
                        let j = choose|j: int|
                            0 <= j < kept_pre.push(cur).len() && #[trigger] kept_pre.push(cur)[j] == a;
                        if j < kept_pre.len() {
                            assert(kept_pre[j] == a);
                        }
                    }
                    assert forall|a: Seq<char>| kept_pre.contains(a) || a == cur
                        implies #[trigger] kept_pre.push(cur).contains(a) by {
                        if kept_pre.contains(a) {
                            let j = choose|j: int| 0 <= j < kept_pre.len() && #[trigger] kept_pre[j] == a;
                            assert(kept_pre.push(cur)[j] == a);
                        } else {
                            assert(kept_pre.push(cur)[kept_pre.len() as int] == a);
                        }
                    }
                    assert(!kept_pre.contains(cur));
                }
            }
            k += 1;
        }
        proof {
            assert(pre.active_view().take(pre.active_view().len() as int) == pre.active_view());
        }
        self.active_validators = kept;
        proof {
            let post = *self;
            let i = idx as int;
            assert(post.validators@ == pre.validators@.update(
                i,
                Validator { is_active: false, ..pre.validators@[i] },
            ));
            assert forall|a: Seq<char>| post.active_view().contains(a)
                <==> pre.active_view().contains(a) && a != addr by {}
            assert forall|i2: int|
                0 <= i2 < post.validators@.len() implies (#[trigger] post.validators@[i2].is_active
                <==> post.active_view().contains(post.validators@[i2].address@)) by {
                if i2 != i {
                    let a2 = pre.validators@[i2].address@;
                    assert(pre.validators@[i].address@ == addr);
                    assert(a2 != pre.validators@[i].address@);
                    assert(post.validators@[i2] == pre.validators@[i2]);
                    assert(pre.validators@[i2].is_active <==> pre.active_view().contains(a2));
                } else {
                    assert(post.validators@[i2].address@ == addr);
                    assert(!post.validators@[i2].is_active);
                }
            }
            assert forall|k2: int|
                0 <= k2 < post.active_view().len() implies has_validator(
                post.validators@,
                #[trigger] post.active_view()[k2],
            ) by {
                assert(post.active_view().contains(post.active_view()[k2]));
                assert(pre.active_view().contains(post.active_view()[k2]));
                let j = choose|j: int|
                    0 <= j < pre.active_view().len() && pre.active_view()[j]
                        == post.active_view()[k2];
                assert(has_validator(pre.validators@, pre.active_view()[j]));
                let v = choose|v: int|
                    0 <= v < pre.validators@.len() && pre.validators@[v].address@
                        == pre.active_view()[j];
                assert(post.validators@[v].address@ == post.active_view()[k2]);
            }
        }
        true
    }

    /// Update the stake of the validator with the given address. Reports
    /// whether the address was on the roster; an unknown address changes
    /// nothing.
    pub fn update_stake(&mut self, address: &String, new_stake: u128) -> (found: bool)
        requires
            old(self).wf(),
        ensures
            final(self).wf(),
            found == has_validator(old(self).validators@, address@),
            !found ==> *final(self) == *old(self),
            found ==> {
                let i = validator_index(old(self).validators@, address@);
                &&& final(self).validators@ == old(self).validators@.update(
                    i,
                    Validator { stake: new_stake, ..old(self).validators@[i] },
                )
                &&& *final(self) == (ValidatorSet {
                    validators: final(self).validators,
                    ..*old(self)
                })
            },
    {
        let idx = match self.find_validator(address) {
            Some(i) => i,
            None => {
                return false;
            },
        };
        let ghost pre = *self;
        proof {
            assert(validator_index(pre.validators@, address@) == idx as int);
        }
        self.validators[idx].stake = new_stake;
        proof {
            let post = *self;
            let i = idx as int;
            assert forall|i2: int|
                0 <= i2 < post.validators@.len() implies (#[trigger] post.validators@[i2].is_active
                <==> post.active_view().contains(post.validators@[i2].address@)) by {
                assert(post.validators@[i2].address@ == pre.validators@[i2].address@);
                assert(post.validators@[i2].is_active == pre.validators@[i2].is_active);
                assert(pre.validators@[i2].is_active <==> pre.active_view().contains(
                    pre.validators@[i2].address@,
                ));
            }
            assert forall|k2: int|
                0 <= k2 < post.active_view().len() implies has_validator(
                post.validators@,
                #[trigger] post.active_view()[k2],
            ) by {
                assert(has_validator(pre.validators@, pre.active_view()[k2]));
                let j = choose|j: int|
                    0 <= j < pre.validators@.len() && pre.validators@[j].address@
                        == pre.active_view()[k2];
                assert(post.validators@[j].address@ == post.active_view()[k2]);
            }
        }
        true
    }

    /// How many validators are currently active.
    pub fn active_validator_count(&self) -> (r: usize)
        ensures
            r == self.active_validators@.len(),
    {
        self.active_validators.len()
    }

    /// Whether the validator with the given address is eligible to propose:
    /// registered, active, stake at or above the stake threshold and trust
    /// score at or above the trust threshold.
    pub fn is_eligible(&self, address: &String) -> (r: bool)
        requires
            self.wf(),
        ensures
            r == self.spec_is_eligible(address@),
    {
        match self.find_validator(address) {
            Some(i) => {
                let v = &self.validators[i];
                v.is_active && v.stake >= self.stake_threshold && v.trust_score
                    >= self.trust_threshold
            },
            None => false,
        }
    }
}

/// Under a signature threshold strictly above two thirds, the required
/// signature count is a true supermajority: for any positive count of
/// active validators, three times the required signatures exceed twice the
/// validator count.
pub proof fn lemma_required_signatures_supermajority(n: int, threshold_ppm: int)
    requires
        n >= 1,
        3 * threshold_ppm > 2 * (PPM_SCALE as int),
    ensures
        3 * spec_required_signatures(n, threshold_ppm) > 2 * n,
{
    let p = PPM_SCALE as int;
    let a = n * threshold_ppm;
    let r = spec_required_signatures(n, threshold_ppm);
    assert(r == (a + p - 1) / p);
    assert(p * ((a + p - 1) / p) >= a) by (nonlinear_arith)
        requires
            p > 0,
    ;
    assert(3 * a > 2 * n * p) by (nonlinear_arith)
        requires
            n >= 1,
            3 * threshold_ppm > 2 * p,
            a == n * threshold_ppm,
    ;
    assert(3 * r > 2 * n) by (nonlinear_arith)
        requires
            p > 0,
            p * r >= a,
            3 * a > 2 * n * p,
    ;
}

/// How many validator signatures a block needs for `active_count` active
/// validators: the ceiling of `active_count * threshold`, for a threshold
/// given in parts per million.
pub fn required_signatures(active_count: usize, threshold_ppm: u64) -> (r: usize)
    requires
        threshold_ppm <= PPM_SCALE,
    ensures
        r == spec_required_signatures(active_count as int, threshold_ppm as int),
        r <= active_count,
{
    let n: u128 = active_count as u128;
    let t: u128 = threshold_ppm as u128;
    let p: u128 = PPM_SCALE as u128;
    proof {
        let ni = n as int;
        let ti = t as int;
        let pi = p as int;
        assert(ni * ti <= ni * pi) by (nonlinear_arith)
            requires
                ti <= pi,
                ni >= 0,
        ;
        assert((ni * pi + (pi - 1)) / pi == ni) by (nonlinear_arith)
            requires
                pi > 0,
                ni >= 0,
        ;
        assert((ni * ti + (pi - 1)) / pi <= (ni * pi + (pi - 1)) / pi) by (nonlinear_arith)
            requires
                ni * ti <= ni * pi,
                pi > 0,
        ;
    }
    let required: u128 = (n * t + (p - 1)) / p;
    required as usize
}

} // verus!
