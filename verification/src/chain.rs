//! The hierarchical trust-delegation chain: Foundation, origin wallets,
//! issuers and individuals, the delegation graph over them, and the
//! operations that create, revoke, score and verify delegations.

use vstd::prelude::*;

use crate::antigaming::{
    AntiGamingSystem, PatternType, Severity, SuspiciousPattern, CIRCULAR_SCAN_DEPTH,
    EXCESSIVE_TRUST_AMOUNT, RAPID_DELEGATION_WINDOW_SECS, SYBIL_FANOUT_LIMIT,
};
use crate::delegation::{
    AuthorityLevel, CredentialIssuer, Delegation, DelegationEdge, DelegationGraph,
    DelegationLevel, DelegationNode, DelegationType, NFTCredential, NodeType, OriginWallet,
    TrustAuthority, TrustFlow,
};
use crate::errors::TrustError;
use crate::numeric::PPM_SCALE;

verus! {

/// Minimum flow strength a delegation chain needs, in parts per million.
pub const MIN_FLOW_STRENGTH_PPM: u64 = 500_000;

/// The trust-delegation chain: the Foundation root, the entity registries,
/// the delegation graph and the anti-gaming bookkeeping.
pub struct TrustDelegationChain {
    pub foundation: TrustAuthority,
    /// Origin wallets, keyed by their unique country code.
    pub origin_wallets: Vec<OriginWallet>,
    /// Credential issuers, keyed by their unique issuer id.
    pub issuers: Vec<CredentialIssuer>,
    /// Individual credentials, keyed by their owner's address.
    pub individuals: Vec<NFTCredential>,
    pub delegation_graph: DelegationGraph,
    pub anti_gaming: AntiGamingSystem,
}

/// Whether some wallet in `ws` has the given country code.
pub open spec fn has_wallet(ws: Seq<OriginWallet>, key: Seq<char>) -> bool {
    exists|i: int| 0 <= i < ws.len() && ws[i].country_code@ == key
}

/// The index of the wallet with the given country code.
pub open spec fn wallet_index(ws: Seq<OriginWallet>, key: Seq<char>) -> int {
    choose|i: int| 0 <= i < ws.len() && ws[i].country_code@ == key
}

/// Whether some issuer in `is` has the given issuer id.
pub open spec fn has_issuer(is: Seq<CredentialIssuer>, key: Seq<char>) -> bool {
    exists|i: int| 0 <= i < is.len() && is[i].issuer_id@ == key
}

/// The index of the issuer with the given issuer id.
pub open spec fn issuer_index(is: Seq<CredentialIssuer>, key: Seq<char>) -> int {
    choose|i: int| 0 <= i < is.len() && is[i].issuer_id@ == key
}

/// Whether some credential in `cs` belongs to the given owner.
pub open spec fn has_credential(cs: Seq<NFTCredential>, owner: Seq<char>) -> bool {
    exists|i: int| 0 <= i < cs.len() && cs[i].owner@ == owner
}

/// The index of the credential belonging to the given owner.
pub open spec fn credential_index(cs: Seq<NFTCredential>, owner: Seq<char>) -> int {
    choose|i: int| 0 <= i < cs.len() && cs[i].owner@ == owner
}

/// Whether some node in `ns` has the given node id.
pub open spec fn has_node(ns: Seq<DelegationNode>, id: Seq<char>) -> bool {
    exists|i: int| 0 <= i < ns.len() && ns[i].node_id@ == id
}

/// Whether some flow in `fs` has the given flow id.
pub open spec fn has_flow(fs: Seq<TrustFlow>, id: Seq<char>) -> bool {
    exists|i: int| 0 <= i < fs.len() && fs[i].flow_id@ == id
}

/// Whether the graph holds an active delegation edge from `from` to `to`.
pub open spec fn spec_has_delegation_edge(
    es: Seq<DelegationEdge>,
    from: Seq<char>,
    to: Seq<char>,
) -> bool {
    exists|i: int|
        0 <= i < es.len() && {
            let e = #[trigger] es[i];
            e.from_node@ == from && e.to_node@ == to && e.is_active
        }
}

/// The position weight of hop `i` of a delegation chain, in thousandths:
/// Foundation 1.0, origin wallet 0.8, issuer 0.6, individuals and deeper
/// 0.4.
pub open spec fn spec_position_weight(i: int) -> int {
    if i == 0 {
        1000
    } else if i == 1 {
        800
    } else if i == 2 {
        600
    } else {
        400
    }
}

impl TrustDelegationChain {
    /// Well-formedness: every registry is keyed uniquely, every edge of the
    /// graph connects existing nodes, flow ids are unique, and every stored
    /// trust score is a fraction of one.
    pub open spec fn wf(self) -> bool {
        &&& forall|i: int, j: int|
            0 <= i < j < self.origin_wallets@.len() ==> self.origin_wallets@[i].country_code@
                != self.origin_wallets@[j].country_code@
        &&& forall|i: int, j: int|
            0 <= i < j < self.issuers@.len() ==> self.issuers@[i].issuer_id@
                != self.issuers@[j].issuer_id@
        &&& forall|i: int, j: int|
            0 <= i < j < self.individuals@.len() ==> self.individuals@[i].owner@
                != self.individuals@[j].owner@
        &&& forall|i: int, j: int|
            0 <= i < j < self.delegation_graph.nodes@.len()
                ==> self.delegation_graph.nodes@[i].node_id@
                != self.delegation_graph.nodes@[j].node_id@
        &&& forall|i: int, j: int|
            0 <= i < j < self.delegation_graph.trust_flows@.len()
                ==> self.delegation_graph.trust_flows@[i].flow_id@
                != self.delegation_graph.trust_flows@[j].flow_id@
        &&& forall|i: int|
            0 <= i < self.delegation_graph.edges@.len() ==> has_node(
                self.delegation_graph.nodes@,
                (#[trigger] self.delegation_graph.edges@[i]).from_node@,
            ) && has_node(self.delegation_graph.nodes@, self.delegation_graph.edges@[i].to_node@)
        &&& forall|i: int|
            0 <= i < self.origin_wallets@.len()
                ==> (#[trigger] self.origin_wallets@[i].trust_score) <= PPM_SCALE
        &&& forall|i: int|
            0 <= i < self.issuers@.len() ==> (#[trigger] self.issuers@[i].trust_score) <= PPM_SCALE
        &&& forall|i: int|
            0 <= i < self.individuals@.len() ==> (#[trigger] self.individuals@[i].trust_score)
                <= PPM_SCALE
    }

    /// The stored trust score of an entity, in parts per million: one for
    /// the Foundation by definition, the registered score for wallets,
    /// issuers and individuals, and zero for unknown entities.
    pub open spec fn spec_entity_trust(self, id: Seq<char>) -> u64 {
        if id == self.foundation.address@ {
            PPM_SCALE
        } else if has_wallet(self.origin_wallets@, id) {
            self.origin_wallets@[wallet_index(self.origin_wallets@, id)].trust_score
        } else if has_issuer(self.issuers@, id) {
            self.issuers@[issuer_index(self.issuers@, id)].trust_score
        } else if has_credential(self.individuals@, id) {
            self.individuals@[credential_index(self.individuals@, id)].trust_score
        } else {
            0
        }
    }

    /// A fresh chain holding only the Foundation, created at `now`, with the
    /// Foundation's node already in the delegation graph.
    pub fn new(now: u64) -> (r: TrustDelegationChain)
        ensures
            r.wf(),
            r.foundation.is_active,
            r.foundation.created_at == now,
            r.foundation.authority_level == AuthorityLevel::Foundation,
            r.origin_wallets@.len() == 0,
            r.issuers@.len() == 0,
            r.individuals@.len() == 0,
            r.delegation_graph.nodes@.len() == 1,
            r.delegation_graph.nodes@[0].node_id@ == r.foundation.address@,
            r.delegation_graph.nodes@[0].node_type == NodeType::Foundation,
            r.delegation_graph.nodes@[0].trust_score == PPM_SCALE,
            r.delegation_graph.edges@.len() == 0,
            r.delegation_graph.trust_flows@.len() == 0,
            r.anti_gaming.blacklist@.len() == 0,
            r.anti_gaming.whitelist@.len() == 0,
    {
        let address: String = "zpc1foundation".to_owned();
        let node = DelegationNode {
            node_id: address.clone(),
            node_type: NodeType::Foundation,
            trust_score: PPM_SCALE,
            delegation_capacity: u128::MAX,
            active_delegations: 0,
            is_active: true,
        };
        let mut nodes: Vec<DelegationNode> = Vec::new();
        nodes.push(node);
        TrustDelegationChain {
            foundation: TrustAuthority {
                address,
                name: "ZippyCoin Foundation".to_owned(),
                authority_level: AuthorityLevel::Foundation,
                public_key: Vec::new(),
                signature: Vec::new(),
                is_active: true,
                created_at: now,
            },
            origin_wallets: Vec::new(),
            issuers: Vec::new(),
            individuals: Vec::new(),
            delegation_graph: DelegationGraph {
                nodes,
                edges: Vec::new(),
                trust_flows: Vec::new(),
            },
            anti_gaming: AntiGamingSystem {
                suspicious_patterns: Vec::new(),
                penalty_multipliers: Vec::new(),
                cooldown_periods: Vec::new(),
                blacklist: Vec::new(),
                whitelist: Vec::new(),
            },
        }
    }

    /// Find the index of the wallet with the given country code.
    #[verifier::loop_isolation(false)]
    pub(crate) fn find_wallet(&self, key: &String) -> (r: Option<usize>)
        ensures
            match r {
                Some(i) => i < self.origin_wallets@.len()
                    && self.origin_wallets@[i as int].country_code@ == key@,
                None => !has_wallet(self.origin_wallets@, key@),
            },
    {
        let mut i: usize = 0;
        while i < self.origin_wallets.len()
            invariant
                i <= self.origin_wallets@.len(),
                forall|k: int| 0 <= k < i ==> self.origin_wallets@[k].country_code@ != key@,
            decreases self.origin_wallets@.len() - i,
        {
            if self.origin_wallets[i].country_code == *key {
                return Some(i);
            }
            i += 1;
        }
        None
    }

    /// Find the index of the issuer with the given issuer id.
    #[verifier::loop_isolation(false)]
    fn find_issuer(&self, key: &String) -> (r: Option<usize>)
        ensures
            match r {
                Some(i) => i < self.issuers@.len() && self.issuers@[i as int].issuer_id@ == key@,
                None => !has_issuer(self.issuers@, key@),
            },
    {
        let mut i: usize = 0;
        while i < self.issuers.len()
            invariant
                i <= self.issuers@.len(),
                forall|k: int| 0 <= k < i ==> self.issuers@[k].issuer_id@ != key@,
            decreases self.issuers@.len() - i,
        {
            if self.issuers[i].issuer_id == *key {
                return Some(i);
            }
            i += 1;
        }
        None
    }

    /// Find the index of the credential owned by the given address.
    #[verifier::loop_isolation(false)]
    pub(crate) fn find_credential(&self, owner: &String) -> (r: Option<usize>)
        ensures
            match r {
                Some(i) => i < self.individuals@.len() && self.individuals@[i as int].owner@
                    == owner@,
                None => !has_credential(self.individuals@, owner@),
            },
    {
        let mut i: usize = 0;
        while i < self.individuals.len()
            invariant
                i <= self.individuals@.len(),
                forall|k: int| 0 <= k < i ==> self.individuals@[k].owner@ != owner@,
            decreases self.individuals@.len() - i,
        {
            if self.individuals[i].owner == *owner {
                return Some(i);
            }
            i += 1;
        }
        None
    }

    /// Find the index of the graph node with the given node id.
    #[verifier::loop_isolation(false)]
    fn find_node(&self, id: &String) -> (r: Option<usize>)
        ensures
            match r {
                Some(i) => i < self.delegation_graph.nodes@.len()
                    && self.delegation_graph.nodes@[i as int].node_id@ == id@,
                None => !has_node(self.delegation_graph.nodes@, id@),
            },
    {
        let mut i: usize = 0;
        while i < self.delegation_graph.nodes.len()
            invariant
                i <= self.delegation_graph.nodes@.len(),
                forall|k: int| 0 <= k < i ==> self.delegation_graph.nodes@[k].node_id@ != id@,
            decreases self.delegation_graph.nodes@.len() - i,
        {
            if self.delegation_graph.nodes[i].node_id == *id {
                return Some(i);
            }
            i += 1;
        }
        None
    }

    /// The stored trust score of an entity, in parts per million: one for
    /// the Foundation, the registered score for known entities, zero for
    /// unknown ones.
    pub fn get_entity_trust_score(&self, entity_id: &String) -> (r: u64)
        requires
            self.wf(),
        ensures
            r == self.spec_entity_trust(entity_id@),
    {
        if self.foundation.address == *entity_id {
            return PPM_SCALE;
        }
        if let Some(i) = self.find_wallet(entity_id) {
            proof {
                assert(wallet_index(self.origin_wallets@, entity_id@) == i as int);
            }
            return self.origin_wallets[i].trust_score;
        }
        if let Some(i) = self.find_issuer(entity_id) {
            proof {
                assert(issuer_index(self.issuers@, entity_id@) == i as int);
            }
            return self.issuers[i].trust_score;
        }
        if let Some(i) = self.find_credential(entity_id) {
            proof {
                assert(credential_index(self.individuals@, entity_id@) == i as int);
            }
            return self.individuals[i].trust_score;
        }
        0
    }

    /// Whether the graph holds an active delegation edge from `from` to
    /// `to`.
    #[verifier::loop_isolation(false)]
    fn has_delegation(&self, from: &String, to: &String) -> (r: bool)
        ensures
            r == spec_has_delegation_edge(self.delegation_graph.edges@, from@, to@),
    {
        let edges = &self.delegation_graph.edges;
        let mut i: usize = 0;
        while i < edges.len()
            invariant
                i <= edges@.len(),
                forall|k: int|
                    0 <= k < i ==> !{
                        let e = #[trigger] edges@[k];
                        e.from_node@ == from@ && e.to_node@ == to@ && e.is_active
                    },
            decreases edges@.len() - i,
        {
            let e = &edges[i];
            if e.is_active && e.from_node == *from && e.to_node == *to {
                return true;
            }
            i += 1;
        }
        false
    }
}

/// Whether the Foundation's published onboarding signature is present.
/// Signature bytes are opaque to this core: a present, non-empty signature
/// is structurally valid, an empty one is always rejected.
pub open spec fn spec_foundation_signature_valid(c: TrustDelegationChain) -> bool {
    c.foundation.signature@.len() > 0
}

/// The first hop, Foundation to origin wallet: the Foundation is active,
/// the wallet exists and is active, and the Foundation's onboarding
/// signature is structurally valid.
pub open spec fn spec_hop_foundation_to_wallet(c: TrustDelegationChain, wallet: Seq<char>) -> bool {
    &&& c.foundation.is_active
    &&& has_wallet(c.origin_wallets@, wallet)
    &&& c.origin_wallets@[wallet_index(c.origin_wallets@, wallet)].is_active
    &&& spec_foundation_signature_valid(c)
}

/// The second hop, origin wallet to issuer: both exist and are active, and
/// an active delegation edge connects them.
pub open spec fn spec_hop_wallet_to_issuer(
    c: TrustDelegationChain,
    wallet: Seq<char>,
    issuer: Seq<char>,
) -> bool {
    &&& has_wallet(c.origin_wallets@, wallet)
    &&& c.origin_wallets@[wallet_index(c.origin_wallets@, wallet)].is_active
    &&& has_issuer(c.issuers@, issuer)
    &&& c.issuers@[issuer_index(c.issuers@, issuer)].is_active
    &&& spec_has_delegation_edge(c.delegation_graph.edges@, wallet, issuer)
}

/// The third hop, issuer to individual: the issuer exists and is active,
/// the individual holds an active credential, and that credential was issued
/// by exactly this issuer.
pub open spec fn spec_hop_issuer_to_individual(
    c: TrustDelegationChain,
    issuer: Seq<char>,
    individual: Seq<char>,
) -> bool {
    &&& has_issuer(c.issuers@, issuer)
    &&& c.issuers@[issuer_index(c.issuers@, issuer)].is_active
    &&& has_credential(c.individuals@, individual)
    &&& c.individuals@[credential_index(c.individuals@, individual)].is_active
    &&& c.individuals@[credential_index(c.individuals@, individual)].issuer@ == issuer
}

/// The position-weighted sum over a chain prefix: each hop contributes its
/// entity's trust score scaled by the hop's position weight, in parts per
/// million.
pub open spec fn spec_strength_sum(c: TrustDelegationChain, path: Seq<String>) -> int
    decreases path.len(),
{
    if path.len() == 0 {
        0
    } else {
        spec_strength_sum(c, path.drop_last()) + c.spec_entity_trust(path.last()@)
            * spec_position_weight(path.len() - 1) / 1000
    }
}

/// The flow strength of a delegation chain, in parts per million: the mean
/// of the position-weighted trust scores of its hops, zero for an empty
/// chain.
pub open spec fn spec_flow_strength(c: TrustDelegationChain, path: Seq<String>) -> int {
    if path.len() == 0 {
        0
    } else {
        spec_strength_sum(c, path) / (path.len() as int)
    }
}

/// Whether a credential's delegation chain verifies: at least three hops,
/// the three hop checks pass in order, and the flow strength reaches the
/// minimum.
pub open spec fn spec_chain_valid(c: TrustDelegationChain, cred: NFTCredential) -> bool {
    let chain = cred.delegation_chain@;
    &&& chain.len() >= 3
    &&& spec_hop_foundation_to_wallet(c, chain[1]@)
    &&& spec_hop_wallet_to_issuer(c, chain[1]@, chain[2]@)
    &&& spec_hop_issuer_to_individual(c, chain[2]@, cred.owner@)
    &&& spec_flow_strength(c, chain) >= MIN_FLOW_STRENGTH_PPM
}

impl TrustDelegationChain {
    /// First hop check, Foundation to origin wallet.
    fn verify_foundation_to_origin_wallet(&self, _foundation: &String, origin_wallet: &String) -> (r:
        bool)
        requires
            self.wf(),
        ensures
            r == spec_hop_foundation_to_wallet(*self, origin_wallet@),
    {
        if !self.foundation.is_active {
            return false;
        }
        let w = match self.find_wallet(origin_wallet) {
            Some(i) => i,
            None => {
                return false;
            },
        };
        proof {
            assert(wallet_index(self.origin_wallets@, origin_wallet@) == w as int);
        }
        if !self.origin_wallets[w].is_active {
            return false;
        }
        self.verify_foundation_signature()
    }

    /// Whether the Foundation's onboarding signature is structurally valid:
    /// present and non-empty. Signature bytes are opaque to this core.
    fn verify_foundation_signature(&self) -> (r: bool)
        ensures
            r == spec_foundation_signature_valid(*self),
    {
        self.foundation.signature.len() > 0
    }

    /// Second hop check, origin wallet to issuer.
    fn verify_origin_wallet_to_issuer(&self, origin_wallet: &String, issuer: &String) -> (r: bool)
        requires
            self.wf(),
        ensures
            r == spec_hop_wallet_to_issuer(*self, origin_wallet@, issuer@),
    {
        let w = match self.find_wallet(origin_wallet) {
            Some(i) => i,
            None => {
                return false;
            },
        };
        proof {
            assert(wallet_index(self.origin_wallets@, origin_wallet@) == w as int);
        }
        if !self.origin_wallets[w].is_active {
            return false;
        }
        let s = match self.find_issuer(issuer) {
            Some(i) => i,
            None => {
                return false;
            },
        };
        proof {
            assert(issuer_index(self.issuers@, issuer@) == s as int);
        }
        if !self.issuers[s].is_active {
            return false;
        }
        self.has_delegation(origin_wallet, issuer)
    }

    /// Third hop check, issuer to individual.
    fn verify_issuer_to_individual(&self, issuer: &String, individual: &String) -> (r: bool)
        requires
            self.wf(),
        ensures
            r == spec_hop_issuer_to_individual(*self, issuer@, individual@),
    {
        let s = match self.find_issuer(issuer) {
            Some(i) => i,
            None => {
                return false;
            },
        };
        proof {
            assert(issuer_index(self.issuers@, issuer@) == s as int);
        }
        if !self.issuers[s].is_active {
            return false;
        }
        let ci = match self.find_credential(individual) {
            Some(i) => i,
            None => {
                return false;
            },
        };
        proof {
            assert(credential_index(self.individuals@, individual@) == ci as int);
        }
        let cred = &self.individuals[ci];
        if !cred.is_active {
            return false;
        }
        cred.issuer == *issuer
    }

    /// The flow strength of a credential's delegation chain, in parts per
    /// million: the mean of the position-weighted trust scores of its hops.
    #[verifier::loop_isolation(false)]
    pub fn calculate_trust_flow_strength(&self, credential: &NFTCredential) -> (r: u64)
        requires
            self.wf(),
        ensures
            r == spec_flow_strength(*self, credential.delegation_chain@),
    {
        let chain = &credential.delegation_chain;
        if chain.len() == 0 {
            return 0;
        }
        let mut total: u128 = 0;
        let mut i: usize = 0;
        while i < chain.len()
            invariant
                i <= chain@.len(),
                total == spec_strength_sum(*self, chain@.take(i as int)),
                total <= i * (PPM_SCALE as int),
            decreases chain@.len() - i,
        {
            proof {
                assert(chain@.take(i + 1).drop_last() =~= chain@.take(i as int));
                assert(chain@.take(i + 1).last() == chain@[i as int]);
                lemma_entity_trust_bounded(*self, chain@[i as int]@);
            }
            let trust = self.get_entity_trust_score(&chain[i]);
            let weight: u64 = if i == 0 {
                1000
            } else if i == 1 {
                800
            } else if i == 2 {
                600
            } else {
                400
            };
            proof {
                let t = trust as int;
                let w = weight as int;
                assert(t * w <= PPM_SCALE as int * 1000 && t * w >= 0) by (nonlinear_arith)
                    requires
                        0 <= t <= PPM_SCALE as int,
                        0 <= w <= 1000,
                ;
                assert(t * w / 1000 <= PPM_SCALE as int) by (nonlinear_arith)
                    requires
                        t * w <= PPM_SCALE as int * 1000,
                ;
            }
            let term: u128 = (trust as u128) * (weight as u128) / 1000;
            total = total + term;
            i += 1;
        }
        proof {
            assert(chain@.take(chain@.len() as int) == chain@);
            let n = chain@.len() as int;
            assert(total as int / n <= PPM_SCALE as int) by (nonlinear_arith)
                requires
                    n > 0,
                    0 <= total as int <= n * (PPM_SCALE as int),
            ;
        }
        (total / (chain.len() as u128)) as u64
    }

    /// Whether a credential's trust-flow strength reaches the minimum.
    fn verify_trust_flow_strength(&self, credential: &NFTCredential) -> (r: bool)
        requires
            self.wf(),
        ensures
            r == (spec_flow_strength(*self, credential.delegation_chain@)
                >= MIN_FLOW_STRENGTH_PPM),
    {
        let strength = self.calculate_trust_flow_strength(credential);
        strength >= MIN_FLOW_STRENGTH_PPM
    }

    /// Verify a credential's trust-delegation chain: the chain must have at
    /// least three hops, the Foundation-to-wallet, wallet-to-issuer and
    /// issuer-to-individual checks must pass, and the flow strength must
    /// reach the minimum.
    pub fn verify_chain(&self, credential: &NFTCredential) -> (r: Result<bool, TrustError>)
        requires
            self.wf(),
        ensures
            r is Ok,
            r->Ok_0 == spec_chain_valid(*self, *credential),
    {
        let chain = &credential.delegation_chain;
        if chain.len() < 3 {
            return Ok(false);
        }
        if !self.verify_foundation_to_origin_wallet(&chain[0], &chain[1]) {
            return Ok(false);
        }
        if !self.verify_origin_wallet_to_issuer(&chain[1], &chain[2]) {
            return Ok(false);
        }
        if !self.verify_issuer_to_individual(&chain[2], &credential.owner) {
            return Ok(false);
        }
        if !self.verify_trust_flow_strength(credential) {
            return Ok(false);
        }
        Ok(true)
    }
}

/// The delegation capacity of an entity: unbounded for the Foundation,
/// the registered capacity for wallets and issuers, zero for individuals
/// (credentials confer no delegation capacity), and none for unknown
/// entities.
pub open spec fn spec_delegation_capacity(c: TrustDelegationChain, id: Seq<char>) -> Option<u128> {
    if id == c.foundation.address@ {
        Some(u128::MAX)
    } else if has_wallet(c.origin_wallets@, id) {
        Some(c.origin_wallets@[wallet_index(c.origin_wallets@, id)].delegation_capacity)
    } else if has_issuer(c.issuers@, id) {
        Some(c.issuers@[issuer_index(c.issuers@, id)].delegation_capacity)
    } else if has_credential(c.individuals@, id) {
        Some(0)
    } else {
        None
    }
}

/// The trust already delegated away by `from`: the sum of the amounts of its
/// active outgoing edges.
pub open spec fn spec_used_capacity(es: Seq<DelegationEdge>, from: Seq<char>) -> int
    decreases es.len(),
{
    if es.len() == 0 {
        0
    } else {
        spec_used_capacity(es.drop_last(), from) + if es.last().from_node@ == from
            && es.last().is_active {
            es.last().trust_amount as int
        } else {
            0
        }
    }
}

/// The hierarchy level a delegation gets from its delegator's role:
/// Foundation delegations are first level, origin-wallet delegations second,
/// issuer delegations third, anything else fourth.
pub open spec fn spec_delegation_level(c: TrustDelegationChain, delegator: Seq<char>) -> DelegationLevel {
    if delegator == c.foundation.address@ {
        DelegationLevel::Level1
    } else if has_wallet(c.origin_wallets@, delegator) {
        DelegationLevel::Level2
    } else if has_issuer(c.issuers@, delegator) {
        DelegationLevel::Level3
    } else {
        DelegationLevel::Level4
    }
}

/// The kind of graph node an entity id gets.
pub open spec fn spec_node_type(c: TrustDelegationChain, id: Seq<char>) -> NodeType {
    if id == c.foundation.address@ {
        NodeType::Foundation
    } else if has_wallet(c.origin_wallets@, id) {
        NodeType::OriginWallet
    } else if has_issuer(c.issuers@, id) {
        NodeType::Issuer
    } else {
        NodeType::Individual
    }
}

/// Whether `to` can be reached from `from` along active delegation edges in
/// at most `depth` hops.
pub open spec fn spec_reaches(
    es: Seq<DelegationEdge>,
    from: Seq<char>,
    to: Seq<char>,
    depth: nat,
) -> bool
    decreases depth,
{
    depth > 0 && exists|i: int|
        0 <= i < es.len() && {
            let e = #[trigger] es[i];
            &&& e.is_active
            &&& e.from_node@ == from
            &&& (e.to_node@ == to || spec_reaches(es, e.to_node@, to, (depth - 1) as nat))
        }
}

/// Whether an id is on a list of entity ids.
pub open spec fn spec_in_list(l: Seq<String>, id: Seq<char>) -> bool {
    exists|i: int| 0 <= i < l.len() && l[i]@ == id
}

/// Whether a delegator just created another delegation: some active outgoing
/// edge was created within the rapid-delegation window before `now`.
pub open spec fn spec_rapid_delegation(
    es: Seq<DelegationEdge>,
    delegator: Seq<char>,
    now: u64,
) -> bool {
    exists|i: int|
        0 <= i < es.len() && {
            let e = #[trigger] es[i];
            &&& e.is_active
            &&& e.from_node@ == delegator
            &&& e.created_at + RAPID_DELEGATION_WINDOW_SECS > now
        }
}

/// Whether delegating from `delegator` to `delegate` would close a cycle:
/// the delegate already reaches the delegator (or is the delegator).
pub open spec fn spec_would_be_circular(
    es: Seq<DelegationEdge>,
    delegator: Seq<char>,
    delegate: Seq<char>,
) -> bool {
    delegate == delegator || spec_reaches(es, delegate, delegator, CIRCULAR_SCAN_DEPTH as nat)
}

/// Whether a proposed delegation is suspicious: whitelisted delegators are
/// exempt, blacklisted ones always refused, and otherwise a rapid
/// delegation, a would-be circular delegation or an excessive trust amount
/// is refused.
pub open spec fn spec_suspicious_delegation(
    c: TrustDelegationChain,
    delegator: Seq<char>,
    delegate: Seq<char>,
    trust_amount: u128,
    now: u64,
) -> bool {
    if spec_in_list(c.anti_gaming.whitelist@, delegator) {
        false
    } else if spec_in_list(c.anti_gaming.blacklist@, delegator) {
        true
    } else {
        ||| spec_rapid_delegation(c.delegation_graph.edges@, delegator, now)
        ||| spec_would_be_circular(c.delegation_graph.edges@, delegator, delegate)
        ||| trust_amount > EXCESSIVE_TRUST_AMOUNT
    }
}

impl TrustDelegationChain {
    /// The delegation capacity of an entity; an unknown entity has none.
    fn get_delegation_capacity(&self, entity_id: &String) -> (r: Result<u128, TrustError>)
        requires
            self.wf(),
        ensures
            r == match spec_delegation_capacity(*self, entity_id@) {
                Some(cap) => Ok::<u128, TrustError>(cap),
                None => Err::<u128, TrustError>(TrustError::EntityNotFound),
            },
    {
        if self.foundation.address == *entity_id {
            return Ok(u128::MAX);
        }
        if let Some(i) = self.find_wallet(entity_id) {
            proof {
                assert(wallet_index(self.origin_wallets@, entity_id@) == i as int);
            }
            return Ok(self.origin_wallets[i].delegation_capacity);
        }
        if let Some(i) = self.find_issuer(entity_id) {
            proof {
                assert(issuer_index(self.issuers@, entity_id@) == i as int);
            }
            return Ok(self.issuers[i].delegation_capacity);
        }
        if self.find_credential(entity_id).is_some() {
            return Ok(0);
        }
        Err(TrustError::EntityNotFound)
    }

    /// The trust an entity has already delegated away, if the sum fits a
    /// machine word; an overflowing sum is an internal error.
    #[verifier::loop_isolation(false)]
    fn get_used_delegation_capacity(&self, entity_id: &String) -> (r: Result<u128, TrustError>)
        ensures
            r is Ok <==> spec_used_capacity(self.delegation_graph.edges@, entity_id@)
                <= u128::MAX,
            r is Ok ==> r->Ok_0 == spec_used_capacity(self.delegation_graph.edges@, entity_id@),
            r is Err ==> r->Err_0 == TrustError::InternalError,
    {
        let edges = &self.delegation_graph.edges;
        let mut sum: u128 = 0;
        let mut i: usize = 0;
        while i < edges.len()
            invariant
                i <= edges@.len(),
                sum == spec_used_capacity(edges@.take(i as int), entity_id@),
            decreases edges@.len() - i,
        {
            proof {
                assert(edges@.take(i + 1).drop_last() =~= edges@.take(i as int));
                assert(edges@.take(i + 1).last() == edges@[i as int]);
                lemma_used_capacity_monotone(edges@, entity_id@, i + 1);
            }
            let e = &edges[i];
            if e.is_active && e.from_node == *entity_id {
                if sum > u128::MAX - e.trust_amount {
                    proof {
                        lemma_used_capacity_prefix(edges@, entity_id@, i + 1);
                    }
                    return Err(TrustError::InternalError);
                }
                sum = sum + e.trust_amount;
            }
            i += 1;
        }
        proof {
            assert(edges@.take(edges@.len() as int) == edges@);
        }
        Ok(sum)
    }

    /// Whether the delegator's unused capacity covers a requested trust
    /// amount. An unknown delegator has no capacity at all.
    fn has_sufficient_trust_capacity(&self, delegator: &String, trust_amount: u128) -> (r: Result<
        bool,
        TrustError,
    >)
        requires
            self.wf(),
        ensures
            r == match spec_delegation_capacity(*self, delegator@) {
                Some(cap) => Ok::<bool, TrustError>(
                    spec_used_capacity(self.delegation_graph.edges@, delegator@)
                        + trust_amount <= cap,
                ),
                None => Err::<bool, TrustError>(TrustError::EntityNotFound),
            },
    {
        let capacity = match self.get_delegation_capacity(delegator) {
            Ok(c) => c,
            Err(e) => {
                return Err(e);
            },
        };
        let used = match self.get_used_delegation_capacity(delegator) {
            Ok(u) => u,
            Err(_) => {
                return Ok(false);
            },
        };
        if trust_amount > capacity {
            return Ok(false);
        }
        Ok(used <= capacity - trust_amount)
    }

    /// The hierarchy level a new delegation gets, from the delegator's role.
    fn determine_delegation_level(&self, delegator: &String) -> (r: DelegationLevel)
        ensures
            r == spec_delegation_level(*self, delegator@),
    {
        if self.foundation.address == *delegator {
            return DelegationLevel::Level1;
        }
        if self.find_wallet(delegator).is_some() {
            return DelegationLevel::Level2;
        }
        if self.find_issuer(delegator).is_some() {
            return DelegationLevel::Level3;
        }
        DelegationLevel::Level4
    }

    /// Whether `to` can be reached from `from` along active delegation edges
    /// in at most `depth` hops.
    #[verifier::loop_isolation(false)]
    fn reaches_within(&self, from: &String, to: &String, depth: u64) -> (r: bool)
        ensures
            r == spec_reaches(self.delegation_graph.edges@, from@, to@, depth as nat),
        decreases depth,
    {
        if depth == 0 {
            return false;
        }
        let edges = &self.delegation_graph.edges;
        let mut i: usize = 0;
        while i < edges.len()
            invariant
                i <= edges@.len(),
                forall|k: int|
                    0 <= k < i ==> !{
                        let e = #[trigger] edges@[k];
                        &&& e.is_active
                        &&& e.from_node@ == from@
                        &&& (e.to_node@ == to@ || spec_reaches(
                            edges@,
                            e.to_node@,
                            to@,
                            (depth - 1) as nat,
                        ))
                    },
            decreases edges@.len() - i,
        {
            let e = &edges[i];
            if e.is_active && e.from_node == *from {
                if e.to_node == *to {
                    return true;
                }
                if self.reaches_within(&e.to_node, to, depth - 1) {
                    return true;
                }
            }
            i += 1;
        }
        false
    }

    /// Whether the delegator created another delegation within the rapid
    /// window before `now`.
    #[verifier::loop_isolation(false)]
    fn is_rapid_delegation(&self, delegator: &String, _delegate: &String, now: u64) -> (r: bool)
        ensures
            r == spec_rapid_delegation(self.delegation_graph.edges@, delegator@, now),
    {
        let edges = &self.delegation_graph.edges;
        let mut i: usize = 0;
        while i < edges.len()
            invariant
                i <= edges@.len(),
                forall|k: int|
                    0 <= k < i ==> !{
                        let e = #[trigger] edges@[k];
                        &&& e.is_active
                        &&& e.from_node@ == delegator@
                        &&& e.created_at + RAPID_DELEGATION_WINDOW_SECS > now
                    },
            decreases edges@.len() - i,
        {
            let e = &edges[i];
            if e.is_active && e.from_node == *delegator {
                if (now as u128) < (e.created_at as u128) + (RAPID_DELEGATION_WINDOW_SECS as u128) {
                    return true;
                }
            }
            i += 1;
        }
        false
    }

    /// Whether delegating from `delegator` to `delegate` would close a
    /// cycle.
    fn would_create_circular_delegation(&self, delegator: &String, delegate: &String) -> (r: bool)
        ensures
            r == spec_would_be_circular(self.delegation_graph.edges@, delegator@, delegate@),
    {
        if *delegate == *delegator {
            return true;
        }
        self.reaches_within(delegate, delegator, CIRCULAR_SCAN_DEPTH)
    }

    /// Whether a single trust amount exceeds the excessive-amount ceiling.
    fn is_excessive_trust_amount(&self, _delegator: &String, trust_amount: u128) -> (r: bool)
        ensures
            r == (trust_amount > EXCESSIVE_TRUST_AMOUNT),
    {
        trust_amount > EXCESSIVE_TRUST_AMOUNT
    }

    /// Whether an id is on the given list.
    #[verifier::loop_isolation(false)]
    fn list_contains(list: &Vec<String>, id: &String) -> (r: bool)
        ensures
            r == spec_in_list(list@, id@),
    {
        let mut i: usize = 0;
        while i < list.len()
            invariant
                i <= list@.len(),
                forall|k: int| 0 <= k < i ==> list@[k]@ != id@,
            decreases list@.len() - i,
        {
            if list[i] == *id {
                return true;
            }
            i += 1;
        }
        false
    }

    /// Whether a proposed delegation is suspicious; see
    /// `spec_suspicious_delegation`.
    fn detect_suspicious_delegation(
        &self,
        delegator: &String,
        delegate: &String,
        trust_amount: u128,
        now: u64,
    ) -> (r: bool)
        ensures
            r == spec_suspicious_delegation(*self, delegator@, delegate@, trust_amount, now),
    {
        if Self::list_contains(&self.anti_gaming.whitelist, delegator) {
            return false;
        }
        if Self::list_contains(&self.anti_gaming.blacklist, delegator) {
            return true;
        }
        if self.is_rapid_delegation(delegator, delegate, now) {
            return true;
        }
        if self.would_create_circular_delegation(delegator, delegate) {
            return true;
        }
        self.is_excessive_trust_amount(delegator, trust_amount)
    }
}

/// What the graph node freshly created for entity `id` looks like: typed
/// and scored from the chain's registries, with the entity's capacity (zero
/// for unknown entities), no delegation count yet, and active.
pub open spec fn spec_node_matches(c: TrustDelegationChain, n: DelegationNode, id: Seq<char>) -> bool {
    &&& n.node_id@ == id
    &&& n.node_type == spec_node_type(c, id)
    &&& n.trust_score == c.spec_entity_trust(id)
    &&& n.delegation_capacity == match spec_delegation_capacity(c, id) {
        Some(cap) => cap,
        None => 0u128,
    }
    &&& n.active_delegations == 0
    &&& n.is_active
}

/// What the graph edge recorded for a delegation looks like.
pub open spec fn spec_edge_matches(
    e: DelegationEdge,
    id: Seq<char>,
    from: Seq<char>,
    to: Seq<char>,
    amount: u128,
    dt: DelegationType,
    created_at: u64,
) -> bool {
    &&& e.edge_id@ == id
    &&& e.from_node@ == from
    &&& e.to_node@ == to
    &&& e.trust_amount == amount
    &&& e.delegation_type == dt
    &&& e.is_active
    &&& e.created_at == created_at
}

/// What the trust flow recorded for a delegation looks like: the two-hop
/// path from delegator to delegate, the delegated amount, and the flow
/// strength of that path.
pub open spec fn spec_flow_matches(
    f: TrustFlow,
    id: Seq<char>,
    from: Seq<char>,
    to: Seq<char>,
    amount: u128,
    strength: u64,
    now: u64,
) -> bool {
    &&& f.flow_id@ == id
    &&& f.path@.len() == 2
    &&& f.path@[0]@ == from
    &&& f.path@[1]@ == to
    &&& f.total_trust == amount
    &&& f.flow_strength == strength
    &&& f.is_valid
    &&& f.last_verified == now
}

/// The index of the flow with the given flow id.
pub open spec fn flow_index(fs: Seq<TrustFlow>, id: Seq<char>) -> int {
    choose|i: int| 0 <= i < fs.len() && fs[i].flow_id@ == id
}

/// An edge after a revocation of the delegation `id`: deactivated if it
/// records that delegation, untouched otherwise.
pub open spec fn spec_revoke_edge(e: DelegationEdge, id: Seq<char>) -> DelegationEdge {
    if e.edge_id@ == id {
        DelegationEdge { is_active: false, ..e }
    } else {
        e
    }
}

/// The edge table after a revocation of the delegation `id`.
pub open spec fn spec_revoke_edges(es: Seq<DelegationEdge>, id: Seq<char>) -> Seq<DelegationEdge> {
    es.map_values(|e: DelegationEdge| spec_revoke_edge(e, id))
}

/// Whether the graph records a delegation with the given id.
pub open spec fn has_edge_id(es: Seq<DelegationEdge>, id: Seq<char>) -> bool {
    exists|i: int| 0 <= i < es.len() && es[i].edge_id@ == id
}

/// The strength sums of two chains agree on every path when their entity
/// registries agree.
pub proof fn lemma_strength_sum_registries(
    c1: TrustDelegationChain,
    c2: TrustDelegationChain,
    path: Seq<String>,
)
    requires
        c1.foundation.address@ == c2.foundation.address@,
        c1.origin_wallets@ == c2.origin_wallets@,
        c1.issuers@ == c2.issuers@,
        c1.individuals@ == c2.individuals@,
    ensures
        spec_strength_sum(c1, path) == spec_strength_sum(c2, path),
        spec_flow_strength(c1, path) == spec_flow_strength(c2, path),
    decreases path.len(),
{
    if path.len() > 0 {
        lemma_strength_sum_registries(c1, c2, path.drop_last());
        assert(c1.spec_entity_trust(path.last()@) == c2.spec_entity_trust(path.last()@));
    }
}

impl TrustDelegationChain {
    /// The flow strength of a path of entity ids, in parts per million: the
    /// mean of the position-weighted trust scores of its entries.
    #[verifier::loop_isolation(false)]
    fn calculate_flow_strength(&self, path: &Vec<String>) -> (r: u64)
        requires
            self.wf(),
        ensures
            r == spec_flow_strength(*self, path@),
    {
        if path.len() == 0 {
            return 0;
        }
        let mut total: u128 = 0;
        let mut i: usize = 0;
        while i < path.len()
            invariant
                i <= path@.len(),
                total == spec_strength_sum(*self, path@.take(i as int)),
                total <= i * (PPM_SCALE as int),
            decreases path@.len() - i,
        {
            proof {
                assert(path@.take(i + 1).drop_last() =~= path@.take(i as int));
                assert(path@.take(i + 1).last() == path@[i as int]);
                lemma_entity_trust_bounded(*self, path@[i as int]@);
            }
            let trust = self.get_entity_trust_score(&path[i]);
            let weight: u64 = if i == 0 {
                1000
            } else if i == 1 {
                800
            } else if i == 2 {
                600
            } else {
                400
            };
            proof {
                let t = trust as int;
                let w = weight as int;
                assert(t * w <= PPM_SCALE as int * 1000 && t * w >= 0) by (nonlinear_arith)
                    requires
                        0 <= t <= PPM_SCALE as int,
                        0 <= w <= 1000,
                ;
                assert(t * w / 1000 <= PPM_SCALE as int) by (nonlinear_arith)
                    requires
                        t * w <= PPM_SCALE as int * 1000,
                ;
            }
            let term: u128 = (trust as u128) * (weight as u128) / 1000;
            total = total + term;
            i += 1;
        }
        proof {
            assert(path@.take(path@.len() as int) == path@);
            let n = path@.len() as int;
            assert(total as int / n <= PPM_SCALE as int) by (nonlinear_arith)
                requires
                    n > 0,
                    0 <= total as int <= n * (PPM_SCALE as int),
            ;
        }
        (total / (path.len() as u128)) as u64
    }

    /// Make sure the graph holds a node for the given entity; a missing node
    /// is created from the chain's registries.
    fn ensure_node(&mut self, id: &String)
        requires
            old(self).wf(),
        ensures
            final(self).wf(),
            *final(self) == (TrustDelegationChain {
                delegation_graph: final(self).delegation_graph,
                ..*old(self)
            }),
            final(self).delegation_graph == (DelegationGraph {
                nodes: final(self).delegation_graph.nodes,
                ..old(self).delegation_graph
            }),
            has_node(old(self).delegation_graph.nodes@, id@) ==> final(self).delegation_graph.nodes@ == old(self).delegation_graph.nodes@,
            !has_node(old(self).delegation_graph.nodes@, id@) ==> {
                &&& final(self).delegation_graph.nodes@.len() == old(self).delegation_graph.nodes@.len() + 1
                &&& final(self).delegation_graph.nodes@.take(
                    old(self).delegation_graph.nodes@.len() as int,
                ) == old(self).delegation_graph.nodes@
                &&& spec_node_matches(
                    *old(self),
                    final(self).delegation_graph.nodes@.last(),
                    id@,
                )
            },
            has_node(final(self).delegation_graph.nodes@, id@),
    {
        if self.find_node(id).is_some() {
            return ;
        }
        let ghost pre = *self;
        let node_type = if self.foundation.address == *id {
            NodeType::Foundation
        } else if self.find_wallet(id).is_some() {
            NodeType::OriginWallet
        } else if self.find_issuer(id).is_some() {
            NodeType::Issuer
        } else {
            NodeType::Individual
        };
        let trust_score = self.get_entity_trust_score(id);
        let delegation_capacity = match self.get_delegation_capacity(id) {
            Ok(cap) => cap,
            Err(_) => 0,
        };
        let node = DelegationNode {
            node_id: id.clone(),
            node_type,
            trust_score,
            delegation_capacity,
            active_delegations: 0,
            is_active: true,
        };
        self.delegation_graph.nodes.push(node);
        proof {
            let post = *self;
            let pn = pre.delegation_graph.nodes@;
            let qn = post.delegation_graph.nodes@;
            assert(qn.take(pn.len() as int) =~= pn);
            assert(qn.last().node_id@ == id@);
            assert forall|i: int, j: int| 0 <= i < j < qn.len() implies qn[i].node_id@
                != qn[j].node_id@ by {
                if j < pn.len() {
                    assert(pn[i].node_id@ != pn[j].node_id@);
                } else {
                    assert(qn[i] == pn[i]);
                    assert(!(exists|k: int| 0 <= k < pn.len() && pn[k].node_id@ == id@));
                }
            }
            assert forall|i: int|
                0 <= i < post.delegation_graph.edges@.len() implies has_node(
                qn,
                (#[trigger] post.delegation_graph.edges@[i]).from_node@,
            ) && has_node(qn, post.delegation_graph.edges@[i].to_node@) by {
                assert(has_node(pn, pre.delegation_graph.edges@[i].from_node@));
                assert(has_node(pn, pre.delegation_graph.edges@[i].to_node@));
                let a = choose|k: int|
                    0 <= k < pn.len() && pn[k].node_id@
                        == pre.delegation_graph.edges@[i].from_node@;
                assert(qn[a].node_id@ == post.delegation_graph.edges@[i].from_node@);
                let b = choose|k: int|
                    0 <= k < pn.len() && pn[k].node_id@
                        == pre.delegation_graph.edges@[i].to_node@;
                assert(qn[b].node_id@ == post.delegation_graph.edges@[i].to_node@);
            }
        }
    }

    /// Record a delegation in the graph: both endpoints get nodes if they
    /// lack them, and the delegation's edge is appended.
    fn update_delegation_graph(&mut self, delegation: &Delegation)
        requires
            old(self).wf(),
        ensures
            final(self).wf(),
            *final(self) == (TrustDelegationChain {
                delegation_graph: final(self).delegation_graph,
                ..*old(self)
            }),
            final(self).delegation_graph.trust_flows@ == old(self).delegation_graph.trust_flows@,
            final(self).delegation_graph.edges@ == old(self).delegation_graph.edges@.push(
                final(self).delegation_graph.edges@.last(),
            ),
            spec_edge_matches(
                final(self).delegation_graph.edges@.last(),
                delegation.delegation_id@,
                delegation.delegator@,
                delegation.delegate@,
                delegation.trust_amount,
                delegation.delegation_type,
                delegation.created_at,
            ),
            final(self).delegation_graph.nodes@.take(
                old(self).delegation_graph.nodes@.len() as int,
            ) == old(self).delegation_graph.nodes@,
            old(self).delegation_graph.nodes@.len() <= final(self).delegation_graph.nodes@.len() <= old(self).delegation_graph.nodes@.len() + 2,
            forall|i: int|
                old(self).delegation_graph.nodes@.len() <= i < final(self).delegation_graph.nodes@.len() ==> {
                    let n = #[trigger] final(self).delegation_graph.nodes@[i];
                    &&& (n.node_id@ == delegation.delegator@ || n.node_id@
                        == delegation.delegate@)
                    &&& spec_node_matches(*old(self), n, n.node_id@)
                },
            has_node(old(self).delegation_graph.nodes@, delegation.delegator@) && has_node(
                old(self).delegation_graph.nodes@,
                delegation.delegate@,
            ) ==> final(self).delegation_graph.nodes@ == old(self).delegation_graph.nodes@,
    {
        let ghost pre = *self;
        self.ensure_node(&delegation.delegator);
        let ghost mid = *self;
        self.ensure_node(&delegation.delegate);
        let ghost mid2 = *self;
        proof {
            assert(mid2.delegation_graph.nodes@.take(
                pre.delegation_graph.nodes@.len() as int,
            ) =~= pre.delegation_graph.nodes@);
            assert forall|i: int|
                pre.delegation_graph.nodes@.len() <= i < mid2.delegation_graph.nodes@.len()
                implies {
                let n = #[trigger] mid2.delegation_graph.nodes@[i];
                &&& (n.node_id@ == delegation.delegator@ || n.node_id@ == delegation.delegate@)
                &&& spec_node_matches(pre, n, n.node_id@)
            } by {
                if i < mid.delegation_graph.nodes@.len() {
                    assert(mid.delegation_graph.nodes@[i] == mid2.delegation_graph.nodes@[i]);
                } else {
                    assert(spec_node_matches(mid, mid2.delegation_graph.nodes@[i], mid2.delegation_graph.nodes@[i].node_id@));
                    lemma_node_matches_registries(mid, pre, mid2.delegation_graph.nodes@[i]);
                }
            }
        }
        let edge = DelegationEdge {
            edge_id: delegation.delegation_id.clone(),
            from_node: delegation.delegator.clone(),
            to_node: delegation.delegate.clone(),
            trust_amount: delegation.trust_amount,
            delegation_type: delegation.delegation_type,
            is_active: true,
            created_at: delegation.created_at,
        };
        self.delegation_graph.edges.push(edge);
        proof {
            let post = *self;
            assert(post.delegation_graph.edges@ =~= mid2.delegation_graph.edges@.push(
                post.delegation_graph.edges@.last(),
            ));
            assert forall|i: int|
                0 <= i < post.delegation_graph.edges@.len() implies has_node(
                post.delegation_graph.nodes@,
                (#[trigger] post.delegation_graph.edges@[i]).from_node@,
            ) && has_node(
                post.delegation_graph.nodes@,
                post.delegation_graph.edges@[i].to_node@,
            ) by {
                if i < mid2.delegation_graph.edges@.len() {
                    assert(has_node(
                        mid2.delegation_graph.nodes@,
                        mid2.delegation_graph.edges@[i].from_node@,
                    ));
                    assert(has_node(
                        mid2.delegation_graph.nodes@,
                        mid2.delegation_graph.edges@[i].to_node@,
                    ));
                } else {
                    assert(has_node(mid2.delegation_graph.nodes@, delegation.delegator@));
                    assert(has_node(mid2.delegation_graph.nodes@, delegation.delegate@));
                }
            }
        }
    }

    /// Record the trust flow of a delegation: a two-hop path from delegator
    /// to delegate carrying the delegated amount, with the path's flow
    /// strength, keyed by the delegation id. An existing flow under the same
    /// id is replaced.
    fn update_trust_flows(&mut self, delegation: &Delegation, now: u64)
        requires
            old(self).wf(),
        ensures
            final(self).wf(),
            *final(self) == (TrustDelegationChain {
                delegation_graph: final(self).delegation_graph,
                ..*old(self)
            }),
            final(self).delegation_graph == (DelegationGraph {
                trust_flows: final(self).delegation_graph.trust_flows,
                ..old(self).delegation_graph
            }),
            ({
                let fs = old(self).delegation_graph.trust_flows@;
                let id = delegation.delegation_id@;
                let gs = final(self).delegation_graph.trust_flows@;
                let strength = spec_flow_strength(
                    *old(self),
                    seq![delegation.delegator, delegation.delegate],
                );
                if has_flow(fs, id) {
                    gs == fs.update(flow_index(fs, id), gs[flow_index(fs, id)])
                        && spec_flow_matches(
                        gs[flow_index(fs, id)],
                        id,
                        delegation.delegator@,
                        delegation.delegate@,
                        delegation.trust_amount,
                        strength as u64,
                        now,
                    )
                } else {
                    gs == fs.push(gs.last()) && spec_flow_matches(
                        gs.last(),
                        id,
                        delegation.delegator@,
                        delegation.delegate@,
                        delegation.trust_amount,
                        strength as u64,
                        now,
                    )
                }
            }),
    {
        let mut path: Vec<String> = Vec::new();
        path.push(delegation.delegator.clone());
        path.push(delegation.delegate.clone());
        proof {
            assert(path@ =~= seq![delegation.delegator, delegation.delegate]);
            lemma_flow_strength_bounded(*self, path@);
        }
        let strength = self.calculate_flow_strength(&path);
        let flow = TrustFlow {
            flow_id: delegation.delegation_id.clone(),
            path,
            total_trust: delegation.trust_amount,
            flow_strength: strength,
            is_valid: true,
            last_verified: now,
        };
        let ghost pre = *self;
        let idx = self.find_flow(&delegation.delegation_id);
        match idx {
            Some(i) => {
                proof {
                    assert(flow_index(
                        pre.delegation_graph.trust_flows@,
                        delegation.delegation_id@,
                    ) == i as int);
                }
                self.delegation_graph.trust_flows[i] = flow;
                proof {
                    let post = *self;
                    let fs = pre.delegation_graph.trust_flows@;
                    let gs = post.delegation_graph.trust_flows@;
                    assert(gs == fs.update(i as int, gs[i as int]));
                    assert forall|a: int, b: int| 0 <= a < b < gs.len() implies gs[a].flow_id@
                        != gs[b].flow_id@ by {
                        assert(fs[a].flow_id@ != fs[b].flow_id@);
                        if a == i as int {
                            assert(gs[b] == fs[b]);
                            assert(fs[b].flow_id@ != delegation.delegation_id@) by {
                                assert(fs[i as int].flow_id@ == delegation.delegation_id@);
                            }
                        } else if b == i as int {
                            assert(gs[a] == fs[a]);
                            assert(fs[a].flow_id@ != delegation.delegation_id@) by {
                                assert(fs[i as int].flow_id@ == delegation.delegation_id@);
                            }
                        }
                    }
                }
            },
            None => {
                self.delegation_graph.trust_flows.push(flow);
                proof {
                    let post = *self;
                    let fs = pre.delegation_graph.trust_flows@;
                    let gs = post.delegation_graph.trust_flows@;
                    assert(gs =~= fs.push(gs.last()));
                    assert forall|a: int, b: int| 0 <= a < b < gs.len() implies gs[a].flow_id@
                        != gs[b].flow_id@ by {
                        if b < fs.len() {
                            assert(fs[a].flow_id@ != fs[b].flow_id@);
                        } else {
                            assert(gs[a] == fs[a]);
                            assert(!has_flow(fs, delegation.delegation_id@));
                        }
                    }
                }
            },
        }
    }

    /// Find the index of the flow with the given flow id.
    #[verifier::loop_isolation(false)]
    fn find_flow(&self, id: &String) -> (r: Option<usize>)
        ensures
            match r {
                Some(i) => i < self.delegation_graph.trust_flows@.len()
                    && self.delegation_graph.trust_flows@[i as int].flow_id@ == id@,
                None => !has_flow(self.delegation_graph.trust_flows@, id@),
            },
    {
        let mut i: usize = 0;
        while i < self.delegation_graph.trust_flows.len()
            invariant
                i <= self.delegation_graph.trust_flows@.len(),
                forall|k: int|
                    0 <= k < i ==> self.delegation_graph.trust_flows@[k].flow_id@ != id@,
            decreases self.delegation_graph.trust_flows@.len() - i,
        {
            if self.delegation_graph.trust_flows[i].flow_id == *id {
                return Some(i);
            }
            i += 1;
        }
        None
    }
}

impl TrustDelegationChain {
    /// Create a new delegation. The delegator must be a known entity with
    /// enough unused capacity, and the proposed delegation must not be
    /// suspicious; otherwise the operation is refused atomically, with no
    /// state change. On success the graph gains the delegation's edge (and
    /// nodes for both endpoints if they were missing), the trust flow keyed
    /// by the new delegation id is recorded, and the delegation is returned.
    pub fn create_delegation(
        &mut self,
        delegator: String,
        delegate: String,
        delegation_type: DelegationType,
        trust_amount: u128,
        now: u64,
    ) -> (r: Result<Delegation, TrustError>)
        requires
            old(self).wf(),
        ensures
            final(self).wf(),
            ({
                let c = *old(self);
                match spec_delegation_capacity(c, delegator@) {
                    None => r == Err::<Delegation, TrustError>(TrustError::EntityNotFound)
                        && *final(self) == c,
                    Some(cap) => {
                        if spec_used_capacity(c.delegation_graph.edges@, delegator@)
                            + trust_amount > cap {
                            r == Err::<Delegation, TrustError>(
                                TrustError::InsufficientTrustCapacity,
                            ) && *final(self) == c
                        } else if spec_suspicious_delegation(
                            c,
                            delegator@,
                            delegate@,
                            trust_amount,
                            now,
                        ) {
                            r == Err::<Delegation, TrustError>(TrustError::SuspiciousActivity)
                                && *final(self) == c
                        } else {
                            &&& r is Ok
                            &&& spec_created_delegation(
                                r->Ok_0,
                                delegator@,
                                delegate@,
                                delegation_type,
                                trust_amount,
                                spec_delegation_level(c, delegator@),
                                now,
                            )
                            &&& spec_delegation_committed(c, *final(self), r->Ok_0, now)
                        }
                    },
                }
            }),
    {
        let sufficient = match self.has_sufficient_trust_capacity(&delegator, trust_amount) {
            Ok(b) => b,
            Err(e) => {
                return Err(e);
            },
        };
        if !sufficient {
            return Err(TrustError::InsufficientTrustCapacity);
        }
        if self.detect_suspicious_delegation(&delegator, &delegate, trust_amount, now) {
            return Err(TrustError::SuspiciousActivity);
        }
        let delegation_id = generate_delegation_id();
        let delegation_level = self.determine_delegation_level(&delegator);
        let delegation = Delegation {
            delegation_id,
            delegator,
            delegate,
            delegation_type,
            trust_amount,
            delegation_level,
            is_active: true,
            created_at: now,
            expires_at: None,
            last_used: 0,
        };
        let ghost pre = *self;
        self.update_delegation_graph(&delegation);
        let ghost mid = *self;
        self.update_trust_flows(&delegation, now);
        proof {
            lemma_strength_sum_registries(
                mid,
                pre,
                seq![delegation.delegator, delegation.delegate],
            );
        }
        Ok(delegation)
    }

    /// Revoke a delegation by id: its graph edge is deactivated and its
    /// trust flow removed. Revoking an unknown or already-revoked delegation
    /// is a harmless no-op, and revocation is idempotent.
    pub fn revoke_delegation(&mut self, delegation_id: String, reason: String) -> (r: Result<
        (),
        TrustError,
    >)
        requires
            old(self).wf(),
        ensures
            final(self).wf(),
            r is Ok,
            !has_edge_id(old(self).delegation_graph.edges@, delegation_id@) ==> *final(self)
                == *old(self),
            *final(self) == (TrustDelegationChain {
                delegation_graph: final(self).delegation_graph,
                ..*old(self)
            }),
            final(self).delegation_graph == (DelegationGraph {
                edges: final(self).delegation_graph.edges,
                trust_flows: final(self).delegation_graph.trust_flows,
                ..old(self).delegation_graph
            }),
            final(self).delegation_graph.edges@ == spec_revoke_edges(
                old(self).delegation_graph.edges@,
                delegation_id@,
            ),
            final(self).delegation_graph.trust_flows@ == if has_edge_id(
                old(self).delegation_graph.edges@,
                delegation_id@,
            ) && has_flow(old(self).delegation_graph.trust_flows@, delegation_id@) {
                old(self).delegation_graph.trust_flows@.remove(
                    flow_index(old(self).delegation_graph.trust_flows@, delegation_id@),
                )
            } else {
                old(self).delegation_graph.trust_flows@
            },
    {
        let _ = reason;
        let ghost pre = *self;
        let mut found = false;
        let mut i: usize = 0;
        let n = self.delegation_graph.edges.len();
        #[verifier::loop_isolation(false)]
        while i < n
            invariant
                i <= n,
                n == self.delegation_graph.edges@.len(),
                self.delegation_graph.edges@.len() == pre.delegation_graph.edges@.len(),
                *self == (TrustDelegationChain {
                    delegation_graph: self.delegation_graph,
                    ..pre
                }),
                self.delegation_graph == (DelegationGraph {
                    edges: self.delegation_graph.edges,
                    ..pre.delegation_graph
                }),
                found <==> exists|k: int|
                    0 <= k < i && (#[trigger] pre.delegation_graph.edges@[k]).edge_id@
                        == delegation_id@,
                !found ==> *self == pre,
                forall|k: int|
                    0 <= k < i ==> self.delegation_graph.edges@[k] == spec_revoke_edge(
                        pre.delegation_graph.edges@[k],
                        delegation_id@,
                    ),
                forall|k: int|
                    i <= k < n ==> self.delegation_graph.edges@[k]
                        == pre.delegation_graph.edges@[k],
            decreases n - i,
        {
            if self.delegation_graph.edges[i].edge_id == delegation_id {
                self.delegation_graph.edges[i].is_active = false;
                found = true;
            }
            i += 1;
        }
        proof {
            assert(found == has_edge_id(pre.delegation_graph.edges@, delegation_id@));
            assert(self.delegation_graph.edges@ =~= spec_revoke_edges(
                pre.delegation_graph.edges@,
                delegation_id@,
            ));
        }
        if found {
            let idx = self.find_flow(&delegation_id);
            if let Some(fi) = idx {
                proof {
                    assert(flow_index(pre.delegation_graph.trust_flows@, delegation_id@)
                        == fi as int);
                }
                self.delegation_graph.trust_flows.remove(fi);
                proof {
                    let gs = self.delegation_graph.trust_flows@;
                    let fs = pre.delegation_graph.trust_flows@;
                    assert(gs == fs.remove(fi as int));
                    assert forall|a: int, b: int| 0 <= a < b < gs.len() implies gs[a].flow_id@
                        != gs[b].flow_id@ by {
                        let a0 = if a < fi as int {
                            a
                        } else {
                            a + 1
                        };
                        let b0 = if b < fi as int {
                            b
                        } else {
                            b + 1
                        };
                        assert(gs[a] == fs[a0] && gs[b] == fs[b0]);
                        assert(fs[a0].flow_id@ != fs[b0].flow_id@);
                    }
                }
            }
        }
        Ok(())
    }
}

/// What the delegation returned by a successful creation looks like:
/// everything but the generated id is pinned.
pub open spec fn spec_created_delegation(
    d: Delegation,
    delegator: Seq<char>,
    delegate: Seq<char>,
    dt: DelegationType,
    trust_amount: u128,
    level: DelegationLevel,
    created_at: u64,
) -> bool {
    &&& d.delegator@ == delegator
    &&& d.delegate@ == delegate
    &&& d.delegation_type == dt
    &&& d.trust_amount == trust_amount
    &&& d.delegation_level == level
    &&& d.is_active
    &&& d.created_at == created_at
    &&& d.expires_at is None
    &&& d.last_used == 0
}

/// How a successful creation changes the chain: the registries and the
/// anti-gaming state are untouched, the graph gains the delegation's edge
/// and any missing endpoint nodes, and the trust flow keyed by the new
/// delegation id is recorded with the path's strength.
pub open spec fn spec_delegation_committed(
    c: TrustDelegationChain,
    post: TrustDelegationChain,
    d: Delegation,
    now: u64,
) -> bool {
    &&& post == (TrustDelegationChain { delegation_graph: post.delegation_graph, ..c })
    &&& post.delegation_graph.edges@ == c.delegation_graph.edges@.push(
        post.delegation_graph.edges@.last(),
    )
    &&& spec_edge_matches(
        post.delegation_graph.edges@.last(),
        d.delegation_id@,
        d.delegator@,
        d.delegate@,
        d.trust_amount,
        d.delegation_type,
        now,
    )
    &&& post.delegation_graph.nodes@.take(c.delegation_graph.nodes@.len() as int)
        == c.delegation_graph.nodes@
    &&& c.delegation_graph.nodes@.len() <= post.delegation_graph.nodes@.len()
        <= c.delegation_graph.nodes@.len() + 2
    &&& has_node(post.delegation_graph.nodes@, d.delegator@)
    &&& has_node(post.delegation_graph.nodes@, d.delegate@)
    &&& forall|i: int|
        c.delegation_graph.nodes@.len() <= i < post.delegation_graph.nodes@.len() ==> {
            let n = #[trigger] post.delegation_graph.nodes@[i];
            &&& (n.node_id@ == d.delegator@ || n.node_id@ == d.delegate@)
            &&& spec_node_matches(c, n, n.node_id@)
        }
    &&& (has_node(c.delegation_graph.nodes@, d.delegator@) && has_node(
        c.delegation_graph.nodes@,
        d.delegate@,
    ) ==> post.delegation_graph.nodes@ == c.delegation_graph.nodes@)
    &&& ({
        let fs = c.delegation_graph.trust_flows@;
        let gs = post.delegation_graph.trust_flows@;
        let id = d.delegation_id@;
        let strength = spec_flow_strength(c, seq![d.delegator, d.delegate]);
        if has_flow(fs, id) {
            gs == fs.update(flow_index(fs, id), gs[flow_index(fs, id)]) && spec_flow_matches(
                gs[flow_index(fs, id)],
                id,
                d.delegator@,
                d.delegate@,
                d.trust_amount,
                strength as u64,
                now,
            )
        } else {
            gs == fs.push(gs.last()) && spec_flow_matches(
                gs.last(),
                id,
                d.delegator@,
                d.delegate@,
                d.trust_amount,
                strength as u64,
                now,
            )
        }
    })
}

/// The trust score of any entity of a well-formed chain is a fraction of
/// one: zero without incoming delegations, one for the Foundation, and a
/// weighted mean in between otherwise.
pub proof fn lemma_trust_score_bounds(c: TrustDelegationChain, entity: Seq<char>)
    requires
        c.wf(),
    ensures
        0 <= spec_trust_score(c, entity) <= PPM_SCALE,
{
    if entity != c.foundation.address@ {
        let ds = spec_incoming(c, entity);
        lemma_trust_sums_nonneg(c, ds);
        lemma_trust_num_bounded(c, ds);
        let num = spec_trust_num(c, ds);
        let den = spec_weight_den(ds);
        if den > 0 {
            assert(num / den <= PPM_SCALE as int) by (nonlinear_arith)
                requires
                    den > 0,
                    0 <= num <= PPM_SCALE as int * den,
            ;
            assert(num / den >= 0) by (nonlinear_arith)
                requires
                    den > 0,
                    num >= 0,
            ;
        }
    }
}

/// The base weight of a delegation type, in thousandths.
pub open spec fn spec_type_weight(dt: DelegationType) -> int {
    match dt {
        DelegationType::Trust => 1000,
        DelegationType::Governance => 800,
        DelegationType::KYC => 900,
        DelegationType::Compliance => 700,
        DelegationType::Technical => 600,
        DelegationType::Economic => 500,
    }
}

/// The weight of a delegation level, in thousandths.
pub open spec fn spec_level_weight(dl: DelegationLevel) -> int {
    match dl {
        DelegationLevel::Level1 => 1000,
        DelegationLevel::Level2 => 800,
        DelegationLevel::Level3 => 600,
        DelegationLevel::Level4 => 400,
    }
}

/// The weight of a delegation: its type weight times its level weight, in
/// millionths.
pub open spec fn spec_delegation_weight(d: Delegation) -> int {
    spec_type_weight(d.delegation_type) * spec_level_weight(d.delegation_level)
}

/// All delegations registered on origin wallets, in registry order.
pub open spec fn spec_wallet_delegations(ws: Seq<OriginWallet>) -> Seq<Delegation>
    decreases ws.len(),
{
    if ws.len() == 0 {
        Seq::empty()
    } else {
        spec_wallet_delegations(ws.drop_last()) + ws.last().active_delegations@
    }
}

/// All delegations registered on issuers, in registry order.
pub open spec fn spec_issuer_delegations(is: Seq<CredentialIssuer>) -> Seq<Delegation>
    decreases is.len(),
{
    if is.len() == 0 {
        Seq::empty()
    } else {
        spec_issuer_delegations(is.drop_last()) + is.last().active_delegations@
    }
}

/// Every delegation registered anywhere on the chain: wallet delegations
/// first, then issuer delegations.
pub open spec fn spec_all_delegations(c: TrustDelegationChain) -> Seq<Delegation> {
    spec_wallet_delegations(c.origin_wallets@) + spec_issuer_delegations(c.issuers@)
}

/// The active delegations among `ds` whose delegate is `entity`.
pub open spec fn spec_filter_incoming(ds: Seq<Delegation>, entity: Seq<char>) -> Seq<Delegation> {
    ds.filter(|d: Delegation| d.delegate@ == entity && d.is_active)
}

/// The active incoming delegations of an entity, over the whole chain.
pub open spec fn spec_incoming(c: TrustDelegationChain, entity: Seq<char>) -> Seq<Delegation> {
    spec_filter_incoming(spec_all_delegations(c), entity)
}

/// The numerator of the trust-score formula: the sum over the delegations of
/// delegator trust times delegation weight times trust amount.
pub open spec fn spec_trust_num(c: TrustDelegationChain, ds: Seq<Delegation>) -> int
    decreases ds.len(),
{
    if ds.len() == 0 {
        0
    } else {
        spec_trust_num(c, ds.drop_last()) + c.spec_entity_trust(ds.last().delegator@)
            * (spec_delegation_weight(ds.last()) * ds.last().trust_amount)
    }
}

/// The denominator of the trust-score formula: the sum over the delegations
/// of delegation weight times trust amount.
pub open spec fn spec_weight_den(ds: Seq<Delegation>) -> int
    decreases ds.len(),
{
    if ds.len() == 0 {
        0
    } else {
        spec_weight_den(ds.drop_last()) + spec_delegation_weight(ds.last())
            * ds.last().trust_amount
    }
}

/// The trust score of an entity, in parts per million: one for the
/// Foundation by definition; otherwise the weighted mean of the trust scores
/// of its active incoming delegators, and zero if it has none.
pub open spec fn spec_trust_score(c: TrustDelegationChain, entity: Seq<char>) -> int {
    if entity == c.foundation.address@ {
        PPM_SCALE as int
    } else {
        let ds = spec_incoming(c, entity);
        if spec_weight_den(ds) > 0 {
            spec_trust_num(c, ds) / spec_weight_den(ds)
        } else {
            0
        }
    }
}

/// The Foundation's trust score is one by definition, and an entity with no
/// active incoming delegations scores zero.
pub proof fn lemma_trust_score_foundation_and_isolated(c: TrustDelegationChain, entity: Seq<char>)
    ensures
        spec_trust_score(c, c.foundation.address@) == PPM_SCALE,
        entity != c.foundation.address@ && spec_incoming(c, entity).len() == 0
            ==> spec_trust_score(c, entity) == 0,
{
    if entity != c.foundation.address@ && spec_incoming(c, entity).len() == 0 {
        assert(spec_weight_den(spec_incoming(c, entity)) == 0);
    }
}

/// Chain verification rejects short chains and inactive hops: a delegation
/// chain shorter than three hops never verifies, and neither does one whose
/// Foundation, origin wallet, issuer or credential is inactive.
pub proof fn lemma_chain_verification_rejects(c: TrustDelegationChain, cred: NFTCredential)
    ensures
        cred.delegation_chain@.len() < 3 ==> !spec_chain_valid(c, cred),
        !c.foundation.is_active ==> !spec_chain_valid(c, cred),
        cred.delegation_chain@.len() >= 3 && has_wallet(
            c.origin_wallets@,
            cred.delegation_chain@[1]@,
        ) && !c.origin_wallets@[wallet_index(
            c.origin_wallets@,
            cred.delegation_chain@[1]@,
        )].is_active ==> !spec_chain_valid(c, cred),
        cred.delegation_chain@.len() >= 3 && has_issuer(
            c.issuers@,
            cred.delegation_chain@[2]@,
        ) && !c.issuers@[issuer_index(c.issuers@, cred.delegation_chain@[2]@)].is_active
            ==> !spec_chain_valid(c, cred),
        has_credential(c.individuals@, cred.owner@) && !c.individuals@[credential_index(
            c.individuals@,
            cred.owner@,
        )].is_active ==> !spec_chain_valid(c, cred),
{
}

/// How many active outgoing edges an entity has.
pub open spec fn spec_out_degree(es: Seq<DelegationEdge>, from: Seq<char>) -> int
    decreases es.len(),
{
    if es.len() == 0 {
        0
    } else {
        spec_out_degree(es.drop_last(), from) + if es.last().from_node@ == from
            && es.last().is_active {
            1int
        } else {
            0int
        }
    }
}

/// Whether an entity shows a sybil-style fan-out: more active outgoing edges
/// than the fan-out limit.
pub open spec fn spec_sybil_pattern(c: TrustDelegationChain, entity: Seq<char>) -> bool {
    spec_out_degree(c.delegation_graph.edges@, entity) > SYBIL_FANOUT_LIMIT as int
}

/// Whether an entity sits on a delegation cycle within the scan depth.
pub open spec fn spec_circular_pattern(c: TrustDelegationChain, entity: Seq<char>) -> bool {
    spec_reaches(c.delegation_graph.edges@, entity, entity, CIRCULAR_SCAN_DEPTH as nat)
}

/// Whether an entity concentrates trust: some single active outgoing edge
/// carries more than half of the entity's delegation capacity.
pub open spec fn spec_concentration_pattern(c: TrustDelegationChain, entity: Seq<char>) -> bool {
    match spec_delegation_capacity(c, entity) {
        Some(cap) => exists|i: int|
            0 <= i < c.delegation_graph.edges@.len() && {
                let e = #[trigger] c.delegation_graph.edges@[i];
                &&& e.is_active
                &&& e.from_node@ == entity
                &&& e.trust_amount > cap / 2
            },
        None => false,
    }
}

/// The fixed catalog entry a detected pattern must carry.
pub open spec fn spec_pattern_entry(p: SuspiciousPattern) -> bool {
    match p.pattern_type {
        PatternType::SybilAttack => {
            &&& p.pattern_id@ == "sybil_attack"@
            &&& p.description@ == "Multiple entities with similar patterns"@
            &&& p.severity == Severity::High
            &&& p.detection_threshold == 800_000
            &&& p.penalty == 500_000
            &&& p.cooldown == 86400
        },
        PatternType::CircularDelegation => {
            &&& p.pattern_id@ == "circular_delegation"@
            &&& p.description@ == "Circular trust delegation detected"@
            &&& p.severity == Severity::Medium
            &&& p.detection_threshold == 600_000
            &&& p.penalty == 300_000
            &&& p.cooldown == 3600
        },
        PatternType::TrustConcentration => {
            &&& p.pattern_id@ == "trust_concentration"@
            &&& p.description@ == "Excessive trust concentration"@
            &&& p.severity == Severity::Medium
            &&& p.detection_threshold == 700_000
            &&& p.penalty == 200_000
            &&& p.cooldown == 1800
        },
        _ => false,
    }
}

/// A prefix's trust sums never exceed the whole's, and both are
/// nonnegative.
proof fn lemma_trust_sums_prefix(c: TrustDelegationChain, ds: Seq<Delegation>, k: int)
    requires
        0 <= k <= ds.len(),
    ensures
        0 <= spec_trust_num(c, ds.take(k)) <= spec_trust_num(c, ds),
        0 <= spec_weight_den(ds.take(k)) <= spec_weight_den(ds),
    decreases ds.len() - k,
{
    lemma_trust_sums_nonneg(c, ds.take(k));
    if k == ds.len() {
        assert(ds.take(k) =~= ds);
    } else {
        assert(ds.take(k + 1).drop_last() =~= ds.take(k));
        lemma_trust_term_nonneg(c, ds[k]);
        lemma_trust_sums_prefix(c, ds, k + 1);
    }
}

/// Trust sums are nonnegative.
proof fn lemma_trust_sums_nonneg(c: TrustDelegationChain, ds: Seq<Delegation>)
    ensures
        spec_trust_num(c, ds) >= 0,
        spec_weight_den(ds) >= 0,
    decreases ds.len(),
{
    if ds.len() > 0 {
        lemma_trust_sums_nonneg(c, ds.drop_last());
        lemma_trust_term_nonneg(c, ds.last());
    }
}

/// Each delegation contributes nonnegative terms to both sums, and its
/// numerator term is at most one (in parts per million) times its
/// denominator term.
proof fn lemma_trust_term_nonneg(c: TrustDelegationChain, d: Delegation)
    ensures
        spec_delegation_weight(d) * d.trust_amount >= 0,
        c.spec_entity_trust(d.delegator@) * (spec_delegation_weight(d) * d.trust_amount) >= 0,
        c.wf() ==> c.spec_entity_trust(d.delegator@) * (spec_delegation_weight(d)
            * d.trust_amount) <= PPM_SCALE as int * (spec_delegation_weight(d)
            * d.trust_amount),
{
    let w = spec_delegation_weight(d);
    let a = d.trust_amount as int;
    let t = c.spec_entity_trust(d.delegator@) as int;
    assert(w >= 0);
    assert(w * a >= 0) by (nonlinear_arith)
        requires
            w >= 0,
            a >= 0,
    ;
    assert(t * (w * a) >= 0) by (nonlinear_arith)
        requires
            t >= 0,
            w * a >= 0,
    ;
    if c.wf() {
        lemma_entity_trust_bounded(c, d.delegator@);
        assert(t * (w * a) <= PPM_SCALE as int * (w * a)) by (nonlinear_arith)
            requires
                0 <= t <= PPM_SCALE as int,
                w * a >= 0,
        ;
    }
}

/// The numerator of the trust-score formula is bounded by one (in parts per
/// million) times the denominator.
proof fn lemma_trust_num_bounded(c: TrustDelegationChain, ds: Seq<Delegation>)
    requires
        c.wf(),
    ensures
        spec_trust_num(c, ds) <= PPM_SCALE as int * spec_weight_den(ds),
    decreases ds.len(),
{
    if ds.len() > 0 {
        lemma_trust_num_bounded(c, ds.drop_last());
        lemma_trust_term_nonneg(c, ds.last());
        let w = spec_delegation_weight(ds.last()) * ds.last().trust_amount;
        assert(PPM_SCALE as int * (spec_weight_den(ds.drop_last()) + w) == PPM_SCALE as int
            * spec_weight_den(ds.drop_last()) + PPM_SCALE as int * w) by (nonlinear_arith);
    }
}

/// Splitting a filtered concatenation at the boundary.
proof fn lemma_filter_incoming_concat(a: Seq<Delegation>, b: Seq<Delegation>, entity: Seq<char>)
    ensures
        spec_filter_incoming(a + b, entity) == spec_filter_incoming(a, entity)
            + spec_filter_incoming(b, entity),
    decreases b.len(),
{
    reveal_with_fuel(Seq::filter, 2);
    if b.len() == 0 {
        assert(a + b =~= a);
        assert(spec_filter_incoming(b, entity) =~= Seq::<Delegation>::empty());
        assert(spec_filter_incoming(a, entity) + spec_filter_incoming(b, entity)
            =~= spec_filter_incoming(a, entity));
    } else {
        lemma_filter_incoming_concat(a, b.drop_last(), entity);
        assert((a + b).drop_last() =~= a + b.drop_last());
        assert((a + b).last() == b.last());
        if b.last().delegate@ == entity && b.last().is_active {
            assert(spec_filter_incoming(a + b, entity) =~= spec_filter_incoming(
                a + b.drop_last(),
                entity,
            ).push(b.last()));
            assert(spec_filter_incoming(b, entity) =~= spec_filter_incoming(
                b.drop_last(),
                entity,
            ).push(b.last()));
            assert(spec_filter_incoming(a, entity) + spec_filter_incoming(b, entity)
                =~= (spec_filter_incoming(a, entity) + spec_filter_incoming(
                b.drop_last(),
                entity,
            )).push(b.last()));
        } else {
            assert(spec_filter_incoming(a + b, entity) == spec_filter_incoming(
                a + b.drop_last(),
                entity,
            ));
            assert(spec_filter_incoming(b, entity) == spec_filter_incoming(
                b.drop_last(),
                entity,
            ));
        }
    }
}

impl TrustDelegationChain {
    /// The weight of a delegation, in millionths: its type weight times its
    /// level weight.
    fn calculate_delegation_weight(&self, delegation: &Delegation) -> (r: u64)
        ensures
            r == spec_delegation_weight(*delegation),
            r <= PPM_SCALE,
    {
        let base_weight: u64 = match delegation.delegation_type {
            DelegationType::Trust => 1000,
            DelegationType::Governance => 800,
            DelegationType::KYC => 900,
            DelegationType::Compliance => 700,
            DelegationType::Technical => 600,
            DelegationType::Economic => 500,
        };
        let level_weight: u64 = match delegation.delegation_level {
            DelegationLevel::Level1 => 1000,
            DelegationLevel::Level2 => 800,
            DelegationLevel::Level3 => 600,
            DelegationLevel::Level4 => 400,
        };
        base_weight * level_weight
    }

    /// All active delegations registered on the chain whose delegate is the
    /// given entity.
    #[verifier::loop_isolation(false)]
    #[verifier::rlimit(50)]
    pub fn get_incoming_delegations(&self, entity_id: &String) -> (r: Vec<Delegation>)
        ensures
            r@ == spec_incoming(*self, entity_id@),
    {
        let ghost entity = entity_id@;
        let mut out: Vec<Delegation> = Vec::new();
        let mut i: usize = 0;
        proof {
            assert(spec_wallet_delegations(self.origin_wallets@.take(0))
                =~= Seq::<Delegation>::empty());
            reveal_with_fuel(Seq::filter, 2);
            assert(out@ =~= spec_filter_incoming(
                spec_wallet_delegations(self.origin_wallets@.take(0)),
                entity,
            ));
        }
        while i < self.origin_wallets.len()
            invariant
                i <= self.origin_wallets@.len(),
                out@ == spec_filter_incoming(
                    spec_wallet_delegations(self.origin_wallets@.take(i as int)),
                    entity,
                ),
            decreases self.origin_wallets@.len() - i,
        {
            let ghost base = spec_wallet_delegations(self.origin_wallets@.take(i as int));
            proof {
                assert(self.origin_wallets@.take(i + 1).drop_last()
                    =~= self.origin_wallets@.take(i as int));
                assert(self.origin_wallets@.take(i + 1).last()
                    == self.origin_wallets@[i as int]);
            }
            let ds = &self.origin_wallets[i].active_delegations;
            let mut j: usize = 0;
            while j < ds.len()
                invariant
                    j <= ds@.len(),
                    ds@ == self.origin_wallets@[i as int].active_delegations@,
                    i < self.origin_wallets@.len(),
                    base == spec_wallet_delegations(self.origin_wallets@.take(i as int)),
                    out@ == spec_filter_incoming(base, entity) + spec_filter_incoming(
                        ds@.take(j as int),
                        entity,
                    ),
                decreases ds@.len() - j,
            {
                proof {
                    reveal_with_fuel(Seq::filter, 2);
                    assert(ds@.take(j + 1).drop_last() =~= ds@.take(j as int));
                    assert(ds@.take(j + 1).last() == ds@[j as int]);
                }
                let d = &ds[j];
                if d.is_active && d.delegate == *entity_id {
                    out.push(d.clone());
                    proof {
                        reveal_with_fuel(Seq::filter, 2);
                        assert(spec_filter_incoming(ds@.take(j + 1), entity)
                            =~= spec_filter_incoming(ds@.take(j as int), entity).push(
                            ds@[j as int],
                        ));
                        assert(out@ =~= spec_filter_incoming(base, entity)
                            + spec_filter_incoming(ds@.take(j + 1), entity));
                    }
                } else {
                    proof {
                        reveal_with_fuel(Seq::filter, 2);
                        assert(spec_filter_incoming(ds@.take(j + 1), entity)
                            == spec_filter_incoming(ds@.take(j as int), entity));
                    }
                }
                j += 1;
            }
            proof {
                assert(ds@.take(ds@.len() as int) == ds@);
                lemma_filter_incoming_concat(base, ds@, entity);
                assert(out@ == spec_filter_incoming(base + ds@, entity));
                assert(spec_wallet_delegations(self.origin_wallets@.take(i + 1)) == base + ds@);
            }
            i += 1;
        }
        proof {
            assert(self.origin_wallets@.take(self.origin_wallets@.len() as int)
                == self.origin_wallets@);
        }
        let ghost wallet_part = spec_wallet_delegations(self.origin_wallets@);
        let mut i2: usize = 0;
        proof {
            assert(spec_issuer_delegations(self.issuers@.take(0))
                =~= Seq::<Delegation>::empty());
            reveal_with_fuel(Seq::filter, 2);
            lemma_filter_incoming_concat(
                wallet_part,
                spec_issuer_delegations(self.issuers@.take(0)),
                entity,
            );
            assert(wallet_part + spec_issuer_delegations(self.issuers@.take(0))
                =~= wallet_part);
        }
        while i2 < self.issuers.len()
            invariant
                i2 <= self.issuers@.len(),
                wallet_part == spec_wallet_delegations(self.origin_wallets@),
                out@ == spec_filter_incoming(
                    wallet_part + spec_issuer_delegations(self.issuers@.take(i2 as int)),
                    entity,
                ),
            decreases self.issuers@.len() - i2,
        {
            let ghost base = wallet_part + spec_issuer_delegations(
                self.issuers@.take(i2 as int),
            );
            proof {
                assert(self.issuers@.take(i2 + 1).drop_last() =~= self.issuers@.take(i2 as int));
                assert(self.issuers@.take(i2 + 1).last() == self.issuers@[i2 as int]);
                lemma_filter_incoming_concat(
                    wallet_part,
                    spec_issuer_delegations(self.issuers@.take(i2 as int)),
                    entity,
                );
            }
            let ds = &self.issuers[i2].active_delegations;
            let mut j: usize = 0;
            while j < ds.len()
                invariant
                    j <= ds@.len(),
                    ds@ == self.issuers@[i2 as int].active_delegations@,
                    i2 < self.issuers@.len(),
                    base == wallet_part + spec_issuer_delegations(
                        self.issuers@.take(i2 as int),
                    ),
                    wallet_part == spec_wallet_delegations(self.origin_wallets@),
                    out@ == spec_filter_incoming(base, entity) + spec_filter_incoming(
                        ds@.take(j as int),
                        entity,
                    ),
                decreases ds@.len() - j,
            {
                proof {
                    reveal_with_fuel(Seq::filter, 2);
                    assert(ds@.take(j + 1).drop_last() =~= ds@.take(j as int));
                    assert(ds@.take(j + 1).last() == ds@[j as int]);
                }
                let d = &ds[j];
                if d.is_active && d.delegate == *entity_id {
                    out.push(d.clone());
                    proof {
                        reveal_with_fuel(Seq::filter, 2);
                        assert(spec_filter_incoming(ds@.take(j + 1), entity)
                            =~= spec_filter_incoming(ds@.take(j as int), entity).push(
                            ds@[j as int],
                        ));
                        assert(out@ =~= spec_filter_incoming(base, entity)
                            + spec_filter_incoming(ds@.take(j + 1), entity));
                    }
                } else {
                    proof {
                        reveal_with_fuel(Seq::filter, 2);
                        assert(spec_filter_incoming(ds@.take(j + 1), entity)
                            == spec_filter_incoming(ds@.take(j as int), entity));
                    }
                }
                j += 1;
            }
            proof {
                assert(ds@.take(ds@.len() as int) == ds@);
                lemma_filter_incoming_concat(base, ds@, entity);
                assert(out@ == spec_filter_incoming(base + ds@, entity));
                assert(base + ds@ =~= wallet_part + spec_issuer_delegations(
                    self.issuers@.take(i2 + 1),
                ));
            }
            i2 += 1;
        }
        proof {
            assert(self.issuers@.take(self.issuers@.len() as int) == self.issuers@);
            lemma_filter_incoming_concat(wallet_part, spec_issuer_delegations(self.issuers@), entity);
        }
        out
    }

    /// The trust score of an entity, in parts per million: one for the
    /// Foundation by definition; otherwise the weighted mean of its active
    /// incoming delegations (zero if it has none). Sums that exceed a
    /// machine word are an internal error.
    #[verifier::loop_isolation(false)]
    pub fn calculate_trust_score(&self, entity_id: &String) -> (r: Result<u64, TrustError>)
        requires
            self.wf(),
        ensures
            entity_id@ == self.foundation.address@ ==> r == Ok::<u64, TrustError>(PPM_SCALE),
            entity_id@ != self.foundation.address@ ==> {
                let ds = spec_incoming(*self, entity_id@);
                if spec_trust_num(*self, ds) <= u128::MAX && spec_weight_den(ds) <= u128::MAX {
                    r is Ok && r->Ok_0 == spec_trust_score(*self, entity_id@)
                } else {
                    r == Err::<u64, TrustError>(TrustError::InternalError)
                }
            },
    {
        if self.foundation.address == *entity_id {
            return Ok(PPM_SCALE);
        }
        let incoming = self.get_incoming_delegations(entity_id);
        let ghost ds = spec_incoming(*self, entity_id@);
        let mut num: u128 = 0;
        let mut den: u128 = 0;
        let mut i: usize = 0;
        proof {
            assert(ds.take(0) =~= Seq::<Delegation>::empty());
        }
        while i < incoming.len()
            invariant
                i <= incoming@.len(),
                incoming@ == ds,
                num == spec_trust_num(*self, ds.take(i as int)),
                den == spec_weight_den(ds.take(i as int)),
            decreases incoming@.len() - i,
        {
            proof {
                assert(ds.take(i + 1).drop_last() =~= ds.take(i as int));
                assert(ds.take(i + 1).last() == ds[i as int]);
                lemma_trust_term_nonneg(*self, ds[i as int]);
            }
            let d = &incoming[i];
            let weight = self.calculate_delegation_weight(d);
            let delegator_trust = self.get_entity_trust_score(&d.delegator);
            let wa = match crate::numeric::mul_u128_checked(weight as u128, d.trust_amount) {
                Some(x) => x,
                None => {
                    proof {
                        lemma_trust_sums_prefix(*self, ds, i + 1);
                    }
                    return Err(TrustError::InternalError);
                },
            };
            let term = match crate::numeric::mul_u128_checked(delegator_trust as u128, wa) {
                Some(x) => x,
                None => {
                    proof {
                        lemma_trust_sums_prefix(*self, ds, i + 1);
                    }
                    return Err(TrustError::InternalError);
                },
            };
            let num2 = match crate::numeric::add_u128_checked(num, term) {
                Some(x) => x,
                None => {
                    proof {
                        lemma_trust_sums_prefix(*self, ds, i + 1);
                    }
                    return Err(TrustError::InternalError);
                },
            };
            let den2 = match crate::numeric::add_u128_checked(den, wa) {
                Some(x) => x,
                None => {
                    proof {
                        lemma_trust_sums_prefix(*self, ds, i + 1);
                    }
                    return Err(TrustError::InternalError);
                },
            };
            num = num2;
            den = den2;
            i += 1;
        }
        proof {
            assert(ds.take(ds.len() as int) == ds);
        }
        if den > 0 {
            proof {
                lemma_trust_num_bounded(*self, ds);
                let n = num as int;
                let dn = den as int;
                assert(n / dn <= PPM_SCALE as int) by (nonlinear_arith)
                    requires
                        dn > 0,
                        0 <= n <= PPM_SCALE as int * dn,
                ;
                assert(n / dn >= 0) by (nonlinear_arith)
                    requires
                        dn > 0,
                        n >= 0,
                ;
            }
            Ok((num / den) as u64)
        } else {
            Ok(0)
        }
    }

    /// Scan an entity's delegation activity for suspicious patterns: a
    /// sybil-style fan-out, a delegation cycle, or trust concentration. Each
    /// detected pattern carries its catalog entry.
    #[verifier::loop_isolation(false)]
    pub fn detect_suspicious_patterns(&self, entity_id: &String) -> (r: Result<
        Vec<SuspiciousPattern>,
        TrustError,
    >)
        requires
            self.wf(),
        ensures
            r is Ok,
            ({
                let v = r->Ok_0@;
                &&& v.len() == (if spec_sybil_pattern(*self, entity_id@) {
                    1int
                } else {
                    0int
                }) + (if spec_circular_pattern(*self, entity_id@) {
                    1int
                } else {
                    0int
                }) + (if spec_concentration_pattern(*self, entity_id@) {
                    1int
                } else {
                    0int
                })
                &&& (spec_sybil_pattern(*self, entity_id@) <==> exists|i: int|
                    0 <= i < v.len() && (#[trigger] v[i].pattern_type)
                        == PatternType::SybilAttack)
                &&& (spec_circular_pattern(*self, entity_id@) <==> exists|i: int|
                    0 <= i < v.len() && (#[trigger] v[i].pattern_type)
                        == PatternType::CircularDelegation)
                &&& (spec_concentration_pattern(*self, entity_id@) <==> exists|i: int|
                    0 <= i < v.len() && (#[trigger] v[i].pattern_type)
                        == PatternType::TrustConcentration)
                &&& forall|i: int| 0 <= i < v.len() ==> spec_pattern_entry(#[trigger] v[i])
            }),
    {
        let mut detected: Vec<SuspiciousPattern> = Vec::new();
        let sybil = self.detect_sybil_attack(entity_id);
        let circular = self.detect_circular_delegation(entity_id);
        let concentration = self.detect_trust_concentration(entity_id);
        if sybil {
            detected.push(
                SuspiciousPattern {
                    pattern_id: "sybil_attack".to_owned(),
                    pattern_type: PatternType::SybilAttack,
                    severity: Severity::High,
                    detection_threshold: 800_000,
                    penalty: 500_000,
                    cooldown: 86400,
                    description: "Multiple entities with similar patterns".to_owned(),
                },
            );
        }
        if circular {
            detected.push(
                SuspiciousPattern {
                    pattern_id: "circular_delegation".to_owned(),
                    pattern_type: PatternType::CircularDelegation,
                    severity: Severity::Medium,
                    detection_threshold: 600_000,
                    penalty: 300_000,
                    cooldown: 3600,
                    description: "Circular trust delegation detected".to_owned(),
                },
            );
        }
        if concentration {
            detected.push(
                SuspiciousPattern {
                    pattern_id: "trust_concentration".to_owned(),
                    pattern_type: PatternType::TrustConcentration,
                    severity: Severity::Medium,
                    detection_threshold: 700_000,
                    penalty: 200_000,
                    cooldown: 1800,
                    description: "Excessive trust concentration".to_owned(),
                },
            );
        }
        proof {
            let v = detected@;
            if sybil {
                assert(v[0].pattern_type == PatternType::SybilAttack);
            }
            if circular {
                let ci: int = if sybil {
                    1
                } else {
                    0
                };
                assert(v[ci].pattern_type == PatternType::CircularDelegation);
            }
            if concentration {
                let ti: int = (if sybil {
                    1int
                } else {
                    0int
                }) + (if circular {
                    1int
                } else {
                    0int
                });
                assert(v[ti].pattern_type == PatternType::TrustConcentration);
            }
            assert forall|i: int| 0 <= i < v.len() implies spec_pattern_entry(#[trigger] v[i]) by {
                assert(v[i].pattern_type == PatternType::SybilAttack || v[i].pattern_type
                    == PatternType::CircularDelegation || v[i].pattern_type
                    == PatternType::TrustConcentration);
            }
        }
        Ok(detected)
    }

    /// Whether an entity fans out to more delegates than the sybil limit.
    #[verifier::loop_isolation(false)]
    fn detect_sybil_attack(&self, entity_id: &String) -> (r: bool)
        ensures
            r == spec_sybil_pattern(*self, entity_id@),
    {
        let edges = &self.delegation_graph.edges;
        let mut count: usize = 0;
        let mut i: usize = 0;
        proof {
            assert(edges@.take(0) =~= Seq::<DelegationEdge>::empty());
        }
        while i < edges.len()
            invariant
                i <= edges@.len(),
                count == spec_out_degree(edges@.take(i as int), entity_id@),
                count <= i,
            decreases edges@.len() - i,
        {
            proof {
                assert(edges@.take(i + 1).drop_last() =~= edges@.take(i as int));
                assert(edges@.take(i + 1).last() == edges@[i as int]);
            }
            let e = &edges[i];
            if e.is_active && e.from_node == *entity_id {
                count += 1;
            }
            i += 1;
        }
        proof {
            assert(edges@.take(edges@.len() as int) == edges@);
        }
        count > SYBIL_FANOUT_LIMIT
    }

    /// Whether an entity sits on a delegation cycle within the scan depth.
    fn detect_circular_delegation(&self, entity_id: &String) -> (r: bool)
        ensures
            r == spec_circular_pattern(*self, entity_id@),
    {
        self.reaches_within(entity_id, entity_id, CIRCULAR_SCAN_DEPTH)
    }

    /// Whether a single active outgoing edge of the entity carries more than
    /// half its delegation capacity.
    #[verifier::loop_isolation(false)]
    fn detect_trust_concentration(&self, entity_id: &String) -> (r: bool)
        requires
            self.wf(),
        ensures
            r == spec_concentration_pattern(*self, entity_id@),
    {
        let cap = match self.get_delegation_capacity(entity_id) {
            Ok(c) => c,
            Err(_) => {
                return false;
            },
        };
        let half = cap / 2;
        let edges = &self.delegation_graph.edges;
        let mut i: usize = 0;
        while i < edges.len()
            invariant
                i <= edges@.len(),
                forall|k: int|
                    0 <= k < i ==> !{
                        let e = #[trigger] edges@[k];
                        &&& e.is_active
                        &&& e.from_node@ == entity_id@
                        &&& e.trust_amount > cap / 2
                    },
            decreases edges@.len() - i,
        {
            let e = &edges[i];
            if e.is_active && e.from_node == *entity_id && e.trust_amount > half {
                return true;
            }
            i += 1;
        }
        false
    }
}

/// Revoking the same delegation twice leaves the state of the first
/// revocation unchanged: edge deactivation is idempotent, and the flow keyed
/// by the revoked id is already gone.
pub proof fn lemma_revoke_idempotent(
    es: Seq<DelegationEdge>,
    fs: Seq<TrustFlow>,
    id: Seq<char>,
)
    ensures
        spec_revoke_edges(spec_revoke_edges(es, id), id) == spec_revoke_edges(es, id),
        has_flow(fs, id) && (forall|i: int, j: int|
            0 <= i < j < fs.len() ==> fs[i].flow_id@ != fs[j].flow_id@) ==> !has_flow(
            fs.remove(flow_index(fs, id)),
            id,
        ),
{
    assert(spec_revoke_edges(spec_revoke_edges(es, id), id) =~= spec_revoke_edges(es, id)) by {
        assert forall|k: int|
            0 <= k < es.len() implies spec_revoke_edges(spec_revoke_edges(es, id), id)[k]
            == spec_revoke_edges(es, id)[k] by {
            assert(spec_revoke_edges(es, id)[k] == spec_revoke_edge(es[k], id));
        }
    }
    if has_flow(fs, id) && (forall|i: int, j: int|
        0 <= i < j < fs.len() ==> fs[i].flow_id@ != fs[j].flow_id@) {
        let fi = flow_index(fs, id);
        let gs = fs.remove(fi);
        assert(!has_flow(gs, id)) by {
            if has_flow(gs, id) {
                let k = choose|k: int| 0 <= k < gs.len() && gs[k].flow_id@ == id;
                let k0 = if k < fi {
                    k
                } else {
                    k + 1
                };
                assert(gs[k] == fs[k0]);
                assert(fs[k0].flow_id@ == id && fs[fi].flow_id@ == id && k0 != fi);
                if k0 < fi {
                    assert(fs[k0].flow_id@ != fs[fi].flow_id@);
                } else {
                    assert(fs[fi].flow_id@ != fs[k0].flow_id@);
                }
            }
        }
    }
}

/// A freshly created node keeps matching when judged against any chain with
/// the same registries.
proof fn lemma_node_matches_registries(
    c1: TrustDelegationChain,
    c2: TrustDelegationChain,
    n: DelegationNode,
)
    requires
        c1.foundation.address@ == c2.foundation.address@,
        c1.origin_wallets@ == c2.origin_wallets@,
        c1.issuers@ == c2.issuers@,
        c1.individuals@ == c2.individuals@,
        spec_node_matches(c1, n, n.node_id@),
    ensures
        spec_node_matches(c2, n, n.node_id@),
{
}

/// A flow strength over a path is a fraction of one for well-formed chains.
proof fn lemma_flow_strength_bounded(c: TrustDelegationChain, path: Seq<String>)
    requires
        c.wf(),
    ensures
        0 <= spec_flow_strength(c, path) <= PPM_SCALE,
{
    lemma_strength_sum_bounds(c, path);
    if path.len() > 0 {
        let n = path.len() as int;
        let total = spec_strength_sum(c, path);
        assert(total / n <= PPM_SCALE as int) by (nonlinear_arith)
            requires
                n > 0,
                0 <= total <= n * (PPM_SCALE as int),
        ;
        assert(total / n >= 0) by (nonlinear_arith)
            requires
                n > 0,
                total >= 0,
        ;
    }
}

/// The position-weighted sum over a path is bounded by the path length
/// times one.
proof fn lemma_strength_sum_bounds(c: TrustDelegationChain, path: Seq<String>)
    requires
        c.wf(),
    ensures
        0 <= spec_strength_sum(c, path) <= path.len() * (PPM_SCALE as int),
    decreases path.len(),
{
    if path.len() > 0 {
        lemma_strength_sum_bounds(c, path.drop_last());
        lemma_entity_trust_bounded(c, path.last()@);
        let t = c.spec_entity_trust(path.last()@) as int;
        let w = spec_position_weight(path.len() - 1);
        assert(0 <= t * w <= PPM_SCALE as int * 1000) by (nonlinear_arith)
            requires
                0 <= t <= PPM_SCALE as int,
                0 <= w <= 1000,
        ;
        assert(t * w / 1000 <= PPM_SCALE as int) by (nonlinear_arith)
            requires
                t * w <= PPM_SCALE as int * 1000,
        ;
        assert((path.len() - 1) * (PPM_SCALE as int) + PPM_SCALE as int == path.len() * (
        PPM_SCALE as int)) by (nonlinear_arith);
    }
}

/// Prefixes of the used-capacity sum never shrink.
proof fn lemma_used_capacity_monotone(es: Seq<DelegationEdge>, from: Seq<char>, n: int)
    requires
        0 <= n <= es.len(),
    ensures
        spec_used_capacity(es.take(n), from) >= 0,
    decreases n,
{
    if n > 0 {
        assert(es.take(n).drop_last() =~= es.take(n - 1));
        lemma_used_capacity_monotone(es, from, n - 1);
    }
}

/// A prefix of the edge table never uses more capacity than the whole.
proof fn lemma_used_capacity_prefix(es: Seq<DelegationEdge>, from: Seq<char>, k: int)
    requires
        0 <= k <= es.len(),
    ensures
        spec_used_capacity(es.take(k), from) <= spec_used_capacity(es, from),
    decreases es.len() - k,
{
    if k == es.len() {
        assert(es.take(k) =~= es);
    } else {
        assert(es.take(k + 1).drop_last() =~= es.take(k));
        lemma_used_capacity_prefix(es, from, k + 1);
    }
}

/// Relies on uuid::Uuid::new_v4 for a fresh random identifier; nothing is
/// assumed about the returned text.
#[verifier::external_body]
fn generate_delegation_id() -> (r: String) {
    format!("delegation_{}", uuid::Uuid::new_v4())
}

/// Every stored entity trust score of a well-formed chain is a fraction of
/// one.
pub proof fn lemma_entity_trust_bounded(c: TrustDelegationChain, id: Seq<char>)
    requires
        c.wf(),
    ensures
        c.spec_entity_trust(id) <= PPM_SCALE,
{
}

} // verus!
