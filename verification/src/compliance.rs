//! The multi-layer compliance framework: layer configurations, regulatory
//! rules, geographic restrictions and origin-wallet vetting, combined into a
//! per-operation compliance verdict.
//!
//! The consensus core consumes only the verdict (`is_compliant`) and the
//! score. Jurisdiction-specific rule predicates belong to the external rule
//! engine; this layer checks rule structure: that every data field a
//! requirement demands is present on the operation.
//!
//! The compliance score is carried in hundredths: a fully compliant
//! operation scores 100, and every violation deducts a fixed amount, with
//! the score floored at zero.

use vstd::prelude::*;

verus! {

/// The layers of the ecosystem, from full vetting down to service-specific
/// rules.
#[derive(Debug, Clone, Copy, PartialEq, Eq, Structural)]
pub enum LayerType {
    Mainnet,
    TrustLayer,
    EdgeLayer,
    MeshLayer,
}

/// Privacy levels an operation can run under.
#[derive(Debug, Clone, Copy, PartialEq, Eq, Structural)]
pub enum PrivacyLevel {
    Public,
    SemiPrivate,
    Private,
    Anonymous,
}

/// Families of regulatory rules.
#[derive(Debug, Clone)]
pub enum RuleType {
    AML,
    KYC,
    GDPR,
    CCPA,
    SOX,
    PCI,
    HIPAA,
    Custom(String),
}

/// Kinds of data a requirement can demand.
#[derive(Debug, Clone, Copy, PartialEq, Eq, Structural)]
pub enum DataType {
    String,
    Number,
    Date,
    Address,
    Document,
    Biometric,
    Location,
    Transaction,
}

/// Kinds of field-level validation a rule can name. The predicates
/// themselves are evaluated by the external rule engine.
#[derive(Debug, Clone, Copy, PartialEq, Eq, Structural)]
pub enum ValidationType {
    Format,
    Range,
    Existence,
    Consistency,
    Blacklist,
    Whitelist,
}

/// How hard a rule is enforced.
#[derive(Debug, Clone, Copy, PartialEq, Eq, Structural)]
pub enum EnforcementLevel {
    Advisory,
    Mandatory,
    Blocking,
    Critical,
}

/// Kinds of geographic restrictions.
#[derive(Debug, Clone, Copy, PartialEq, Eq, Structural)]
pub enum RestrictionType {
    Allowed,
    Restricted,
    Blocked,
    Special,
}

/// Kinds of operations subject to compliance.
#[derive(Debug, Clone, Copy, PartialEq, Eq, Structural)]
pub enum OperationType {
    Transaction,
    Staking,
    Governance,
    ServiceProvision,
    DataProcessing,
    IdentityVerification,
    CrossBorder,
    HighValue,
}

/// Compliance tiers of an origin wallet in this framework.
#[derive(Debug, Clone, Copy, PartialEq, Eq, Structural)]
pub enum ComplianceLevel {
    Basic,
    Enhanced,
    Institutional,
    Government,
}

/// A data field a requirement demands.
#[derive(Debug, Clone)]
pub struct DataField {
    pub field_name: String,
    pub field_type: DataType,
    pub is_required: bool,
    pub is_sensitive: bool,
    pub encryption_required: bool,
}

/// A field-level validation a rule names; its parameters are free-form
/// key-value pairs for the external rule engine.
#[derive(Debug, Clone)]
pub struct ValidationRule {
    pub rule_id: String,
    pub validation_type: ValidationType,
    pub parameters: Vec<(String, String)>,
    pub error_message: String,
}

/// A specific compliance requirement of a regulatory rule.
#[derive(Debug, Clone)]
pub struct ComplianceRequirement {
    pub requirement_id: String,
    pub description: String,
    pub data_required: Vec<DataField>,
    pub validation_rules: Vec<ValidationRule>,
    /// Data retention period, in days.
    pub retention_period: u64,
}

/// A regulatory rule of some jurisdiction.
#[derive(Debug, Clone)]
pub struct RegulatoryRule {
    pub jurisdiction: String,
    pub rule_type: RuleType,
    pub requirements: Vec<ComplianceRequirement>,
    pub enforcement_level: EnforcementLevel,
}

/// A geographic restriction of a layer.
#[derive(Debug, Clone)]
pub struct GeographicRestriction {
    pub country_code: String,
    pub restriction_type: RestrictionType,
    pub allowed_operations: Vec<OperationType>,
    pub blocked_operations: Vec<OperationType>,
    pub special_requirements: Vec<ComplianceRequirement>,
}

/// The compliance configuration of one ecosystem layer.
#[derive(Debug, Clone)]
pub struct ComplianceLayer {
    pub layer_type: LayerType,
    pub kyc_required: bool,
    pub origin_wallet_required: bool,
    pub privacy_level: PrivacyLevel,
    pub regulatory_rules: Vec<RegulatoryRule>,
    pub geographic_restrictions: Vec<GeographicRestriction>,
}

/// The registered compliance state of an origin wallet.
#[derive(Debug, Clone)]
pub struct OriginWalletCompliance {
    /// Unique key of the wallet.
    pub country_code: String,
    pub wallet_address: String,
    pub compliance_level: ComplianceLevel,
    pub verified_requirements: Vec<String>,
    pub last_verification: u64,
    pub next_verification: u64,
}

/// The verdict of a compliance check: the pass/fail flag the consensus core
/// reads, the score in hundredths, and the collected messages.
#[derive(Debug)]
pub struct ComplianceStatus {
    pub is_compliant: bool,
    /// Compliance score in hundredths of 1, floored at zero.
    pub compliance_score: u64,
    pub missing_requirements: Vec<String>,
    pub warnings: Vec<String>,
    pub errors: Vec<String>,
    pub recommendations: Vec<String>,
}

/// An operation submitted for compliance checking.
#[derive(Debug, Clone)]
pub struct Operation {
    pub id: String,
    pub operation_type: OperationType,
    pub country_code: String,
    pub has_kyc: bool,
    pub has_origin_wallet: bool,
    pub privacy_level: PrivacyLevel,
    /// Data fields attached to the operation, keyed by field name.
    pub data_fields: Vec<(String, String)>,
}

/// Compliance-framework failures.
#[derive(Debug, Clone, PartialEq, Eq, Structural)]
pub enum ComplianceError {
    LayerNotFound,
    InvalidOperation,
    ValidationFailed,
    CacheError,
    NetworkError,
}

/// The compliance manager: per-layer configurations, registered origin
/// wallets, the active regulatory rules, and the verdict cache that is
/// cleared whenever the rules change.
pub struct ComplianceManager {
    pub layers: Vec<ComplianceLayer>,
    pub origin_wallets: Vec<OriginWalletCompliance>,
    pub active_rules: Vec<RegulatoryRule>,
    pub compliance_cache: Vec<(String, LayerType, ComplianceStatus)>,
}

/// Whether the operation carries a data field of the given name.
pub open spec fn spec_has_field(op: Operation, name: Seq<char>) -> bool {
    exists|i: int| 0 <= i < op.data_fields@.len() && (#[trigger] op.data_fields@[i]).0@ == name
}

/// Whether an operation satisfies a requirement: every required data field
/// is present. Field-level predicates belong to the external rule engine.
pub open spec fn spec_requirement_satisfied(op: Operation, req: ComplianceRequirement) -> bool {
    forall|i: int|
        0 <= i < req.data_required@.len() ==> ((#[trigger] req.data_required@[i]).is_required
            ==> spec_has_field(op, req.data_required@[i].field_name@))
}

/// Whether an operation's privacy level satisfies a layer's required level.
pub open spec fn spec_privacy_ok(required: PrivacyLevel, actual: PrivacyLevel) -> bool {
    match required {
        PrivacyLevel::Public => true,
        PrivacyLevel::SemiPrivate => actual == PrivacyLevel::Public || actual
            == PrivacyLevel::SemiPrivate,
        PrivacyLevel::Private => actual == PrivacyLevel::Private || actual
            == PrivacyLevel::Anonymous,
        PrivacyLevel::Anonymous => actual == PrivacyLevel::Anonymous,
    }
}

/// The score deduction a violated requirement draws under an enforcement
/// level, in hundredths.
pub open spec fn spec_enforcement_deduction(e: EnforcementLevel) -> int {
    match e {
        EnforcementLevel::Critical => 50,
        EnforcementLevel::Blocking => 40,
        EnforcementLevel::Mandatory => 30,
        EnforcementLevel::Advisory => 10,
    }
}

/// The deduction a list of requirements draws from an operation under one
/// enforcement level.
pub open spec fn spec_requirements_deduction(
    op: Operation,
    reqs: Seq<ComplianceRequirement>,
    e: EnforcementLevel,
) -> int
    decreases reqs.len(),
{
    if reqs.len() == 0 {
        0
    } else {
        spec_requirements_deduction(op, reqs.drop_last(), e) + if spec_requirement_satisfied(
            op,
            reqs.last(),
        ) {
            0int
        } else {
            spec_enforcement_deduction(e)
        }
    }
}

/// The deduction the active regulatory rules draw from an operation.
pub open spec fn spec_rules_deduction(op: Operation, rules: Seq<RegulatoryRule>) -> int
    decreases rules.len(),
{
    if rules.len() == 0 {
        0
    } else {
        spec_rules_deduction(op, rules.drop_last()) + spec_requirements_deduction(
            op,
            rules.last().requirements@,
            rules.last().enforcement_level,
        )
    }
}

/// Whether the active rules hold a non-advisory requirement the operation
/// violates.
pub open spec fn spec_rules_noncompliant(op: Operation, rules: Seq<RegulatoryRule>) -> bool {
    exists|i: int, j: int|
        0 <= i < rules.len() && 0 <= j < (#[trigger] rules[i]).requirements@.len() && {
            &&& !spec_requirement_satisfied(op, #[trigger] rules[i].requirements@[j])
            &&& rules[i].enforcement_level != EnforcementLevel::Advisory
        }
}

/// Whether a list of operation types contains the given type.
pub open spec fn spec_ops_contain(l: Seq<OperationType>, t: OperationType) -> bool {
    exists|i: int| 0 <= i < l.len() && l[i] == t
}

/// How many requirements of a list the operation fails to satisfy.
pub open spec fn spec_unsat_count(op: Operation, reqs: Seq<ComplianceRequirement>) -> int
    decreases reqs.len(),
{
    if reqs.len() == 0 {
        0
    } else {
        spec_unsat_count(op, reqs.drop_last()) + if spec_requirement_satisfied(
            op,
            reqs.last(),
        ) {
            0int
        } else {
            1int
        }
    }
}

/// The deduction one geographic restriction draws from an operation.
pub open spec fn spec_restriction_deduction(op: Operation, r: GeographicRestriction) -> int {
    if r.country_code@ != op.country_code@ {
        0
    } else {
        match r.restriction_type {
            RestrictionType::Blocked => if spec_ops_contain(
                r.blocked_operations@,
                op.operation_type,
            ) {
                50int
            } else {
                0int
            },
            RestrictionType::Restricted => if spec_ops_contain(
                r.blocked_operations@,
                op.operation_type,
            ) {
                20int
            } else {
                0int
            },
            RestrictionType::Special => 10 * spec_unsat_count(op, r.special_requirements@),
            RestrictionType::Allowed => 0,
        }
    }
}

/// The deduction a layer's geographic restrictions draw from an operation.
pub open spec fn spec_geo_deduction(op: Operation, rs: Seq<GeographicRestriction>) -> int
    decreases rs.len(),
{
    if rs.len() == 0 {
        0
    } else {
        spec_geo_deduction(op, rs.drop_last()) + spec_restriction_deduction(op, rs.last())
    }
}

/// Whether some geographic restriction blocks the operation outright.
pub open spec fn spec_geo_noncompliant(op: Operation, rs: Seq<GeographicRestriction>) -> bool {
    exists|i: int|
        0 <= i < rs.len() && {
            let r = #[trigger] rs[i];
            &&& r.country_code@ == op.country_code@
            &&& r.restriction_type == RestrictionType::Blocked
            &&& spec_ops_contain(r.blocked_operations@, op.operation_type)
        }
}

/// Whether some registered wallet has the given country code.
pub open spec fn has_cwallet(ws: Seq<OriginWalletCompliance>, country: Seq<char>) -> bool {
    exists|i: int| 0 <= i < ws.len() && ws[i].country_code@ == country
}

/// The index of the registered wallet with the given country code.
pub open spec fn cwallet_index(ws: Seq<OriginWalletCompliance>, country: Seq<char>) -> int {
    choose|i: int| 0 <= i < ws.len() && ws[i].country_code@ == country
}

/// The deduction the origin-wallet stage draws: a missing wallet, a stale
/// verification, or an operation above the wallet's compliance level.
pub open spec fn spec_wallet_deduction(
    ws: Seq<OriginWalletCompliance>,
    op: Operation,
    now: u64,
) -> int {
    if !has_cwallet(ws, op.country_code@) {
        40
    } else {
        let w = ws[cwallet_index(ws, op.country_code@)];
        (if now > w.next_verification {
            10int
        } else {
            0int
        }) + match w.compliance_level {
            ComplianceLevel::Government => 0int,
            ComplianceLevel::Institutional => if op.operation_type == OperationType::HighValue {
                10int
            } else {
                0int
            },
            ComplianceLevel::Enhanced => if op.operation_type == OperationType::HighValue
                || op.operation_type == OperationType::CrossBorder {
                10int
            } else {
                0int
            },
            ComplianceLevel::Basic => if op.operation_type == OperationType::HighValue
                || op.operation_type == OperationType::CrossBorder {
                30int
            } else {
                0int
            },
        }
    }
}

/// Whether the origin-wallet stage fails the operation: no wallet for the
/// country, or a restricted operation under a Basic wallet.
pub open spec fn spec_wallet_noncompliant(
    ws: Seq<OriginWalletCompliance>,
    op: Operation,
) -> bool {
    if !has_cwallet(ws, op.country_code@) {
        true
    } else {
        let w = ws[cwallet_index(ws, op.country_code@)];
        w.compliance_level == ComplianceLevel::Basic && (op.operation_type
            == OperationType::HighValue || op.operation_type == OperationType::CrossBorder)
    }
}

/// The total deduction an operation draws on a layer, in hundredths.
pub open spec fn spec_total_deduction(
    m: ComplianceManager,
    layer: ComplianceLayer,
    op: Operation,
    now: u64,
) -> int {
    (if layer.kyc_required && !op.has_kyc {
        30int
    } else {
        0int
    }) + (if layer.origin_wallet_required && !op.has_origin_wallet {
        20int
    } else {
        0int
    }) + (if !spec_privacy_ok(layer.privacy_level, op.privacy_level) {
        10int
    } else {
        0int
    }) + spec_rules_deduction(op, m.active_rules@) + spec_geo_deduction(
        op,
        layer.geographic_restrictions@,
    ) + (if layer.origin_wallet_required {
        spec_wallet_deduction(m.origin_wallets@, op, now)
    } else {
        0int
    })
}

/// Whether an operation is compliant on a layer: no missing know-your-
/// customer or origin-wallet vetting, no violated non-advisory rule, no
/// blocking geographic restriction, and a passing origin-wallet stage where
/// the layer demands one.
pub open spec fn spec_is_compliant(
    m: ComplianceManager,
    layer: ComplianceLayer,
    op: Operation,
) -> bool {
    &&& !(layer.kyc_required && !op.has_kyc)
    &&& !(layer.origin_wallet_required && !op.has_origin_wallet)
    &&& !spec_rules_noncompliant(op, m.active_rules@)
    &&& !spec_geo_noncompliant(op, layer.geographic_restrictions@)
    &&& (layer.origin_wallet_required ==> !spec_wallet_noncompliant(m.origin_wallets@, op))
}

/// The compliance score of an operation on a layer, in hundredths: one
/// hundred minus the total deduction, floored at zero.
pub open spec fn spec_compliance_score(
    m: ComplianceManager,
    layer: ComplianceLayer,
    op: Operation,
    now: u64,
) -> int {
    let d = spec_total_deduction(m, layer, op, now);
    if d >= 100 {
        0
    } else {
        100 - d
    }
}

/// How many warnings the origin-wallet stage raises: one for a stale
/// verification and one for an operation above a level that merely warns.
pub open spec fn spec_wallet_warning_count(
    ws: Seq<OriginWalletCompliance>,
    op: Operation,
    now: u64,
) -> int {
    if !has_cwallet(ws, op.country_code@) {
        0
    } else {
        let w = ws[cwallet_index(ws, op.country_code@)];
        (if now > w.next_verification {
            1int
        } else {
            0int
        }) + match w.compliance_level {
            ComplianceLevel::Government => 0int,
            ComplianceLevel::Institutional => if op.operation_type == OperationType::HighValue {
                1int
            } else {
                0int
            },
            ComplianceLevel::Enhanced => if op.operation_type == OperationType::HighValue
                || op.operation_type == OperationType::CrossBorder {
                1int
            } else {
                0int
            },
            ComplianceLevel::Basic => 0int,
        }
    }
}

/// What a freshly computed compliance status holds: the exact verdict, the
/// exact score, and one collected message per violated category.
pub open spec fn spec_status_matches(
    st: ComplianceStatus,
    m: ComplianceManager,
    layer: ComplianceLayer,
    op: Operation,
    now: u64,
) -> bool {
    &&& st.is_compliant == spec_is_compliant(m, layer, op)
    &&& st.compliance_score == spec_compliance_score(m, layer, op, now)
    &&& st.missing_requirements@.len() == (if layer.kyc_required && !op.has_kyc {
        1int
    } else {
        0int
    }) + (if layer.origin_wallet_required && !op.has_origin_wallet {
        1int
    } else {
        0int
    })
    &&& (layer.kyc_required && !op.has_kyc ==> st.missing_requirements@[0]@
        == "KYC verification required"@)
    &&& (layer.origin_wallet_required && !op.has_origin_wallet
        ==> st.missing_requirements@[if layer.kyc_required && !op.has_kyc {
        1int
    } else {
        0int
    }]@ == "Origin wallet verification required"@)
    &&& st.errors@.len() == (if spec_rules_noncompliant(op, m.active_rules@) {
        1int
    } else {
        0int
    }) + (if spec_geo_noncompliant(op, layer.geographic_restrictions@) {
        1int
    } else {
        0int
    }) + (if layer.origin_wallet_required && spec_wallet_noncompliant(m.origin_wallets@, op) {
        1int
    } else {
        0int
    })
    &&& st.warnings@.len() == (if !spec_privacy_ok(layer.privacy_level, op.privacy_level) {
        1int
    } else {
        0int
    }) + (if layer.origin_wallet_required {
        spec_wallet_warning_count(m.origin_wallets@, op, now)
    } else {
        0int
    })
    &&& st.recommendations@.len() == 0
}

/// Whether some layer of the manager has the given layer type.
pub open spec fn has_layer(ls: Seq<ComplianceLayer>, t: LayerType) -> bool {
    exists|i: int| 0 <= i < ls.len() && ls[i].layer_type == t
}

/// The index of the layer with the given layer type.
pub open spec fn layer_index(ls: Seq<ComplianceLayer>, t: LayerType) -> int {
    choose|i: int| 0 <= i < ls.len() && ls[i].layer_type == t
}

/// Whether a verdict for the given operation id and layer is cached.
pub open spec fn spec_cached(
    cache: Seq<(String, LayerType, ComplianceStatus)>,
    id: Seq<char>,
    t: LayerType,
) -> bool {
    exists|i: int|
        0 <= i < cache.len() && (#[trigger] cache[i]).0@ == id && cache[i].1 == t
}

/// The index of the cached verdict for the given operation id and layer.
pub open spec fn cache_index(
    cache: Seq<(String, LayerType, ComplianceStatus)>,
    id: Seq<char>,
    t: LayerType,
) -> int {
    choose|i: int|
        0 <= i < cache.len() && (#[trigger] cache[i]).0@ == id && cache[i].1 == t
}

/// A deduction total clamped at one hundred hundredths.
pub open spec fn spec_clamp(x: int) -> int {
    if x >= 100 {
        100
    } else {
        x
    }
}

/// Requirement-list deductions are nonnegative.
proof fn lemma_requirements_deduction_nonneg(
    op: Operation,
    reqs: Seq<ComplianceRequirement>,
    e: EnforcementLevel,
)
    ensures
        spec_requirements_deduction(op, reqs, e) >= 0,
    decreases reqs.len(),
{
    if reqs.len() > 0 {
        lemma_requirements_deduction_nonneg(op, reqs.drop_last(), e);
    }
}

/// Rule-list deductions are nonnegative.
proof fn lemma_rules_deduction_nonneg(op: Operation, rules: Seq<RegulatoryRule>)
    ensures
        spec_rules_deduction(op, rules) >= 0,
    decreases rules.len(),
{
    if rules.len() > 0 {
        lemma_rules_deduction_nonneg(op, rules.drop_last());
        lemma_requirements_deduction_nonneg(
            op,
            rules.last().requirements@,
            rules.last().enforcement_level,
        );
    }
}

/// Unsatisfied-requirement counts are nonnegative.
proof fn lemma_unsat_count_nonneg(op: Operation, reqs: Seq<ComplianceRequirement>)
    ensures
        spec_unsat_count(op, reqs) >= 0,
    decreases reqs.len(),
{
    if reqs.len() > 0 {
        lemma_unsat_count_nonneg(op, reqs.drop_last());
    }
}

/// Per-restriction deductions are nonnegative.
proof fn lemma_restriction_deduction_nonneg(op: Operation, r: GeographicRestriction)
    ensures
        spec_restriction_deduction(op, r) >= 0,
{
    lemma_unsat_count_nonneg(op, r.special_requirements@);
    if r.country_code@ == op.country_code@ && r.restriction_type == RestrictionType::Special {
        assert(10 * spec_unsat_count(op, r.special_requirements@) >= 0) by (nonlinear_arith)
            requires
                spec_unsat_count(op, r.special_requirements@) >= 0,
        ;
    }
}

/// Restriction-list deductions are nonnegative.
proof fn lemma_geo_deduction_nonneg(op: Operation, rs: Seq<GeographicRestriction>)
    ensures
        spec_geo_deduction(op, rs) >= 0,
    decreases rs.len(),
{
    if rs.len() > 0 {
        lemma_geo_deduction_nonneg(op, rs.drop_last());
        lemma_restriction_deduction_nonneg(op, rs.last());
    }
}

/// Appending one rule to the prefix adds exactly the violations of its own
/// requirements.
proof fn lemma_rules_noncompliant_step(op: Operation, rules: Seq<RegulatoryRule>, i: int)
    requires
        0 <= i < rules.len(),
    ensures
        spec_rules_noncompliant(op, rules.take(i + 1)) <==> spec_rules_noncompliant(
            op,
            rules.take(i),
        ) || ((exists|j: int|
            0 <= j < rules[i].requirements@.len() && !spec_requirement_satisfied(
                op,
                #[trigger] rules[i].requirements@[j],
            )) && rules[i].enforcement_level != EnforcementLevel::Advisory),
{
    let pre = rules.take(i);
    let post = rules.take(i + 1);
    if spec_rules_noncompliant(op, post) {
        let (a, b) = choose|a: int, b: int|
            0 <= a < post.len() && 0 <= b < (#[trigger] post[a]).requirements@.len()
                && !spec_requirement_satisfied(op, #[trigger] post[a].requirements@[b])
                && post[a].enforcement_level != EnforcementLevel::Advisory;
        if a < i {
            assert(pre[a] == post[a]);
            assert(spec_rules_noncompliant(op, pre));
        } else {
            assert(post[a] == rules[i]);
        }
    }
    if spec_rules_noncompliant(op, pre) {
        let (a, b) = choose|a: int, b: int|
            0 <= a < pre.len() && 0 <= b < (#[trigger] pre[a]).requirements@.len()
                && !spec_requirement_satisfied(op, #[trigger] pre[a].requirements@[b])
                && pre[a].enforcement_level != EnforcementLevel::Advisory;
        assert(post[a] == pre[a]);
        assert(spec_rules_noncompliant(op, post));
    }
    if (exists|j: int|
        0 <= j < rules[i].requirements@.len() && !spec_requirement_satisfied(
            op,
            #[trigger] rules[i].requirements@[j],
        )) && rules[i].enforcement_level != EnforcementLevel::Advisory {
        let j = choose|j: int|
            0 <= j < rules[i].requirements@.len() && !spec_requirement_satisfied(
                op,
                #[trigger] rules[i].requirements@[j],
            );
        assert(post[i] == rules[i]);
        assert(!spec_requirement_satisfied(op, post[i].requirements@[j]));
        assert(spec_rules_noncompliant(op, post));
    }
}

/// Likewise for the geographic blocking flag.
proof fn lemma_geo_noncompliant_step(op: Operation, rs: Seq<GeographicRestriction>, i: int)
    requires
        0 <= i < rs.len(),
    ensures
        spec_geo_noncompliant(op, rs.take(i + 1)) <==> spec_geo_noncompliant(op, rs.take(i)) || {
            let r = rs[i];
            &&& r.country_code@ == op.country_code@
            &&& r.restriction_type == RestrictionType::Blocked
            &&& spec_ops_contain(r.blocked_operations@, op.operation_type)
        },
{
    let pre = rs.take(i);
    let post = rs.take(i + 1);
    if spec_geo_noncompliant(op, post) {
        let a = choose|a: int|
            0 <= a < post.len() && {
                let r = #[trigger] post[a];
                &&& r.country_code@ == op.country_code@
                &&& r.restriction_type == RestrictionType::Blocked
                &&& spec_ops_contain(r.blocked_operations@, op.operation_type)
            };
        if a < i {
            assert(pre[a] == post[a]);
            assert(spec_geo_noncompliant(op, pre));
        } else {
            assert(post[a] == rs[i]);
        }
    }
    if spec_geo_noncompliant(op, pre) {
        let a = choose|a: int|
            0 <= a < pre.len() && {
                let r = #[trigger] pre[a];
                &&& r.country_code@ == op.country_code@
                &&& r.restriction_type == RestrictionType::Blocked
                &&& spec_ops_contain(r.blocked_operations@, op.operation_type)
            };
        assert(post[a] == pre[a]);
        assert(spec_geo_noncompliant(op, post));
    }
    if rs[i].country_code@ == op.country_code@ && rs[i].restriction_type
        == RestrictionType::Blocked && spec_ops_contain(
        rs[i].blocked_operations@,
        op.operation_type,
    ) {
        assert(post[i] == rs[i]);
        assert(spec_geo_noncompliant(op, post));
    }
}

impl ComplianceManager {
    /// Well-formedness: layers are keyed uniquely by layer type, wallets by
    /// country code, and the verdict cache holds at most one entry per
    /// operation id and layer.
    pub open spec fn wf(self) -> bool {
        &&& forall|i: int, j: int|
            0 <= i < j < self.layers@.len() ==> self.layers@[i].layer_type
                != self.layers@[j].layer_type
        &&& forall|i: int, j: int|
            0 <= i < j < self.origin_wallets@.len() ==> self.origin_wallets@[i].country_code@
                != self.origin_wallets@[j].country_code@
        &&& forall|i: int, j: int|
            0 <= i < j < self.compliance_cache@.len() ==> !((
            #[trigger] self.compliance_cache@[i]).0@ == (
            #[trigger] self.compliance_cache@[j]).0@ && self.compliance_cache@[i].1
                == self.compliance_cache@[j].1)
    }

    /// Whether the operation's privacy level meets the layer's requirement.
    fn is_privacy_level_compliant(&self, operation: &Operation, required_level: &PrivacyLevel) -> (r:
        bool)
        ensures
            r == spec_privacy_ok(*required_level, operation.privacy_level),
    {
        match (required_level, &operation.privacy_level) {
            (PrivacyLevel::Public, _) => true,
            (PrivacyLevel::SemiPrivate, PrivacyLevel::Public) => true,
            (PrivacyLevel::SemiPrivate, PrivacyLevel::SemiPrivate) => true,
            (PrivacyLevel::Private, PrivacyLevel::Private) => true,
            (PrivacyLevel::Private, PrivacyLevel::Anonymous) => true,
            (PrivacyLevel::Anonymous, PrivacyLevel::Anonymous) => true,
            _ => false,
        }
    }

    /// Whether the operation satisfies a requirement: every required data
    /// field is present on the operation.
    #[verifier::loop_isolation(false)]
    fn requirement_satisfied(&self, operation: &Operation, requirement: &ComplianceRequirement) -> (r:
        bool)
        ensures
            r == spec_requirement_satisfied(*operation, *requirement),
    {
        let fields = &requirement.data_required;
        let mut i: usize = 0;
        while i < fields.len()
            invariant
                i <= fields@.len(),
                forall|k: int|
                    0 <= k < i ==> ((#[trigger] fields@[k]).is_required ==> spec_has_field(
                        *operation,
                        fields@[k].field_name@,
                    )),
            decreases fields@.len() - i,
        {
            let f = &fields[i];
            if f.is_required && !operation.has_data_field(&f.field_name) {
                return false;
            }
            i += 1;
        }
        true
    }

    /// The clamped deduction and violation flag of the active regulatory
    /// rules: `db` carries the deduction already accumulated by earlier
    /// stages.
    #[verifier::loop_isolation(false)]
    fn regulatory_deduction(&self, operation: &Operation, d: u64, Ghost(db): Ghost<int>) -> (r: (
        u64,
        bool,
    ))
        requires
            db >= 0,
            d == spec_clamp(db),
        ensures
            r.0 == spec_clamp(db + spec_rules_deduction(*operation, self.active_rules@)),
            r.1 == spec_rules_noncompliant(*operation, self.active_rules@),
    {
        let rules = &self.active_rules;
        let mut d = d;
        let mut violated = false;
        let mut i: usize = 0;
        proof {
            assert(rules@.take(0) =~= Seq::<RegulatoryRule>::empty());
            assert(!spec_rules_noncompliant(*operation, rules@.take(0)));
        }
        while i < rules.len()
            invariant
                i <= rules@.len(),
                db >= 0,
                spec_rules_deduction(*operation, rules@.take(i as int)) >= 0,
                d == spec_clamp(db + spec_rules_deduction(*operation, rules@.take(i as int))),
                violated == spec_rules_noncompliant(*operation, rules@.take(i as int)),
            decreases rules@.len() - i,
        {
            proof {
                assert(rules@.take(i + 1).drop_last() =~= rules@.take(i as int));
                assert(rules@.take(i + 1).last() == rules@[i as int]);
                lemma_rules_deduction_nonneg(*operation, rules@.take(i as int));
                lemma_rules_noncompliant_step(*operation, rules@, i as int);
            }
            let ghost base = db + spec_rules_deduction(*operation, rules@.take(i as int));
            let rule = &rules[i];
            let reqs = &rule.requirements;
            let mut j: usize = 0;
            while j < reqs.len()
                invariant
                    j <= reqs@.len(),
                    reqs@ == rules@[i as int].requirements@,
                    i < rules@.len(),
                    base >= 0,
                    spec_requirements_deduction(
                        *operation,
                        reqs@.take(j as int),
                        rules@[i as int].enforcement_level,
                    ) >= 0,
                    d == spec_clamp(
                        base + spec_requirements_deduction(
                            *operation,
                            reqs@.take(j as int),
                            rules@[i as int].enforcement_level,
                        ),
                    ),
                    violated == (spec_rules_noncompliant(*operation, rules@.take(i as int)) || (
                    (exists|j2: int|
                        0 <= j2 < j && !spec_requirement_satisfied(
                            *operation,
                            #[trigger] reqs@[j2],
                        )) && rules@[i as int].enforcement_level != EnforcementLevel::Advisory)),
                decreases reqs@.len() - j,
            {
                proof {
                    assert(reqs@.take(j + 1).drop_last() =~= reqs@.take(j as int));
                    assert(reqs@.take(j + 1).last() == reqs@[j as int]);
                    lemma_requirements_deduction_nonneg(
                        *operation,
                        reqs@.take(j as int),
                        rules@[i as int].enforcement_level,
                    );
                }
                if !self.requirement_satisfied(operation, &reqs[j]) {
                    let step: u64 = match rule.enforcement_level {
                        EnforcementLevel::Critical => 50,
                        EnforcementLevel::Blocking => 40,
                        EnforcementLevel::Mandatory => 30,
                        EnforcementLevel::Advisory => 10,
                    };
                    d = if d + step >= 100 {
                        100
                    } else {
                        d + step
                    };
                    match rule.enforcement_level {
                        EnforcementLevel::Advisory => (),
                        _ => {
                            violated = true;
                        },
                    }
                }
                j += 1;
            }
            proof {
                assert(reqs@.take(reqs@.len() as int) == reqs@);
            }
            i += 1;
        }
        proof {
            assert(rules@.take(rules@.len() as int) == rules@);
        }
        (d, violated)
    }

    /// The clamped deduction and blocking flag of a layer's geographic
    /// restrictions.
    #[verifier::loop_isolation(false)]
    fn geographic_deduction(
        &self,
        operation: &Operation,
        restrictions: &Vec<GeographicRestriction>,
        d: u64,
        Ghost(db): Ghost<int>,
    ) -> (r: (u64, bool))
        requires
            db >= 0,
            d == spec_clamp(db),
        ensures
            r.0 == spec_clamp(db + spec_geo_deduction(*operation, restrictions@)),
            r.1 == spec_geo_noncompliant(*operation, restrictions@),
    {
        let mut d = d;
        let mut blocked = false;
        let mut i: usize = 0;
        proof {
            assert(restrictions@.take(0) =~= Seq::<GeographicRestriction>::empty());
            assert(!spec_geo_noncompliant(*operation, restrictions@.take(0)));
        }
        while i < restrictions.len()
            invariant
                i <= restrictions@.len(),
                db >= 0,
                spec_geo_deduction(*operation, restrictions@.take(i as int)) >= 0,
                d == spec_clamp(
                    db + spec_geo_deduction(*operation, restrictions@.take(i as int)),
                ),
                blocked == spec_geo_noncompliant(*operation, restrictions@.take(i as int)),
            decreases restrictions@.len() - i,
        {
            proof {
                assert(restrictions@.take(i + 1).drop_last() =~= restrictions@.take(i as int));
                assert(restrictions@.take(i + 1).last() == restrictions@[i as int]);
                lemma_geo_deduction_nonneg(*operation, restrictions@.take(i as int));
                lemma_restriction_deduction_nonneg(*operation, restrictions@[i as int]);
                lemma_geo_noncompliant_step(*operation, restrictions@, i as int);
            }
            let ghost base = db + spec_geo_deduction(*operation, restrictions@.take(i as int));
            let restriction = &restrictions[i];
            if restriction.country_code == operation.country_code {
                match restriction.restriction_type {
                    RestrictionType::Blocked => {
                        if Self::ops_contain(&restriction.blocked_operations, operation.operation_type) {
                            blocked = true;
                            d = if d + 50 >= 100 {
                                100
                            } else {
                                d + 50
                            };
                        }
                    },
                    RestrictionType::Restricted => {
                        if Self::ops_contain(&restriction.blocked_operations, operation.operation_type) {
                            d = if d + 20 >= 100 {
                                100
                            } else {
                                d + 20
                            };
                        }
                    },
                    RestrictionType::Special => {
                        let reqs = &restriction.special_requirements;
                        let mut j: usize = 0;
                        while j < reqs.len()
                            invariant
                                j <= reqs@.len(),
                                reqs@ == restrictions@[i as int].special_requirements@,
                                i < restrictions@.len(),
                                base >= 0,
                                spec_unsat_count(*operation, reqs@.take(j as int)) >= 0,
                                restrictions@[i as int].country_code@
                                    == operation.country_code@,
                                restrictions@[i as int].restriction_type
                                    == RestrictionType::Special,
                                d == spec_clamp(
                                    base + 10 * spec_unsat_count(
                                        *operation,
                                        reqs@.take(j as int),
                                    ),
                                ),
                            decreases reqs@.len() - j,
                        {
                            proof {
                                assert(reqs@.take(j + 1).drop_last() =~= reqs@.take(j as int));
                                assert(reqs@.take(j + 1).last() == reqs@[j as int]);
                                lemma_unsat_count_nonneg(*operation, reqs@.take(j as int));
                            }
                            if !self.requirement_satisfied(operation, &reqs[j]) {
                                d = if d + 10 >= 100 {
                                    100
                                } else {
                                    d + 10
                                };
                            }
                            j += 1;
                        }
                        proof {
                            assert(reqs@.take(reqs@.len() as int) == reqs@);
                        }
                    },
                    RestrictionType::Allowed => (),
                }
            }
            i += 1;
        }
        proof {
            assert(restrictions@.take(restrictions@.len() as int) == restrictions@);
        }
        (d, blocked)
    }

    /// Whether a list of operation types contains the given type.
    #[verifier::loop_isolation(false)]
    fn ops_contain(l: &Vec<OperationType>, t: OperationType) -> (r: bool)
        ensures
            r == spec_ops_contain(l@, t),
    {
        let mut i: usize = 0;
        while i < l.len()
            invariant
                i <= l@.len(),
                forall|k: int| 0 <= k < i ==> l@[k] != t,
            decreases l@.len() - i,
        {
            if l[i] == t {
                return true;
            }
            i += 1;
        }
        false
    }

    /// Find the index of the registered wallet with the given country code.
    #[verifier::loop_isolation(false)]
    fn find_wallet(&self, country: &String) -> (r: Option<usize>)
        ensures
            match r {
                Some(i) => i < self.origin_wallets@.len()
                    && self.origin_wallets@[i as int].country_code@ == country@,
                None => !has_cwallet(self.origin_wallets@, country@),
            },
    {
        let mut i: usize = 0;
        while i < self.origin_wallets.len()
            invariant
                i <= self.origin_wallets@.len(),
                forall|k: int| 0 <= k < i ==> self.origin_wallets@[k].country_code@ != country@,
            decreases self.origin_wallets@.len() - i,
        {
            if self.origin_wallets[i].country_code == *country {
                return Some(i);
            }
            i += 1;
        }
        None
    }

    /// Find the index of the layer with the given layer type.
    #[verifier::loop_isolation(false)]
    fn find_layer(&self, t: &LayerType) -> (r: Option<usize>)
        ensures
            match r {
                Some(i) => i < self.layers@.len() && self.layers@[i as int].layer_type == *t,
                None => !has_layer(self.layers@, *t),
            },
    {
        let mut i: usize = 0;
        while i < self.layers.len()
            invariant
                i <= self.layers@.len(),
                forall|k: int| 0 <= k < i ==> self.layers@[k].layer_type != *t,
            decreases self.layers@.len() - i,
        {
            if self.layers[i].layer_type == *t {
                return Some(i);
            }
            i += 1;
        }
        None
    }

    /// Find the index of the cached verdict for an operation id and layer.
    #[verifier::loop_isolation(false)]
    fn find_cached(&self, id: &String, t: &LayerType) -> (r: Option<usize>)
        ensures
            match r {
                Some(i) => i < self.compliance_cache@.len()
                    && self.compliance_cache@[i as int].0@ == id@
                    && self.compliance_cache@[i as int].1 == *t,
                None => !spec_cached(self.compliance_cache@, id@, *t),
            },
    {
        let mut i: usize = 0;
        while i < self.compliance_cache.len()
            invariant
                i <= self.compliance_cache@.len(),
                forall|k: int|
                    0 <= k < i ==> !((#[trigger] self.compliance_cache@[k]).0@ == id@
                        && self.compliance_cache@[k].1 == *t),
            decreases self.compliance_cache@.len() - i,
        {
            let entry = &self.compliance_cache[i];
            if entry.1 == *t && entry.0 == *id {
                return Some(i);
            }
            i += 1;
        }
        None
    }
}

impl ComplianceManager {
    /// Check compliance for an operation on a layer at time `now`. A cached
    /// verdict for the same operation id and layer is returned as is; an
    /// unknown layer is an error; otherwise the verdict is computed, cached
    /// and returned, with the exact pass/fail flag and score.
    pub fn check_compliance(
        &mut self,
        operation: &Operation,
        layer_type: &LayerType,
        now: u64,
    ) -> (r: Result<ComplianceStatus, ComplianceError>)
        requires
            old(self).wf(),
        ensures
            final(self).wf(),
            ({
                let cache = old(self).compliance_cache@;
                if spec_cached(cache, operation.id@, *layer_type) {
                    let st = cache[cache_index(cache, operation.id@, *layer_type)].2;
                    &&& *final(self) == *old(self)
                    &&& r is Ok
                    &&& r->Ok_0.is_compliant == st.is_compliant
                    &&& r->Ok_0.compliance_score == st.compliance_score
                    &&& r->Ok_0.missing_requirements@ == st.missing_requirements@
                    &&& r->Ok_0.warnings@ == st.warnings@
                    &&& r->Ok_0.errors@ == st.errors@
                    &&& r->Ok_0.recommendations@ == st.recommendations@
                } else if !has_layer(old(self).layers@, *layer_type) {
                    r == Err::<ComplianceStatus, ComplianceError>(ComplianceError::LayerNotFound)
                        && *final(self) == *old(self)
                } else {
                    let layer = old(self).layers@[layer_index(old(self).layers@, *layer_type)];
                    &&& r is Ok
                    &&& spec_status_matches(r->Ok_0, *old(self), layer, *operation, now)
                    &&& final(self).compliance_cache@.len() == old(self).compliance_cache@.len() + 1
                    &&& final(self).compliance_cache@.take(
                        old(self).compliance_cache@.len() as int,
                    ) == old(self).compliance_cache@
                    &&& final(self).compliance_cache@.last().0@ == operation.id@
                    &&& final(self).compliance_cache@.last().1 == *layer_type
                    &&& ({
                        let cached = final(self).compliance_cache@.last().2;
                        &&& cached.is_compliant == r->Ok_0.is_compliant
                        &&& cached.compliance_score == r->Ok_0.compliance_score
                    })
                    &&& *final(self) == (ComplianceManager {
                        compliance_cache: final(self).compliance_cache,
                        ..*old(self)
                    })
                }
            }),
    {
        if let Some(ci) = self.find_cached(&operation.id, layer_type) {
            proof {
                assert(cache_index(self.compliance_cache@, operation.id@, *layer_type)
                    == ci as int);
            }
            return Ok(self.compliance_cache[ci].2.clone());
        }
        let li = match self.find_layer(layer_type) {
            Some(i) => i,
            None => {
                return Err(ComplianceError::LayerNotFound);
            },
        };
        proof {
            assert(layer_index(self.layers@, *layer_type) == li as int);
        }
        let mut missing_requirements: Vec<String> = Vec::new();
        let mut warnings: Vec<String> = Vec::new();
        let mut errors: Vec<String> = Vec::new();
        let mut d: u64 = 0;
        let kyc_missing = self.layers[li].kyc_required && !operation.has_kyc;
        if kyc_missing {
            missing_requirements.push("KYC verification required".to_owned());
            d = d + 30;
        }
        let wallet_vetting_missing = self.layers[li].origin_wallet_required
            && !operation.has_origin_wallet;
        if wallet_vetting_missing {
            missing_requirements.push("Origin wallet verification required".to_owned());
            d = d + 20;
        }
        if !self.is_privacy_level_compliant(operation, &self.layers[li].privacy_level) {
            warnings.push("Operation may not meet privacy requirements".to_owned());
            d = d + 10;
        }
        let ghost d0 = d as int;
        let (d1, rules_violated) = self.regulatory_deduction(operation, d, Ghost(d0));
        let ghost db1 = d0 + spec_rules_deduction(*operation, self.active_rules@);
        proof {
            lemma_rules_deduction_nonneg(*operation, self.active_rules@);
        }
        if rules_violated {
            errors.push("Regulatory compliance failure".to_owned());
        }
        let (d2, geo_blocked) = self.geographic_deduction(
            operation,
            &self.layers[li].geographic_restrictions,
            d1,
            Ghost(db1),
        );
        let ghost db2 = db1 + spec_geo_deduction(
            *operation,
            self.layers@[li as int].geographic_restrictions@,
        );
        proof {
            lemma_geo_deduction_nonneg(
                *operation,
                self.layers@[li as int].geographic_restrictions@,
            );
        }
        if geo_blocked {
            errors.push("Operation blocked in this jurisdiction".to_owned());
        }
        let mut d = d2;
        let mut wallet_noncompliant = false;
        if self.layers[li].origin_wallet_required {
            match self.find_wallet(&operation.country_code) {
                Some(wi) => {
                    proof {
                        assert(cwallet_index(self.origin_wallets@, operation.country_code@)
                            == wi as int);
                    }
                    let w = &self.origin_wallets[wi];
                    if now > w.next_verification {
                        warnings.push("Origin wallet requires re-verification".to_owned());
                        d = if d + 10 >= 100 {
                            100
                        } else {
                            d + 10
                        };
                    }
                    match w.compliance_level {
                        ComplianceLevel::Government => (),
                        ComplianceLevel::Institutional => {
                            if operation.operation_type == OperationType::HighValue {
                                warnings.push(
                                    "High-value operation may require government-level compliance".to_owned(),
                                );
                                d = if d + 10 >= 100 {
                                    100
                                } else {
                                    d + 10
                                };
                            }
                        },
                        ComplianceLevel::Enhanced => {
                            if operation.operation_type == OperationType::HighValue
                                || operation.operation_type == OperationType::CrossBorder {
                                warnings.push(
                                    "Operation may require institutional-level compliance".to_owned(),
                                );
                                d = if d + 10 >= 100 {
                                    100
                                } else {
                                    d + 10
                                };
                            }
                        },
                        ComplianceLevel::Basic => {
                            if operation.operation_type == OperationType::HighValue
                                || operation.operation_type == OperationType::CrossBorder {
                                wallet_noncompliant = true;
                                errors.push(
                                    "Operation requires enhanced compliance level".to_owned(),
                                );
                                d = if d + 30 >= 100 {
                                    100
                                } else {
                                    d + 30
                                };
                            }
                        },
                    }
                },
                None => {
                    wallet_noncompliant = true;
                    errors.push("No origin wallet found for country".to_owned());
                    d = if d + 40 >= 100 {
                        100
                    } else {
                        d + 40
                    };
                },
            }
        }
        let is_compliant = !kyc_missing && !wallet_vetting_missing && !rules_violated
            && !geo_blocked && !wallet_noncompliant;
        let compliance_score = if d >= 100 {
            0
        } else {
            100 - d
        };
        let status = ComplianceStatus {
            is_compliant,
            compliance_score,
            missing_requirements,
            warnings,
            errors,
            recommendations: Vec::new(),
        };
        let ghost pre = *self;
        let cache_entry = (operation.id.clone(), *layer_type, status.clone());
        self.compliance_cache.push(cache_entry);
        proof {
            let post = *self;
            assert(post.compliance_cache@.take(pre.compliance_cache@.len() as int)
                =~= pre.compliance_cache@);
            assert(!spec_cached(pre.compliance_cache@, operation.id@, *layer_type));
            assert forall|a: int, b: int|
                0 <= a < b < post.compliance_cache@.len() implies !((
            #[trigger] post.compliance_cache@[a]).0@ == (
            #[trigger] post.compliance_cache@[b]).0@ && post.compliance_cache@[a].1
                == post.compliance_cache@[b].1) by {
                if b < pre.compliance_cache@.len() {
                    assert(pre.compliance_cache@[a] == post.compliance_cache@[a]);
                    assert(pre.compliance_cache@[b] == post.compliance_cache@[b]);
                } else {
                    assert(post.compliance_cache@[a] == pre.compliance_cache@[a]);
                }
            }
        }
        Ok(status)
    }

    /// Register an origin wallet's compliance state: a wallet for a new
    /// country is added, and a wallet for an already-registered country is
    /// replaced. The next verification falls due one year after `now`.
    pub fn register_origin_wallet(
        &mut self,
        country_code: String,
        wallet_address: String,
        compliance_level: ComplianceLevel,
        now: u64,
    ) -> (r: Result<(), ComplianceError>)
        requires
            old(self).wf(),
            now <= u64::MAX - 31_536_000,
        ensures
            final(self).wf(),
            r is Ok,
            *final(self) == (ComplianceManager {
                origin_wallets: final(self).origin_wallets,
                ..*old(self)
            }),
            has_cwallet(final(self).origin_wallets@, country_code@),
            ({
                let w = final(self).origin_wallets@[cwallet_index(
                    final(self).origin_wallets@,
                    country_code@,
                )];
                &&& w.country_code@ == country_code@
                &&& w.wallet_address@ == wallet_address@
                &&& w.compliance_level == compliance_level
                &&& w.verified_requirements@.len() == 0
                &&& w.last_verification == now
                &&& w.next_verification == now + 31_536_000
            }),
            !has_cwallet(old(self).origin_wallets@, country_code@) ==> final(self).origin_wallets@.take(old(self).origin_wallets@.len() as int) == old(self).origin_wallets@ && final(self).origin_wallets@.len() == old(self).origin_wallets@.len() + 1,
            has_cwallet(old(self).origin_wallets@, country_code@) ==> final(self).origin_wallets@ == old(self).origin_wallets@.update(
                cwallet_index(old(self).origin_wallets@, country_code@),
                final(self).origin_wallets@[cwallet_index(
                    old(self).origin_wallets@,
                    country_code@,
                )],
            ),
    {
        let origin_wallet = OriginWalletCompliance {
            country_code: country_code.clone(),
            wallet_address,
            compliance_level,
            verified_requirements: Vec::new(),
            last_verification: now,
            next_verification: now + 31_536_000,
        };
        let ghost pre = *self;
        match self.find_wallet(&country_code) {
            Some(wi) => {
                proof {
                    assert(cwallet_index(pre.origin_wallets@, country_code@) == wi as int);
                }
                self.origin_wallets[wi] = origin_wallet;
                proof {
                    let post = *self;
                    assert(cwallet_index(post.origin_wallets@, country_code@) == wi as int);
                    assert forall|a: int, b: int|
                        0 <= a < b < post.origin_wallets@.len() implies post.origin_wallets@[a]
                        .country_code@ != post.origin_wallets@[b].country_code@ by {
                        assert(pre.origin_wallets@[a].country_code@
                            != pre.origin_wallets@[b].country_code@);
                        if a == wi as int || b == wi as int {
                            assert(pre.origin_wallets@[wi as int].country_code@
                                == country_code@);
                        }
                    }
                }
            },
            None => {
                self.origin_wallets.push(origin_wallet);
                proof {
                    let post = *self;
                    assert(post.origin_wallets@.take(pre.origin_wallets@.len() as int)
                        =~= pre.origin_wallets@);
                    assert(post.origin_wallets@.last().country_code@ == country_code@);
                    assert forall|a: int, b: int|
                        0 <= a < b < post.origin_wallets@.len() implies post.origin_wallets@[a]
                        .country_code@ != post.origin_wallets@[b].country_code@ by {
                        if b < pre.origin_wallets@.len() {
                            assert(pre.origin_wallets@[a] == post.origin_wallets@[a]);
                            assert(pre.origin_wallets@[b] == post.origin_wallets@[b]);
                        } else {
                            assert(post.origin_wallets@[a] == pre.origin_wallets@[a]);
                            assert(!has_cwallet(pre.origin_wallets@, country_code@));
                        }
                    }
                    assert(cwallet_index(post.origin_wallets@, country_code@)
                        == pre.origin_wallets@.len() as int);
                }
            },
        }
        Ok(())
    }

    /// Replace the active regulatory rules and synchronously invalidate the
    /// verdict cache: no stale verdict survives a rule change.
    pub fn update_compliance_rules(&mut self, rules: Vec<RegulatoryRule>) -> (r: Result<
        (),
        ComplianceError,
    >)
        requires
            old(self).wf(),
        ensures
            final(self).wf(),
            r is Ok,
            final(self).active_rules@ == rules@,
            final(self).compliance_cache@.len() == 0,
            *final(self) == (ComplianceManager {
                active_rules: final(self).active_rules,
                compliance_cache: final(self).compliance_cache,
                ..*old(self)
            }),
    {
        self.active_rules = rules;
        self.compliance_cache = Vec::new();
        Ok(())
    }
}

/// What the default configuration of one layer looks like: its vetting
/// switches and privacy level, and how many rules and restrictions it
/// carries.
pub open spec fn spec_default_layer_shape(
    l: ComplianceLayer,
    t: LayerType,
    kyc: bool,
    ow: bool,
    privacy: PrivacyLevel,
    n_rules: int,
) -> bool {
    &&& l.layer_type == t
    &&& l.kyc_required == kyc
    &&& l.origin_wallet_required == ow
    &&& l.privacy_level == privacy
    &&& l.regulatory_rules@.len() == n_rules
    &&& l.geographic_restrictions@.len() == 0
}

impl ComplianceManager {
    /// A manager with the default compliance layers and no wallets, rules
    /// or cached verdicts.
    pub fn new() -> (r: ComplianceManager)
        ensures
            r.wf(),
            r.origin_wallets@.len() == 0,
            r.active_rules@.len() == 0,
            r.compliance_cache@.len() == 0,
            r.layers@.len() == 4,
            spec_default_layer_shape(
                r.layers@[0],
                LayerType::Mainnet,
                true,
                true,
                PrivacyLevel::SemiPrivate,
                1,
            ),
            spec_default_layer_shape(
                r.layers@[1],
                LayerType::TrustLayer,
                true,
                false,
                PrivacyLevel::Private,
                1,
            ),
            spec_default_layer_shape(
                r.layers@[2],
                LayerType::EdgeLayer,
                false,
                false,
                PrivacyLevel::Anonymous,
                0,
            ),
            spec_default_layer_shape(
                r.layers@[3],
                LayerType::MeshLayer,
                false,
                false,
                PrivacyLevel::SemiPrivate,
                1,
            ),
            r.layers@[0].regulatory_rules@[0].enforcement_level == EnforcementLevel::Mandatory,
            r.layers@[0].regulatory_rules@[0].rule_type is AML,
            r.layers@[0].regulatory_rules@[0].requirements@.len() == 1,
            r.layers@[0].regulatory_rules@[0].requirements@[0].requirement_id@ == "aml_001"@,
            r.layers@[0].regulatory_rules@[0].requirements@[0].data_required@.len() == 2,
            r.layers@[0].regulatory_rules@[0].requirements@[0].data_required@[0].field_name@
                == "transaction_amount"@,
            r.layers@[0].regulatory_rules@[0].requirements@[0].data_required@[0].is_required,
            r.layers@[0].regulatory_rules@[0].requirements@[0].data_required@[1].field_name@
                == "source_address"@,
            r.layers@[0].regulatory_rules@[0].requirements@[0].data_required@[1].is_required,
            r.layers@[0].regulatory_rules@[0].requirements@[0].retention_period == 2555,
            r.layers@[1].regulatory_rules@[0].enforcement_level == EnforcementLevel::Mandatory,
            r.layers@[1].regulatory_rules@[0].rule_type is KYC,
            r.layers@[1].regulatory_rules@[0].requirements@.len() == 1,
            r.layers@[1].regulatory_rules@[0].requirements@[0].requirement_id@ == "kyc_001"@,
            r.layers@[1].regulatory_rules@[0].requirements@[0].data_required@.len() == 2,
            r.layers@[1].regulatory_rules@[0].requirements@[0].data_required@[0].field_name@
                == "identity_document"@,
            r.layers@[1].regulatory_rules@[0].requirements@[0].data_required@[1].field_name@
                == "biometric_data"@,
            r.layers@[3].regulatory_rules@[0].enforcement_level == EnforcementLevel::Advisory,
            r.layers@[3].regulatory_rules@[0].requirements@.len() == 1,
            r.layers@[3].regulatory_rules@[0].requirements@[0].requirement_id@
                == "service_001"@,
    {
        let mut manager = ComplianceManager {
            layers: Vec::new(),
            origin_wallets: Vec::new(),
            active_rules: Vec::new(),
            compliance_cache: Vec::new(),
        };
        manager.initialize_default_layers();
        manager
    }

    /// Install the four default layers: the main chain with full vetting and
    /// an anti-money-laundering rule, the trust layer with a
    /// know-your-customer rule, the edge layer with no requirements, and the
    /// mesh layer with an advisory service-provider rule.
    fn initialize_default_layers(&mut self)
        requires
            old(self).layers@.len() == 0,
        ensures
            final(self).layers@.len() == 4,
            *final(self) == (ComplianceManager { layers: final(self).layers, ..*old(self) }),
            spec_default_layer_shape(
                final(self).layers@[0],
                LayerType::Mainnet,
                true,
                true,
                PrivacyLevel::SemiPrivate,
                1,
            ),
            spec_default_layer_shape(
                final(self).layers@[1],
                LayerType::TrustLayer,
                true,
                false,
                PrivacyLevel::Private,
                1,
            ),
            spec_default_layer_shape(
                final(self).layers@[2],
                LayerType::EdgeLayer,
                false,
                false,
                PrivacyLevel::Anonymous,
                0,
            ),
            spec_default_layer_shape(
                final(self).layers@[3],
                LayerType::MeshLayer,
                false,
                false,
                PrivacyLevel::SemiPrivate,
                1,
            ),
            final(self).layers@[0].regulatory_rules@[0].enforcement_level
                == EnforcementLevel::Mandatory,
            final(self).layers@[0].regulatory_rules@[0].rule_type is AML,
            final(self).layers@[0].regulatory_rules@[0].requirements@.len() == 1,
            final(self).layers@[0].regulatory_rules@[0].requirements@[0].requirement_id@
                == "aml_001"@,
            final(self).layers@[0].regulatory_rules@[0].requirements@[0].data_required@.len()
                == 2,
            final(self).layers@[0].regulatory_rules@[0].requirements@[0].data_required@[0].field_name@
                == "transaction_amount"@,
            final(self).layers@[0].regulatory_rules@[0].requirements@[0].data_required@[0].is_required,
            final(self).layers@[0].regulatory_rules@[0].requirements@[0].data_required@[1].field_name@
                == "source_address"@,
            final(self).layers@[0].regulatory_rules@[0].requirements@[0].data_required@[1].is_required,
            final(self).layers@[0].regulatory_rules@[0].requirements@[0].retention_period
                == 2555,
            final(self).layers@[1].regulatory_rules@[0].enforcement_level
                == EnforcementLevel::Mandatory,
            final(self).layers@[1].regulatory_rules@[0].rule_type is KYC,
            final(self).layers@[1].regulatory_rules@[0].requirements@.len() == 1,
            final(self).layers@[1].regulatory_rules@[0].requirements@[0].requirement_id@
                == "kyc_001"@,
            final(self).layers@[1].regulatory_rules@[0].requirements@[0].data_required@.len()
                == 2,
            final(self).layers@[1].regulatory_rules@[0].requirements@[0].data_required@[0].field_name@
                == "identity_document"@,
            final(self).layers@[1].regulatory_rules@[0].requirements@[0].data_required@[1].field_name@
                == "biometric_data"@,
            final(self).layers@[3].regulatory_rules@[0].enforcement_level
                == EnforcementLevel::Advisory,
            final(self).layers@[3].regulatory_rules@[0].requirements@.len() == 1,
            final(self).layers@[3].regulatory_rules@[0].requirements@[0].requirement_id@
                == "service_001"@,
    {
        let mut aml_fields: Vec<DataField> = Vec::new();
        aml_fields.push(
            DataField {
                field_name: "transaction_amount".to_owned(),
                field_type: DataType::Number,
                is_required: true,
                is_sensitive: false,
                encryption_required: false,
            },
        );
        aml_fields.push(
            DataField {
                field_name: "source_address".to_owned(),
                field_type: DataType::Address,
                is_required: true,
                is_sensitive: true,
                encryption_required: true,
            },
        );
        let mut aml_params: Vec<(String, String)> = Vec::new();
        aml_params.push(("min".to_owned(), "0".to_owned()));
        aml_params.push(("max".to_owned(), "1000000".to_owned()));
        let mut aml_validations: Vec<ValidationRule> = Vec::new();
        aml_validations.push(
            ValidationRule {
                rule_id: "amount_check".to_owned(),
                validation_type: ValidationType::Range,
                parameters: aml_params,
                error_message: "Transaction amount out of range".to_owned(),
            },
        );
        let mut aml_requirements: Vec<ComplianceRequirement> = Vec::new();
        aml_requirements.push(
            ComplianceRequirement {
                requirement_id: "aml_001".to_owned(),
                description: "Anti-Money Laundering checks".to_owned(),
                data_required: aml_fields,
                validation_rules: aml_validations,
                retention_period: 2555,
            },
        );
        let mut mainnet_rules: Vec<RegulatoryRule> = Vec::new();
        mainnet_rules.push(
            RegulatoryRule {
                jurisdiction: "Global".to_owned(),
                rule_type: RuleType::AML,
                requirements: aml_requirements,
                enforcement_level: EnforcementLevel::Mandatory,
            },
        );
        self.layers.push(
            ComplianceLayer {
                layer_type: LayerType::Mainnet,
                kyc_required: true,
                origin_wallet_required: true,
                privacy_level: PrivacyLevel::SemiPrivate,
                regulatory_rules: mainnet_rules,
                geographic_restrictions: Vec::new(),
            },
        );
        let mut kyc_fields: Vec<DataField> = Vec::new();
        kyc_fields.push(
            DataField {
                field_name: "identity_document".to_owned(),
                field_type: DataType::Document,
                is_required: true,
                is_sensitive: true,
                encryption_required: true,
            },
        );
        kyc_fields.push(
            DataField {
                field_name: "biometric_data".to_owned(),
                field_type: DataType::Biometric,
                is_required: true,
                is_sensitive: true,
                encryption_required: true,
            },
        );
        let mut kyc_requirements: Vec<ComplianceRequirement> = Vec::new();
        kyc_requirements.push(
            ComplianceRequirement {
                requirement_id: "kyc_001".to_owned(),
                description: "Know Your Customer verification".to_owned(),
                data_required: kyc_fields,
                validation_rules: Vec::new(),
                retention_period: 365,
            },
        );
        let mut trust_rules: Vec<RegulatoryRule> = Vec::new();
        trust_rules.push(
            RegulatoryRule {
                jurisdiction: "Global".to_owned(),
                rule_type: RuleType::KYC,
                requirements: kyc_requirements,
                enforcement_level: EnforcementLevel::Mandatory,
            },
        );
        self.layers.push(
            ComplianceLayer {
                layer_type: LayerType::TrustLayer,
                kyc_required: true,
                origin_wallet_required: false,
                privacy_level: PrivacyLevel::Private,
                regulatory_rules: trust_rules,
                geographic_restrictions: Vec::new(),
            },
        );
        self.layers.push(
            ComplianceLayer {
                layer_type: LayerType::EdgeLayer,
                kyc_required: false,
                origin_wallet_required: false,
                privacy_level: PrivacyLevel::Anonymous,
                regulatory_rules: Vec::new(),
                geographic_restrictions: Vec::new(),
            },
        );
        let mut service_fields: Vec<DataField> = Vec::new();
        service_fields.push(
            DataField {
                field_name: "service_type".to_owned(),
                field_type: DataType::String,
                is_required: true,
                is_sensitive: false,
                encryption_required: false,
            },
        );
        service_fields.push(
            DataField {
                field_name: "provider_location".to_owned(),
                field_type: DataType::Location,
                is_required: true,
                is_sensitive: false,
                encryption_required: false,
            },
        );
        let mut service_requirements: Vec<ComplianceRequirement> = Vec::new();
        service_requirements.push(
            ComplianceRequirement {
                requirement_id: "service_001".to_owned(),
                description: "Service provider verification".to_owned(),
                data_required: service_fields,
                validation_rules: Vec::new(),
                retention_period: 90,
            },
        );
        let mut mesh_rules: Vec<RegulatoryRule> = Vec::new();
        mesh_rules.push(
            RegulatoryRule {
                jurisdiction: "Global".to_owned(),
                rule_type: RuleType::Custom("ServiceProvider".to_owned()),
                requirements: service_requirements,
                enforcement_level: EnforcementLevel::Advisory,
            },
        );
        self.layers.push(
            ComplianceLayer {
                layer_type: LayerType::MeshLayer,
                kyc_required: false,
                origin_wallet_required: false,
                privacy_level: PrivacyLevel::SemiPrivate,
                regulatory_rules: mesh_rules,
                geographic_restrictions: Vec::new(),
            },
        );
    }
}

impl Clone for ComplianceStatus {
    /// Cloning a status preserves the verdict, the score and the views of
    /// all message lists.
    fn clone(&self) -> (r: Self)
        ensures
            r.is_compliant == self.is_compliant,
            r.compliance_score == self.compliance_score,
            r.missing_requirements@ == self.missing_requirements@,
            r.warnings@ == self.warnings@,
            r.errors@ == self.errors@,
            r.recommendations@ == self.recommendations@,
    {
        ComplianceStatus {
            is_compliant: self.is_compliant,
            compliance_score: self.compliance_score,
            missing_requirements: clone_string_vec(&self.missing_requirements),
            warnings: clone_string_vec(&self.warnings),
            errors: clone_string_vec(&self.errors),
            recommendations: clone_string_vec(&self.recommendations),
        }
    }
}

/// Clone a list of strings, preserving its view.
#[verifier::loop_isolation(false)]
fn clone_string_vec(v: &Vec<String>) -> (r: Vec<String>)
    ensures
        r@ == v@,
{
    let mut out: Vec<String> = Vec::new();
    let mut i: usize = 0;
    while i < v.len()
        invariant
            i <= v@.len(),
            out@ == v@.take(i as int),
        decreases v@.len() - i,
    {
        out.push(v[i].clone());
        proof {
            assert(out@ =~= v@.take(i + 1));
        }
        i += 1;
    }
    proof {
        assert(v@.take(v@.len() as int) == v@);
    }
    out
}

impl Operation {
    /// Whether the operation carries a data field of the given name.
    #[verifier::loop_isolation(false)]
    pub fn has_data_field(&self, field_name: &String) -> (r: bool)
        ensures
            r == spec_has_field(*self, field_name@),
    {
        let mut i: usize = 0;
        while i < self.data_fields.len()
            invariant
                i <= self.data_fields@.len(),
                forall|k: int|
                    0 <= k < i ==> (#[trigger] self.data_fields@[k]).0@ != field_name@,
            decreases self.data_fields@.len() - i,
        {
            if self.data_fields[i].0 == *field_name {
                return true;
            }
            i += 1;
        }
        false
    }
}

} // verus!
