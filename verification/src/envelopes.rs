//! The contract envelopes that one admission decision reads: requester trust,
//! policy artifact, capability registry and execution request. Identifiers
//! that the envelopes carry as UUIDs are held as 128-bit values.

use vstd::prelude::*;
use crate::vocabulary::ApprovalPosture;

verus! {

/// The application surface a requester speaks for.
pub struct AppContext {
    pub app_id: String,
    pub app_version: String,
    pub installation_id: String,
}

/// Who asks, from which surface and environment, on what trust basis, and for
/// which validity window.
pub struct RequesterTrustEnvelope {
    pub requester_id: String,
    pub requester_class: String,
    pub app_context: AppContext,
    pub environment_mode: String,
    pub trust_basis: String,
    pub trust_basis_provenance: String,
    pub user_intent_basis: String,
    pub request_nonce_or_token: String,
    pub issued_at: String,
    pub expires_at: String,
}

/// The service and environments a policy governs.
pub struct PolicyScope {
    pub service_id: String,
    pub environment_modes: Vec<String>,
}

/// A policy's rule for one capability.
pub struct CapabilityRule {
    pub capability_id: u128,
    pub allowed: bool,
    pub allowed_requester_classes: Vec<String>,
    pub allowed_side_effect_classes: Vec<String>,
    pub required_approval_posture: ApprovalPosture,
}

/// A policy's rule for one side-effect class.
pub struct SideEffectRule {
    pub side_effect_class: String,
    pub allowed: bool,
}

/// The most permissive posture a requester class may reach.
pub struct ApprovalRule {
    pub requester_class: String,
    pub max_posture: ApprovalPosture,
}

/// Where an artifact came from and when it was issued.
pub struct Provenance {
    pub source_kind: String,
    pub issued_at: String,
}

/// A governed policy artifact.
pub struct PolicyArtifact {
    pub policy_id: String,
    pub policy_version: String,
    pub scope: PolicyScope,
    pub capability_rules: Vec<CapabilityRule>,
    pub side_effect_rules: Vec<SideEffectRule>,
    pub approval_rules: Vec<ApprovalRule>,
    pub environment_conditions: Vec<String>,
    pub dependency_readiness_conditions: Vec<String>,
    pub failure_behavior: String,
    pub policy_provenance: Provenance,
}

/// One registered capability.
pub struct CapabilityEntry {
    pub capability_id: u128,
    pub owner_service: String,
    pub capability_type: String,
    pub side_effect_class: String,
    pub approval_posture: ApprovalPosture,
    pub allowed_requester_classes: Vec<String>,
    pub timeout_budget_ms: u64,
    pub retry_budget: u64,
    pub max_duration_budget_ms: u64,
    pub enabled_state: String,
    pub review_class: String,
    pub provenance: Provenance,
    pub revocation_state: String,
    pub version_range: String,
}

/// The registry of capabilities that admission may grant.
pub struct CapabilityRegistry {
    pub registry_version: String,
    pub capabilities: Vec<CapabilityEntry>,
}

/// The execution request being admitted.
pub struct ExecutionRequestEnvelope {
    pub request_id: u128,
    pub correlation_id: u128,
    pub requester_id: String,
    pub environment_mode: String,
    pub requested_capability_id: String,
    pub requested_side_effect_class: String,
    pub intent: String,
    pub intent_summary: String,
    pub requested_at: String,
}

/// The texts of a vector of strings.
pub open spec fn texts(v: Vec<String>) -> Seq<Seq<char>> {
    v@.map_values(|s: String| s@)
}

/// A vector holding exactly the one text `s`.
pub fn single_text(s: &str) -> (r: Vec<String>)
    ensures
        texts(r) == seq![s@],
{
    let mut r: Vec<String> = Vec::new();
    r.push(s.to_owned());
    proof {
        assert(texts(r) =~= seq![s@]);
    }
    r
}

} // verus!
