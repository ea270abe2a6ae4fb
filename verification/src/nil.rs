//! AuthorForge NIL: Writer Authority Mode policy and narrative-commit capability.
//!
//! NIL's Writer Authority Mode and approval tiering are expressed as admission
//! inputs: the policy, registry and request that an admission decision reads.
//! That decision is not part of this library. A canon current-state commit is
//! a governed execution request with side-effect class `local_db_mutation`; the
//! project's mode and the candidate's authority class select the approval
//! posture that the policy requires:
//!
//! | NIL tier  | posture                    | meaning                                 |
//! |-----------|----------------------------|-----------------------------------------|
//! | A_auto    | `PolicyPreapproved`        | auto-commit (audited, reversible)       |
//! | B_review  | `ReviewRequired`           | non-blocking review                     |
//! | (writer)  | `ExplicitOperatorApproval` | explicit writer approval                |
//! | C_block   | `Denied`                   | blocked, not a committable capability   |
//!
//! `ManuscriptText` is never a committable capability: it is absent from the
//! registry, and its posture is `Denied` in every mode.

use vstd::prelude::*;
use crate::admission::AdmissionInputs;
use crate::envelopes::{
    single_text, texts, AppContext, ApprovalRule, CapabilityEntry, CapabilityRegistry,
    CapabilityRule, ExecutionRequestEnvelope, PolicyArtifact, PolicyScope, Provenance,
    RequesterTrustEnvelope, SideEffectRule,
};
use crate::ids::{hex_digits, hyphenated, is_random_uuid, parse_uuid, random_uuid, uuid_text};
use crate::timestamp::{
    iso, iso_text_of, TimestampUtc, MAX_UNIX_SECONDS, MIN_UNIX_SECONDS, SECONDS_PER_HOUR,
};
use crate::vocabulary::ApprovalPosture;

verus! {

/// Per-project Writer Authority Mode.
#[derive(Clone, Copy, Debug, PartialEq, Eq, Structural)]
pub enum WriterAuthorityMode {
    StrictWriterApproval,
    AssistedMetadataAuto,
    ExperimentalLowRiskAuto,
}

/// What kind of state a commit would change.
#[derive(Clone, Copy, Debug, PartialEq, Eq, Structural)]
pub enum NarrativeAuthorityClass {
    DerivedMetadata,
    CandidateAuthority,
    AcceptedAuthority,
    ManuscriptText,
}

/// Capability id of a derived-metadata commit, `a1100000-0000-4000-8000-000000000001`.
pub const DERIVED_METADATA_CAPABILITY: u128 = 0xa1100000_0000_4000_8000_000000000001;

/// Capability id of a candidate-authority commit, `a1100000-0000-4000-8000-000000000002`.
pub const CANDIDATE_AUTHORITY_CAPABILITY: u128 = 0xa1100000_0000_4000_8000_000000000002;

/// Capability id of an accepted-authority commit, `a1100000-0000-4000-8000-000000000003`.
pub const ACCEPTED_AUTHORITY_CAPABILITY: u128 = 0xa1100000_0000_4000_8000_000000000003;

/// The stable capability id of a narrative commit of `class`; none for
/// manuscript text.
pub open spec fn commit_capability(class: NarrativeAuthorityClass) -> Option<u128> {
    match class {
        NarrativeAuthorityClass::DerivedMetadata => Some(DERIVED_METADATA_CAPABILITY),
        NarrativeAuthorityClass::CandidateAuthority => Some(CANDIDATE_AUTHORITY_CAPABILITY),
        NarrativeAuthorityClass::AcceptedAuthority => Some(ACCEPTED_AUTHORITY_CAPABILITY),
        NarrativeAuthorityClass::ManuscriptText => None,
    }
}

/// The approval posture required to commit a candidate of `class` under `mode`.
pub open spec fn commit_posture(
    mode: WriterAuthorityMode,
    class: NarrativeAuthorityClass,
) -> ApprovalPosture {
    match class {
        NarrativeAuthorityClass::ManuscriptText => ApprovalPosture::Denied,
        NarrativeAuthorityClass::DerivedMetadata => match mode {
            WriterAuthorityMode::StrictWriterApproval => ApprovalPosture::ReviewRequired,
            _ => ApprovalPosture::PolicyPreapproved,
        },
        NarrativeAuthorityClass::CandidateAuthority => ApprovalPosture::ReviewRequired,
        NarrativeAuthorityClass::AcceptedAuthority => ApprovalPosture::ExplicitOperatorApproval,
    }
}

/// The capability a commit request names: the registered id for a committable
/// class, and for manuscript text an id that no registry holds.
pub open spec fn requested_capability_text(class: NarrativeAuthorityClass) -> Seq<char> {
    match commit_capability(class) {
        Some(id) => hyphenated(id),
        None => "a1100000-0000-4000-8000-0000000000ff"@,
    }
}

/// The requester-trust envelope of a narrative commit, issued at `issued` and
/// expiring at `expires`.
pub open spec fn is_nil_requester_trust(
    e: RequesterTrustEnvelope,
    issued: Seq<char>,
    expires: Seq<char>,
) -> bool {
    &&& e.requester_id@ == "b2200000-0000-4000-8000-000000000001"@
    &&& e.requester_class@ == "trusted_app_surface"@
    &&& e.app_context.app_id@ == "forge-author"@
    &&& e.app_context.app_version@ == "2.0.0"@
    &&& e.app_context.installation_id@ == "b2200000-0000-4000-8000-0000000000aa"@
    &&& e.environment_mode@ == "prod"@
    &&& e.trust_basis@ == "signed_local_surface"@
    &&& e.trust_basis_provenance@ == "signed_manifest"@
    &&& e.user_intent_basis@ == "explicit_user_action"@
    &&& e.request_nonce_or_token@ == "nil-commit-token"@
    &&& e.issued_at@ == issued
    &&& e.expires_at@ == expires
}

/// The policy rule for the commit capability of a committable `class`: allowed
/// for trusted app surfaces and local database mutation, at the posture that
/// `mode` assigns to `class`.
pub open spec fn is_nil_capability_rule(
    r: CapabilityRule,
    mode: WriterAuthorityMode,
    class: NarrativeAuthorityClass,
) -> bool {
    &&& commit_capability(class) == Some(r.capability_id)
    &&& r.allowed
    &&& texts(r.allowed_requester_classes) == seq!["trusted_app_surface"@]
    &&& texts(r.allowed_side_effect_classes) == seq!["local_db_mutation"@]
    &&& r.required_approval_posture == commit_posture(mode, class)
}

/// The Writer Authority Mode policy artifact of `mode`: one rule per
/// committable class, in the order derived metadata, candidate authority,
/// accepted authority.
pub open spec fn is_nil_policy(p: PolicyArtifact, mode: WriterAuthorityMode, issued: Seq<char>) -> bool {
    &&& p.policy_id@ == "c3300000-0000-4000-8000-000000000001"@
    &&& p.policy_version@ == "1.0.0"@
    &&& p.scope.service_id@ == "fa-local"@
    &&& texts(p.scope.environment_modes) == seq!["prod"@]
    &&& p.capability_rules@.len() == 3
    &&& is_nil_capability_rule(p.capability_rules@[0], mode, NarrativeAuthorityClass::DerivedMetadata)
    &&& is_nil_capability_rule(p.capability_rules@[1], mode, NarrativeAuthorityClass::CandidateAuthority)
    &&& is_nil_capability_rule(p.capability_rules@[2], mode, NarrativeAuthorityClass::AcceptedAuthority)
    &&& p.side_effect_rules@.len() == 1
    &&& p.side_effect_rules@[0].side_effect_class@ == "local_db_mutation"@
    &&& p.side_effect_rules@[0].allowed
    &&& p.approval_rules@.len() == 1
    &&& p.approval_rules@[0].requester_class@ == "trusted_app_surface"@
    &&& p.approval_rules@[0].max_posture == ApprovalPosture::ExecuteAllowed
    &&& texts(p.environment_conditions) == seq!["prod"@]
    &&& texts(p.dependency_readiness_conditions) == seq!["all_dependencies_ready"@]
    &&& p.failure_behavior@ == "deny"@
    &&& p.policy_provenance.source_kind@ == "local_governed_file"@
    &&& p.policy_provenance.issued_at@ == issued
}

/// The registry entry of the commit capability of a committable `class`.
pub open spec fn is_nil_capability_entry(
    e: CapabilityEntry,
    mode: WriterAuthorityMode,
    class: NarrativeAuthorityClass,
    issued: Seq<char>,
) -> bool {
    &&& commit_capability(class) == Some(e.capability_id)
    &&& e.owner_service@ == "fa-local"@
    &&& e.capability_type@ == "local_db_mutation"@
    &&& e.side_effect_class@ == "local_db_mutation"@
    &&& e.approval_posture == commit_posture(mode, class)
    &&& texts(e.allowed_requester_classes) == seq!["trusted_app_surface"@]
    &&& e.timeout_budget_ms == 1000
    &&& e.retry_budget == 0
    &&& e.max_duration_budget_ms == 5000
    &&& e.enabled_state@ == "enabled"@
    &&& e.review_class@ == "none"@
    &&& e.provenance.source_kind@ == "registry_file"@
    &&& e.provenance.issued_at@ == issued
    &&& e.revocation_state@ == "active"@
    &&& e.version_range@ == ">=1.0.0"@
}

/// The narrative-commit registry for `class`: the one commit capability of a
/// committable class, and nothing for manuscript text.
pub open spec fn is_nil_registry(
    r: CapabilityRegistry,
    mode: WriterAuthorityMode,
    class: NarrativeAuthorityClass,
    issued: Seq<char>,
) -> bool {
    &&& r.registry_version@ == "1.0.0"@
    &&& match commit_capability(class) {
        Some(_) => r.capabilities@.len() == 1 && is_nil_capability_entry(r.capabilities@[0], mode, class, issued),
        None => r.capabilities@.len() == 0,
    }
}

/// The canon current-state commit request for `class`.
pub open spec fn is_nil_execution_request(
    e: ExecutionRequestEnvelope,
    class: NarrativeAuthorityClass,
    requested_at: Seq<char>,
    request_id: u128,
    correlation_id: u128,
) -> bool {
    &&& e.request_id == request_id
    &&& e.correlation_id == correlation_id
    &&& e.requester_id@ == "b2200000-0000-4000-8000-000000000001"@
    &&& e.environment_mode@ == "prod"@
    &&& e.requested_capability_id@ == requested_capability_text(class)
    &&& e.requested_side_effect_class@ == "local_db_mutation"@
    &&& e.intent@ == "execute_capability"@
    &&& e.intent_summary@ == "commit canon candidate to nil_canon_current"@
    &&& e.requested_at@ == requested_at
}

/// The four envelopes of one narrative-commit admission.
pub open spec fn is_nil_admission_inputs(
    i: AdmissionInputs,
    mode: WriterAuthorityMode,
    class: NarrativeAuthorityClass,
    issued: Seq<char>,
    expires: Seq<char>,
    requested_at: Seq<char>,
    request_id: u128,
    correlation_id: u128,
) -> bool {
    &&& is_nil_requester_trust(i.requester_trust, issued, expires)
    &&& is_nil_policy(i.policy, mode, issued)
    &&& is_nil_registry(i.capability_registry, mode, class, issued)
    &&& is_nil_execution_request(i.execution_request, class, requested_at, request_id, correlation_id)
}

/// The stable capability id for a narrative commit of `class`;
/// `ManuscriptText` has none, it is never committable.
pub fn narrative_commit_capability_id(class: NarrativeAuthorityClass) -> (r: Option<u128>)
    ensures
        r == commit_capability(class),
{
    match class {
        NarrativeAuthorityClass::DerivedMetadata => {
            proof {
                lemma_commit_capability_text(DERIVED_METADATA_CAPABILITY);
                reveal_strlit("a1100000-0000-4000-8000-000000000001");
                reveal_strlit("a1100000-0000-4000-8000-00000000000");
                assert(hyphenated(DERIVED_METADATA_CAPABILITY) =~= "a1100000-0000-4000-8000-000000000001"@);
            }
            parse_uuid("a1100000-0000-4000-8000-000000000001")
        },
        NarrativeAuthorityClass::CandidateAuthority => {
            proof {
                lemma_commit_capability_text(CANDIDATE_AUTHORITY_CAPABILITY);
                reveal_strlit("a1100000-0000-4000-8000-000000000002");
                reveal_strlit("a1100000-0000-4000-8000-00000000000");
                assert(hyphenated(CANDIDATE_AUTHORITY_CAPABILITY) =~= "a1100000-0000-4000-8000-000000000002"@);
            }
            parse_uuid("a1100000-0000-4000-8000-000000000002")
        },
        NarrativeAuthorityClass::AcceptedAuthority => {
            proof {
                lemma_commit_capability_text(ACCEPTED_AUTHORITY_CAPABILITY);
                reveal_strlit("a1100000-0000-4000-8000-000000000003");
                reveal_strlit("a1100000-0000-4000-8000-00000000000");
                assert(hyphenated(ACCEPTED_AUTHORITY_CAPABILITY) =~= "a1100000-0000-4000-8000-000000000003"@);
            }
            parse_uuid("a1100000-0000-4000-8000-000000000003")
        },
        NarrativeAuthorityClass::ManuscriptText => None,
    }
}

/// The Writer Authority Mode policy decision: the approval posture required to
/// commit a candidate of `class` under `mode`.
pub fn narrative_commit_posture(
    mode: WriterAuthorityMode,
    class: NarrativeAuthorityClass,
) -> (r: ApprovalPosture)
    ensures
        r == commit_posture(mode, class),
{
    match class {
        // Manuscript text never auto-commits and is not a committable capability.
        NarrativeAuthorityClass::ManuscriptText => ApprovalPosture::Denied,
        // Rebuildable derived metadata may auto-commit once the writer has opted
        // out of strict approval; strict mode still reviews it.
        NarrativeAuthorityClass::DerivedMetadata => match mode {
            WriterAuthorityMode::StrictWriterApproval => ApprovalPosture::ReviewRequired,
            WriterAuthorityMode::AssistedMetadataAuto
            | WriterAuthorityMode::ExperimentalLowRiskAuto => ApprovalPosture::PolicyPreapproved,
        },
        // Proposed authority-bearing signals wait for review in all modes.
        NarrativeAuthorityClass::CandidateAuthority => ApprovalPosture::ReviewRequired,
        // Accepting authority state requires an explicit writer decision.
        NarrativeAuthorityClass::AcceptedAuthority => ApprovalPosture::ExplicitOperatorApproval,
    }
}

fn nil_requester_trust(issued: String, expires: String) -> (r: RequesterTrustEnvelope)
    ensures
        is_nil_requester_trust(r, issued@, expires@),
{
    RequesterTrustEnvelope {
        requester_id: "b2200000-0000-4000-8000-000000000001".to_owned(),
        requester_class: "trusted_app_surface".to_owned(),
        app_context: AppContext {
            app_id: "forge-author".to_owned(),
            app_version: "2.0.0".to_owned(),
            installation_id: "b2200000-0000-4000-8000-0000000000aa".to_owned(),
        },
        environment_mode: "prod".to_owned(),
        trust_basis: "signed_local_surface".to_owned(),
        trust_basis_provenance: "signed_manifest".to_owned(),
        user_intent_basis: "explicit_user_action".to_owned(),
        request_nonce_or_token: "nil-commit-token".to_owned(),
        issued_at: issued,
        expires_at: expires,
    }
}

fn nil_capability_rule(mode: WriterAuthorityMode, class: NarrativeAuthorityClass) -> (r: CapabilityRule)
    requires
        class != NarrativeAuthorityClass::ManuscriptText,
    ensures
        is_nil_capability_rule(r, mode, class),
{
    CapabilityRule {
        capability_id: narrative_commit_capability_id(class).unwrap(),
        allowed: true,
        allowed_requester_classes: single_text("trusted_app_surface"),
        allowed_side_effect_classes: single_text("local_db_mutation"),
        required_approval_posture: narrative_commit_posture(mode, class),
    }
}

fn nil_policy(mode: WriterAuthorityMode, issued: String) -> (r: PolicyArtifact)
    ensures
        is_nil_policy(r, mode, issued@),
{
    let mut capability_rules: Vec<CapabilityRule> = Vec::new();
    capability_rules.push(nil_capability_rule(mode, NarrativeAuthorityClass::DerivedMetadata));
    capability_rules.push(nil_capability_rule(mode, NarrativeAuthorityClass::CandidateAuthority));
    capability_rules.push(nil_capability_rule(mode, NarrativeAuthorityClass::AcceptedAuthority));
    let mut side_effect_rules: Vec<SideEffectRule> = Vec::new();
    side_effect_rules.push(
        SideEffectRule { side_effect_class: "local_db_mutation".to_owned(), allowed: true },
    );
    let mut approval_rules: Vec<ApprovalRule> = Vec::new();
    approval_rules.push(
        ApprovalRule {
            requester_class: "trusted_app_surface".to_owned(),
            max_posture: ApprovalPosture::ExecuteAllowed,
        },
    );
    PolicyArtifact {
        policy_id: "c3300000-0000-4000-8000-000000000001".to_owned(),
        policy_version: "1.0.0".to_owned(),
        scope: PolicyScope {
            service_id: "fa-local".to_owned(),
            environment_modes: single_text("prod"),
        },
        capability_rules,
        side_effect_rules,
        approval_rules,
        environment_conditions: single_text("prod"),
        dependency_readiness_conditions: single_text("all_dependencies_ready"),
        failure_behavior: "deny".to_owned(),
        policy_provenance: Provenance {
            source_kind: "local_governed_file".to_owned(),
            issued_at: issued,
        },
    }
}

fn nil_registry(
    mode: WriterAuthorityMode,
    class: NarrativeAuthorityClass,
    issued: String,
) -> (r: CapabilityRegistry)
    ensures
        is_nil_registry(r, mode, class, issued@),
{
    let mut capabilities: Vec<CapabilityEntry> = Vec::new();
    match narrative_commit_capability_id(class) {
        Some(capability_id) => {
            capabilities.push(
                CapabilityEntry {
                    capability_id,
                    owner_service: "fa-local".to_owned(),
                    capability_type: "local_db_mutation".to_owned(),
                    side_effect_class: "local_db_mutation".to_owned(),
                    approval_posture: narrative_commit_posture(mode, class),
                    allowed_requester_classes: single_text("trusted_app_surface"),
                    timeout_budget_ms: 1000,
                    retry_budget: 0,
                    max_duration_budget_ms: 5000,
                    enabled_state: "enabled".to_owned(),
                    review_class: "none".to_owned(),
                    provenance: Provenance {
                        source_kind: "registry_file".to_owned(),
                        issued_at: issued,
                    },
                    revocation_state: "active".to_owned(),
                    version_range: ">=1.0.0".to_owned(),
                },
            );
        },
        // Manuscript text is intentionally absent: it is never committable.
        None => {},
    }
    CapabilityRegistry { registry_version: "1.0.0".to_owned(), capabilities }
}

fn nil_execution_request(
    class: NarrativeAuthorityClass,
    requested_at: String,
    request_id: u128,
    correlation_id: u128,
) -> (r: ExecutionRequestEnvelope)
    ensures
        is_nil_execution_request(r, class, requested_at@, request_id, correlation_id),
{
    let requested_capability_id = match narrative_commit_capability_id(class) {
        Some(id) => uuid_text(id),
        // Manuscript text: an id that the (empty) registry does not hold.
        None => "a1100000-0000-4000-8000-0000000000ff".to_owned(),
    };
    ExecutionRequestEnvelope {
        request_id,
        correlation_id,
        requester_id: "b2200000-0000-4000-8000-000000000001".to_owned(),
        environment_mode: "prod".to_owned(),
        requested_capability_id,
        requested_side_effect_class: "local_db_mutation".to_owned(),
        intent: "execute_capability".to_owned(),
        intent_summary: "commit canon candidate to nil_canon_current".to_owned(),
        requested_at,
    }
}

/// The four contract envelopes of one narrative-commit admission, from the
/// timestamp texts (`issued`, `expires`, `requested_at`) and the request and
/// correlation ids: a requester-trust envelope, the Writer Authority Mode
/// policy artifact of `mode`, the narrative-commit capability registry for
/// `class` (empty for manuscript text), and the commit execution request.
pub fn assemble_admission_inputs(
    mode: WriterAuthorityMode,
    class: NarrativeAuthorityClass,
    issued: String,
    expires: String,
    requested_at: String,
    request_id: u128,
    correlation_id: u128,
) -> (r: AdmissionInputs)
    ensures
        is_nil_admission_inputs(
            r,
            mode,
            class,
            issued@,
            expires@,
            requested_at@,
            request_id,
            correlation_id,
        ),
{
    let requester_trust = nil_requester_trust(issued.clone(), expires);
    let policy = nil_policy(mode, issued.clone());
    let capability_registry = nil_registry(mode, class, issued);
    let execution_request = nil_execution_request(class, requested_at, request_id, correlation_id);
    AdmissionInputs { requester_trust, policy, capability_registry, execution_request }
}

/// Builds the four contract envelopes for one narrative-commit admission at
/// `now`: the requester trust is issued an hour before `now` and expires an
/// hour after it, the request is stamped at `now`, and the request and
/// correlation ids are fresh random ids. The admission decision over these
/// inputs is not part of this library.
pub fn build_admission_inputs(
    mode: WriterAuthorityMode,
    class: NarrativeAuthorityClass,
    now: TimestampUtc,
) -> (r: AdmissionInputs)
    requires
        now.wf(),
        MIN_UNIX_SECONDS <= now.shifted_secs(-SECONDS_PER_HOUR),
        now.shifted_secs(SECONDS_PER_HOUR as int) <= MAX_UNIX_SECONDS,
    ensures
        is_nil_admission_inputs(
            r,
            mode,
            class,
            iso_text_of(now.shifted(-SECONDS_PER_HOUR)),
            iso_text_of(now.shifted(SECONDS_PER_HOUR as int)),
            iso_text_of(now),
            r.execution_request.request_id,
            r.execution_request.correlation_id,
        ),
        is_random_uuid(r.execution_request.request_id),
        is_random_uuid(r.execution_request.correlation_id),
{
    let issued = iso(now.add_seconds(-SECONDS_PER_HOUR));
    let expires = iso(now.add_seconds(SECONDS_PER_HOUR));
    let requested_at = iso(now);
    let request_id = random_uuid();
    let correlation_id = random_uuid();
    assemble_admission_inputs(mode, class, issued, expires, requested_at, request_id, correlation_id)
}


/// The policy rule that governs committable `class`: its position among the
/// policy's capability rules.
pub open spec fn rule_index(class: NarrativeAuthorityClass) -> int {
    match class {
        NarrativeAuthorityClass::DerivedMetadata => 0,
        NarrativeAuthorityClass::CandidateAuthority => 1,
        _ => 2,
    }
}

/// Manuscript text is never committable: in every mode its posture is
/// `Denied` and it has no commit capability.
pub proof fn lemma_manuscript_text_never_committable(mode: WriterAuthorityMode)
    ensures
        commit_posture(mode, NarrativeAuthorityClass::ManuscriptText) == ApprovalPosture::Denied,
        commit_capability(NarrativeAuthorityClass::ManuscriptText) is None,
{
}

/// Derived metadata auto-commits (policy preapproved) exactly when the writer
/// has left strict approval; under strict approval it is reviewed.
pub proof fn lemma_derived_metadata_auto_commits_only_outside_strict_mode(mode: WriterAuthorityMode)
    ensures
        (commit_posture(mode, NarrativeAuthorityClass::DerivedMetadata)
            == ApprovalPosture::PolicyPreapproved) <==> mode != WriterAuthorityMode::StrictWriterApproval,
        mode == WriterAuthorityMode::StrictWriterApproval ==> commit_posture(
            mode,
            NarrativeAuthorityClass::DerivedMetadata,
        ) == ApprovalPosture::ReviewRequired,
{
}

/// Candidate authority is reviewed in every mode.
pub proof fn lemma_candidate_authority_reviewed_in_every_mode(mode: WriterAuthorityMode)
    ensures
        commit_posture(mode, NarrativeAuthorityClass::CandidateAuthority) == ApprovalPosture::ReviewRequired,
{
}

/// Accepting authority state requires an explicit writer decision in every mode.
pub proof fn lemma_accepted_authority_requires_explicit_approval(mode: WriterAuthorityMode)
    ensures
        commit_posture(mode, NarrativeAuthorityClass::AcceptedAuthority)
            == ApprovalPosture::ExplicitOperatorApproval,
{
}

/// No narrative commit is ever granted plain execution: every posture the
/// Writer Authority Mode policy requires is at most policy preapproval.
pub proof fn lemma_no_commit_is_execute_allowed(
    mode: WriterAuthorityMode,
    class: NarrativeAuthorityClass,
)
    ensures
        commit_posture(mode, class) != ApprovalPosture::ExecuteAllowed,
{
}

/// Distinct committable classes have distinct capability ids.
pub proof fn lemma_capability_ids_distinct(c1: NarrativeAuthorityClass, c2: NarrativeAuthorityClass)
    requires
        commit_capability(c1) is Some,
        c1 != c2,
    ensures
        commit_capability(c1) != commit_capability(c2),
{
}

/// The last character of the hyphenated text of `v` is its last hex digit.
proof fn lemma_hyphenated_last_char(v: u128)
    ensures
        hyphenated(v).len() == 36,
        hyphenated(v)[35] == crate::ids::hex_char(v as int % 16),
{
    lemma_hex_digits_len(v as int, 32);
    assert(hex_digits(v as int, 32)[31] == crate::ids::hex_char(v as int % 16));
}

proof fn lemma_hex_digits_len(v: int, n: nat)
    ensures
        hex_digits(v, n).len() == n,
    decreases n,
{
    if n > 0 {
        lemma_hex_digits_len(v / 16, (n - 1) as nat);
    }
}

/// For manuscript text the registry is empty and the request names an id that
/// none of the policy's capability rules carries, so admission finds no
/// capability to admit.
pub proof fn lemma_manuscript_text_request_is_unregistered(
    i: AdmissionInputs,
    mode: WriterAuthorityMode,
    issued: Seq<char>,
    expires: Seq<char>,
    requested_at: Seq<char>,
    request_id: u128,
    correlation_id: u128,
)
    requires
        is_nil_admission_inputs(
            i,
            mode,
            NarrativeAuthorityClass::ManuscriptText,
            issued,
            expires,
            requested_at,
            request_id,
            correlation_id,
        ),
    ensures
        i.capability_registry.capabilities@.len() == 0,
        forall|k: int|
            0 <= k < i.policy.capability_rules@.len() ==> hyphenated(
                #[trigger] i.policy.capability_rules@[k].capability_id,
            ) != i.execution_request.requested_capability_id@,
{
    reveal_strlit("a1100000-0000-4000-8000-0000000000ff");
    assert forall|k: int| 0 <= k < i.policy.capability_rules@.len() implies hyphenated(
        #[trigger] i.policy.capability_rules@[k].capability_id,
    ) != i.execution_request.requested_capability_id@ by {
        let id = i.policy.capability_rules@[k].capability_id;
        lemma_hyphenated_last_char(id);
        assert(i.execution_request.requested_capability_id@[35] == 'f');
    }
}

/// For a committable class the registry holds exactly the capability the
/// request names, registered at the posture that the policy rule for the same
/// capability requires, which is the posture `mode` assigns to `class`.
pub proof fn lemma_committable_request_names_registered_capability(
    i: AdmissionInputs,
    mode: WriterAuthorityMode,
    class: NarrativeAuthorityClass,
    issued: Seq<char>,
    expires: Seq<char>,
    requested_at: Seq<char>,
    request_id: u128,
    correlation_id: u128,
)
    requires
        class != NarrativeAuthorityClass::ManuscriptText,
        is_nil_admission_inputs(
            i,
            mode,
            class,
            issued,
            expires,
            requested_at,
            request_id,
            correlation_id,
        ),
    ensures
        i.capability_registry.capabilities@.len() == 1,
        hyphenated(i.capability_registry.capabilities@[0].capability_id)
            == i.execution_request.requested_capability_id@,
        i.policy.capability_rules@[rule_index(class)].capability_id
            == i.capability_registry.capabilities@[0].capability_id,
        i.policy.capability_rules@[rule_index(class)].required_approval_posture
            == i.capability_registry.capabilities@[0].approval_posture,
        i.capability_registry.capabilities@[0].approval_posture == commit_posture(mode, class),
{
}

/// The Writer Authority Mode reaches the policy only through the postures its
/// capability rules require: two policies built for any two modes agree on
/// every other field, and in every mode the one side-effect rule allows local
/// database mutation and every capability rule is allowed.
pub proof fn lemma_policy_depends_on_mode_only_through_postures(
    p1: PolicyArtifact,
    m1: WriterAuthorityMode,
    p2: PolicyArtifact,
    m2: WriterAuthorityMode,
    issued: Seq<char>,
)
    requires
        is_nil_policy(p1, m1, issued),
        is_nil_policy(p2, m2, issued),
    ensures
        p1.policy_id@ == p2.policy_id@,
        p1.policy_version@ == p2.policy_version@,
        p1.scope.service_id@ == p2.scope.service_id@,
        texts(p1.scope.environment_modes) == texts(p2.scope.environment_modes),
        p1.capability_rules@.len() == p2.capability_rules@.len() == 3,
        forall|k: int|
            0 <= k < 3 ==> {
                &&& #[trigger] p1.capability_rules@[k].capability_id
                    == p2.capability_rules@[k].capability_id
                &&& p1.capability_rules@[k].allowed
                &&& p2.capability_rules@[k].allowed
                &&& texts(p1.capability_rules@[k].allowed_requester_classes) == texts(
                    p2.capability_rules@[k].allowed_requester_classes,
                )
                &&& texts(p1.capability_rules@[k].allowed_side_effect_classes) == texts(
                    p2.capability_rules@[k].allowed_side_effect_classes,
                )
            },
        p1.side_effect_rules@.len() == p2.side_effect_rules@.len() == 1,
        p1.side_effect_rules@[0].side_effect_class@ == p2.side_effect_rules@[0].side_effect_class@,
        p1.side_effect_rules@[0].side_effect_class@ == "local_db_mutation"@,
        p1.side_effect_rules@[0].allowed && p2.side_effect_rules@[0].allowed,
        p1.approval_rules@.len() == p2.approval_rules@.len() == 1,
        p1.approval_rules@[0].requester_class@ == p2.approval_rules@[0].requester_class@,
        p1.approval_rules@[0].max_posture == p2.approval_rules@[0].max_posture,
        texts(p1.environment_conditions) == texts(p2.environment_conditions),
        texts(p1.dependency_readiness_conditions) == texts(p2.dependency_readiness_conditions),
        p1.failure_behavior@ == p2.failure_behavior@,
        p1.policy_provenance.source_kind@ == p2.policy_provenance.source_kind@,
        p1.policy_provenance.issued_at@ == p2.policy_provenance.issued_at@,
{
}

/// The registry entry of a committable class is enabled, active and, apart
/// from its capability id and approval posture, the same for every class and
/// every mode.
pub proof fn lemma_registry_entry_depends_only_on_id_and_posture(
    r1: CapabilityRegistry,
    m1: WriterAuthorityMode,
    c1: NarrativeAuthorityClass,
    r2: CapabilityRegistry,
    m2: WriterAuthorityMode,
    c2: NarrativeAuthorityClass,
    issued: Seq<char>,
)
    requires
        c1 != NarrativeAuthorityClass::ManuscriptText,
        c2 != NarrativeAuthorityClass::ManuscriptText,
        is_nil_registry(r1, m1, c1, issued),
        is_nil_registry(r2, m2, c2, issued),
    ensures
        r1.registry_version@ == r2.registry_version@,
        r1.capabilities@.len() == 1,
        r2.capabilities@.len() == 1,
        r1.capabilities@[0].enabled_state@ == "enabled"@,
        r1.capabilities@[0].revocation_state@ == "active"@,
        r1.capabilities@[0].enabled_state@ == r2.capabilities@[0].enabled_state@,
        r1.capabilities@[0].revocation_state@ == r2.capabilities@[0].revocation_state@,
        r1.capabilities@[0].owner_service@ == r2.capabilities@[0].owner_service@,
        r1.capabilities@[0].capability_type@ == r2.capabilities@[0].capability_type@,
        r1.capabilities@[0].side_effect_class@ == r2.capabilities@[0].side_effect_class@,
        texts(r1.capabilities@[0].allowed_requester_classes) == texts(
            r2.capabilities@[0].allowed_requester_classes,
        ),
        r1.capabilities@[0].timeout_budget_ms == r2.capabilities@[0].timeout_budget_ms,
        r1.capabilities@[0].retry_budget == r2.capabilities@[0].retry_budget,
        r1.capabilities@[0].max_duration_budget_ms == r2.capabilities@[0].max_duration_budget_ms,
        r1.capabilities@[0].review_class@ == r2.capabilities@[0].review_class@,
        r1.capabilities@[0].provenance.source_kind@ == r2.capabilities@[0].provenance.source_kind@,
        r1.capabilities@[0].provenance.issued_at@ == r2.capabilities@[0].provenance.issued_at@,
        r1.capabilities@[0].version_range@ == r2.capabilities@[0].version_range@,
{
}

/// The commit request depends on the authority class only through the
/// capability it names: two requests stamped alike agree on every other field.
pub proof fn lemma_request_depends_on_class_only_through_capability(
    e1: ExecutionRequestEnvelope,
    c1: NarrativeAuthorityClass,
    e2: ExecutionRequestEnvelope,
    c2: NarrativeAuthorityClass,
    requested_at: Seq<char>,
    request_id: u128,
    correlation_id: u128,
)
    requires
        is_nil_execution_request(e1, c1, requested_at, request_id, correlation_id),
        is_nil_execution_request(e2, c2, requested_at, request_id, correlation_id),
    ensures
        e1.request_id == e2.request_id,
        e1.correlation_id == e2.correlation_id,
        e1.requester_id@ == e2.requester_id@,
        e1.environment_mode@ == e2.environment_mode@,
        e1.requested_side_effect_class@ == e2.requested_side_effect_class@,
        e1.requested_side_effect_class@ == "local_db_mutation"@,
        e1.intent@ == e2.intent@,
        e1.intent_summary@ == e2.intent_summary@,
        e1.requested_at@ == e2.requested_at@,
        c1 == c2 ==> e1.requested_capability_id@ == e2.requested_capability_id@,
{
}

/// Within one set of admission inputs, the requester trust, the policy and the
/// registry entry are all issued at the same instant, and the request comes
/// from the requester that the trust envelope vouches for.
pub proof fn lemma_envelopes_agree(
    i: AdmissionInputs,
    mode: WriterAuthorityMode,
    class: NarrativeAuthorityClass,
    issued: Seq<char>,
    expires: Seq<char>,
    requested_at: Seq<char>,
    request_id: u128,
    correlation_id: u128,
)
    requires
        is_nil_admission_inputs(
            i,
            mode,
            class,
            issued,
            expires,
            requested_at,
            request_id,
            correlation_id,
        ),
    ensures
        i.policy.policy_provenance.issued_at@ == i.requester_trust.issued_at@,
        class != NarrativeAuthorityClass::ManuscriptText ==> i.capability_registry.capabilities@[0].provenance.issued_at@
            == i.requester_trust.issued_at@,
        i.execution_request.requester_id@ == i.requester_trust.requester_id@,
        i.execution_request.environment_mode@ == i.requester_trust.environment_mode@,
        texts(i.policy.scope.environment_modes) == seq![i.requester_trust.environment_mode@],
        i.policy.side_effect_rules@[0].side_effect_class@
            == i.execution_request.requested_side_effect_class@,
        i.policy.approval_rules@[0].requester_class@ == i.requester_trust.requester_class@,
{
}

/// The value shared by the three commit capability ids above their last
/// hexadecimal digit.
pub const COMMIT_CAPABILITY_PREFIX: u128 = 0xa1100000_0000_4000_8000_00000000000;

/// The 31 hexadecimal digits of the shared prefix.
proof fn lemma_commit_capability_prefix_digits()
    ensures
        hex_digits(COMMIT_CAPABILITY_PREFIX as int, 31)
            =~= "a110000000004000800000000000000"@,
{
    reveal_strlit("a110000000004000800000000000000");
    assert(hex_digits(0x0int, 0) =~= Seq::<char>::empty());
    assert(hex_digits(0xaint, 1) =~= seq!['a']);
    assert(hex_digits(0xa1int, 2) =~= seq!['a', '1']);
    assert(hex_digits(0xa11int, 3) =~= seq!['a', '1', '1']);
    assert(hex_digits(0xa110int, 4) =~= seq!['a', '1', '1', '0']);
    assert(hex_digits(0xa1100int, 5) =~= seq!['a', '1', '1', '0', '0']);
    assert(hex_digits(0xa11000int, 6) =~= seq!['a', '1', '1', '0', '0', '0']);
    assert(hex_digits(0xa110000int, 7) =~= seq!['a', '1', '1', '0', '0', '0', '0']);
    assert(hex_digits(0xa1100000int, 8) =~= seq!['a', '1', '1', '0', '0', '0', '0', '0']);
    assert(hex_digits(0xa11000000int, 9) =~= seq!['a', '1', '1', '0', '0', '0', '0', '0', '0']);
    assert(hex_digits(0xa110000000int, 10) =~= seq!['a', '1', '1', '0', '0', '0', '0', '0', '0', '0']);
    assert(hex_digits(0xa1100000000int, 11) =~= seq!['a', '1', '1', '0', '0', '0', '0', '0', '0', '0', '0']);
    assert(hex_digits(0xa11000000000int, 12) =~= seq!['a', '1', '1', '0', '0', '0', '0', '0', '0', '0', '0', '0']);
    assert(hex_digits(0xa110000000004int, 13) =~= seq!['a', '1', '1', '0', '0', '0', '0', '0', '0', '0', '0', '0', '4']);
    assert(hex_digits(0xa1100000000040int, 14) =~= seq!['a', '1', '1', '0', '0', '0', '0', '0', '0', '0', '0', '0', '4', '0']);
    assert(hex_digits(0xa11000000000400int, 15) =~= seq!['a', '1', '1', '0', '0', '0', '0', '0', '0', '0', '0', '0', '4', '0', '0']);
    assert(hex_digits(0xa110000000004000int, 16) =~= seq!['a', '1', '1', '0', '0', '0', '0', '0', '0', '0', '0', '0', '4', '0', '0', '0']);
    assert(hex_digits(0xa1100000000040008int, 17) =~= seq!['a', '1', '1', '0', '0', '0', '0', '0', '0', '0', '0', '0', '4', '0', '0', '0', '8']);
    assert(hex_digits(0xa11000000000400080int, 18) =~= seq!['a', '1', '1', '0', '0', '0', '0', '0', '0', '0', '0', '0', '4', '0', '0', '0', '8', '0']);
    assert(hex_digits(0xa110000000004000800int, 19) =~= seq!['a', '1', '1', '0', '0', '0', '0', '0', '0', '0', '0', '0', '4', '0', '0', '0', '8', '0', '0']);
    assert(hex_digits(0xa1100000000040008000int, 20) =~= seq!['a', '1', '1', '0', '0', '0', '0', '0', '0', '0', '0', '0', '4', '0', '0', '0', '8', '0', '0', '0']);
    assert(hex_digits(0xa11000000000400080000int, 21) =~= seq!['a', '1', '1', '0', '0', '0', '0', '0', '0', '0', '0', '0', '4', '0', '0', '0', '8', '0', '0', '0', '0']);
    assert(hex_digits(0xa110000000004000800000int, 22) =~= seq!['a', '1', '1', '0', '0', '0', '0', '0', '0', '0', '0', '0', '4', '0', '0', '0', '8', '0', '0', '0', '0', '0']);
    assert(hex_digits(0xa1100000000040008000000int, 23) =~= seq!['a', '1', '1', '0', '0', '0', '0', '0', '0', '0', '0', '0', '4', '0', '0', '0', '8', '0', '0', '0', '0', '0', '0']);
    assert(hex_digits(0xa11000000000400080000000int, 24) =~= seq!['a', '1', '1', '0', '0', '0', '0', '0', '0', '0', '0', '0', '4', '0', '0', '0', '8', '0', '0', '0', '0', '0', '0', '0']);
    assert(hex_digits(0xa110000000004000800000000int, 25) =~= seq!['a', '1', '1', '0', '0', '0', '0', '0', '0', '0', '0', '0', '4', '0', '0', '0', '8', '0', '0', '0', '0', '0', '0', '0', '0']);
    assert(hex_digits(0xa1100000000040008000000000int, 26) =~= seq!['a', '1', '1', '0', '0', '0', '0', '0', '0', '0', '0', '0', '4', '0', '0', '0', '8', '0', '0', '0', '0', '0', '0', '0', '0', '0']);
    assert(hex_digits(0xa11000000000400080000000000int, 27) =~= seq!['a', '1', '1', '0', '0', '0', '0', '0', '0', '0', '0', '0', '4', '0', '0', '0', '8', '0', '0', '0', '0', '0', '0', '0', '0', '0', '0']);
    assert(hex_digits(0xa110000000004000800000000000int, 28) =~= seq!['a', '1', '1', '0', '0', '0', '0', '0', '0', '0', '0', '0', '4', '0', '0', '0', '8', '0', '0', '0', '0', '0', '0', '0', '0', '0', '0', '0']);
    assert(hex_digits(0xa1100000000040008000000000000int, 29) =~= seq!['a', '1', '1', '0', '0', '0', '0', '0', '0', '0', '0', '0', '4', '0', '0', '0', '8', '0', '0', '0', '0', '0', '0', '0', '0', '0', '0', '0', '0']);
    assert(hex_digits(0xa11000000000400080000000000000int, 30) =~= seq!['a', '1', '1', '0', '0', '0', '0', '0', '0', '0', '0', '0', '4', '0', '0', '0', '8', '0', '0', '0', '0', '0', '0', '0', '0', '0', '0', '0', '0', '0']);
    assert(hex_digits(0xa110000000004000800000000000000int, 31) =~= seq!['a', '1', '1', '0', '0', '0', '0', '0', '0', '0', '0', '0', '4', '0', '0', '0', '8', '0', '0', '0', '0', '0', '0', '0', '0', '0', '0', '0', '0', '0', '0']);
}

/// The hyphenated text of a commit capability id is the shared prefix text
/// followed by its last digit.
proof fn lemma_commit_capability_text(v: u128)
    requires
        v as int / 16 == COMMIT_CAPABILITY_PREFIX,
    ensures
        hyphenated(v) =~= "a1100000-0000-4000-8000-00000000000"@ + seq![
            crate::ids::hex_char(v as int % 16),
        ],
{
    reveal_strlit("a110000000004000800000000000000");
    reveal_strlit("a1100000-0000-4000-8000-00000000000");
    lemma_commit_capability_prefix_digits();
    assert(hex_digits(v as int, 32) == hex_digits(COMMIT_CAPABILITY_PREFIX as int, 31).push(
        crate::ids::hex_char(v as int % 16),
    ));
}

} // verus!
