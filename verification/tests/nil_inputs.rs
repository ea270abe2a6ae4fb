use fa_local::nil::NarrativeAuthorityClass::{AcceptedAuthority, CandidateAuthority, DerivedMetadata, ManuscriptText};
use fa_local::admission::AdmissionInputs;
use fa_local::envelopes::CapabilityRule;
use fa_local::nil::{
    assemble_admission_inputs, build_admission_inputs, narrative_commit_posture,
    NarrativeAuthorityClass, WriterAuthorityMode,
};
use fa_local::{ApprovalPosture, TimestampUtc};

/// 2030-01-01T00:00:00Z
const NOW_SECS: i64 = 1_893_456_000;

fn now() -> TimestampUtc {
    TimestampUtc::from_unix(NOW_SECS, 0).expect("representable instant")
}

fn build(mode: WriterAuthorityMode, class: NarrativeAuthorityClass) -> AdmissionInputs {
    build_admission_inputs(mode, class, now())
}

fn is_v4(id: u128) -> bool {
    (id >> 76) & 0xf == 4 && (id >> 62) & 0x3 == 2
}

fn single(v: &[String]) -> Vec<&str> {
    v.iter().map(|s| s.as_str()).collect()
}

#[test]
fn trust_window_spans_an_hour_either_side_of_now() {
    let inputs = build(WriterAuthorityMode::AssistedMetadataAuto, NarrativeAuthorityClass::DerivedMetadata);
    assert_eq!(inputs.requester_trust.issued_at, "2029-12-31T23:00:00Z");
    assert_eq!(inputs.requester_trust.expires_at, "2030-01-01T01:00:00Z");
    assert_eq!(inputs.execution_request.requested_at, "2030-01-01T00:00:00Z");
    assert_eq!(inputs.policy.policy_provenance.issued_at, "2029-12-31T23:00:00Z");
    assert_eq!(inputs.capability_registry.capabilities[0].provenance.issued_at, "2029-12-31T23:00:00Z");
}

#[test]
fn sub_second_part_does_not_reach_the_timestamp_texts() {
    let t = TimestampUtc::from_unix(NOW_SECS, 999_999_999).unwrap();
    let inputs = build_admission_inputs(
        WriterAuthorityMode::StrictWriterApproval,
        NarrativeAuthorityClass::CandidateAuthority,
        t,
    );
    assert_eq!(inputs.execution_request.requested_at, "2030-01-01T00:00:00Z");
}

#[test]
fn requester_trust_envelope_fields() {
    let inputs = build(WriterAuthorityMode::StrictWriterApproval, NarrativeAuthorityClass::CandidateAuthority);
    let t = &inputs.requester_trust;
    assert_eq!(t.requester_id, "b2200000-0000-4000-8000-000000000001");
    assert_eq!(t.requester_class, "trusted_app_surface");
    assert_eq!(t.app_context.app_id, "forge-author");
    assert_eq!(t.app_context.app_version, "2.0.0");
    assert_eq!(t.app_context.installation_id, "b2200000-0000-4000-8000-0000000000aa");
    assert_eq!(t.environment_mode, "prod");
    assert_eq!(t.trust_basis, "signed_local_surface");
    assert_eq!(t.trust_basis_provenance, "signed_manifest");
    assert_eq!(t.user_intent_basis, "explicit_user_action");
    assert_eq!(t.request_nonce_or_token, "nil-commit-token");
}

fn check_rule(rule: &CapabilityRule, id: u128, posture: ApprovalPosture) {
    assert_eq!(rule.capability_id, id);
    assert!(rule.allowed);
    assert_eq!(single(&rule.allowed_requester_classes), vec!["trusted_app_surface"]);
    assert_eq!(single(&rule.allowed_side_effect_classes), vec!["local_db_mutation"]);
    assert_eq!(rule.required_approval_posture, posture);
}

#[test]
fn policy_assigns_each_committable_class_its_mode_posture() {
    for mode in [
        WriterAuthorityMode::StrictWriterApproval,
        WriterAuthorityMode::AssistedMetadataAuto,
        WriterAuthorityMode::ExperimentalLowRiskAuto,
    ] {
        let p = build(mode, ManuscriptText).policy;
        assert_eq!(p.capability_rules.len(), 3);
        check_rule(&p.capability_rules[0], 0xa1100000_0000_4000_8000_000000000001, narrative_commit_posture(mode, DerivedMetadata));
        check_rule(&p.capability_rules[1], 0xa1100000_0000_4000_8000_000000000002, narrative_commit_posture(mode, CandidateAuthority));
        check_rule(&p.capability_rules[2], 0xa1100000_0000_4000_8000_000000000003, narrative_commit_posture(mode, AcceptedAuthority));
    }
}

#[test]
fn policy_artifact_fields() {
    let p = build(WriterAuthorityMode::AssistedMetadataAuto, NarrativeAuthorityClass::AcceptedAuthority).policy;
    assert_eq!(p.policy_id, "c3300000-0000-4000-8000-000000000001");
    assert_eq!(p.policy_version, "1.0.0");
    assert_eq!(p.scope.service_id, "fa-local");
    assert_eq!(single(&p.scope.environment_modes), vec!["prod"]);
    assert_eq!(p.side_effect_rules.len(), 1);
    assert_eq!(p.side_effect_rules[0].side_effect_class, "local_db_mutation");
    assert!(p.side_effect_rules[0].allowed);
    assert_eq!(p.approval_rules.len(), 1);
    assert_eq!(p.approval_rules[0].requester_class, "trusted_app_surface");
    assert_eq!(p.approval_rules[0].max_posture, ApprovalPosture::ExecuteAllowed);
    assert_eq!(single(&p.environment_conditions), vec!["prod"]);
    assert_eq!(single(&p.dependency_readiness_conditions), vec!["all_dependencies_ready"]);
    assert_eq!(p.failure_behavior, "deny");
    assert_eq!(p.policy_provenance.source_kind, "local_governed_file");
}

#[test]
fn registry_holds_the_one_commit_capability() {
    let inputs = build(WriterAuthorityMode::AssistedMetadataAuto, NarrativeAuthorityClass::DerivedMetadata);
    let reg = &inputs.capability_registry;
    assert_eq!(reg.registry_version, "1.0.0");
    assert_eq!(reg.capabilities.len(), 1);
    let e = &reg.capabilities[0];
    assert_eq!(e.capability_id, 0xa1100000_0000_4000_8000_000000000001);
    assert_eq!(e.owner_service, "fa-local");
    assert_eq!(e.capability_type, "local_db_mutation");
    assert_eq!(e.side_effect_class, "local_db_mutation");
    assert_eq!(e.approval_posture, ApprovalPosture::PolicyPreapproved);
    assert_eq!(single(&e.allowed_requester_classes), vec!["trusted_app_surface"]);
    assert_eq!(e.timeout_budget_ms, 1000);
    assert_eq!(e.retry_budget, 0);
    assert_eq!(e.max_duration_budget_ms, 5000);
    assert_eq!(e.enabled_state, "enabled");
    assert_eq!(e.review_class, "none");
    assert_eq!(e.provenance.source_kind, "registry_file");
    assert_eq!(e.revocation_state, "active");
    assert_eq!(e.version_range, ">=1.0.0");
}

#[test]
fn request_names_the_registered_capability_text() {
    let cases = [
        (DerivedMetadata, "a1100000-0000-4000-8000-000000000001"),
        (CandidateAuthority, "a1100000-0000-4000-8000-000000000002"),
        (AcceptedAuthority, "a1100000-0000-4000-8000-000000000003"),
    ];
    for (class, text) in cases {
        let inputs = build(WriterAuthorityMode::ExperimentalLowRiskAuto, class);
        assert_eq!(inputs.execution_request.requested_capability_id, text);
        let entry = &inputs.capability_registry.capabilities[0];
        assert_eq!(entry.approval_posture, narrative_commit_posture(WriterAuthorityMode::ExperimentalLowRiskAuto, class));
    }
}

#[test]
fn manuscript_text_request_is_unregistered_in_every_mode() {
    for mode in [
        WriterAuthorityMode::StrictWriterApproval,
        WriterAuthorityMode::AssistedMetadataAuto,
        WriterAuthorityMode::ExperimentalLowRiskAuto,
    ] {
        let inputs = build(mode, NarrativeAuthorityClass::ManuscriptText);
        assert!(inputs.capability_registry.capabilities.is_empty());
        assert_eq!(inputs.execution_request.requested_capability_id, "a1100000-0000-4000-8000-0000000000ff");
        for rule in &inputs.policy.capability_rules {
            assert_ne!(
                uuid::Uuid::from_u128(rule.capability_id).to_string(),
                inputs.execution_request.requested_capability_id
            );
        }
    }
}

#[test]
fn execution_request_fields_and_fresh_ids() {
    let inputs = build(WriterAuthorityMode::StrictWriterApproval, NarrativeAuthorityClass::AcceptedAuthority);
    let r = &inputs.execution_request;
    assert_eq!(r.requester_id, "b2200000-0000-4000-8000-000000000001");
    assert_eq!(r.environment_mode, "prod");
    assert_eq!(r.requested_side_effect_class, "local_db_mutation");
    assert_eq!(r.intent, "execute_capability");
    assert_eq!(r.intent_summary, "commit canon candidate to nil_canon_current");
    assert!(is_v4(r.request_id));
    assert!(is_v4(r.correlation_id));
    assert_ne!(r.request_id, r.correlation_id);
    let again = build(WriterAuthorityMode::StrictWriterApproval, NarrativeAuthorityClass::AcceptedAuthority);
    assert_ne!(again.execution_request.request_id, r.request_id);
}

#[test]
fn assemble_uses_the_given_texts_and_ids() {
    let inputs = assemble_admission_inputs(
        WriterAuthorityMode::StrictWriterApproval,
        NarrativeAuthorityClass::DerivedMetadata,
        "issued".to_string(),
        "expires".to_string(),
        "requested".to_string(),
        7,
        9,
    );
    assert_eq!(inputs.requester_trust.issued_at, "issued");
    assert_eq!(inputs.requester_trust.expires_at, "expires");
    assert_eq!(inputs.policy.policy_provenance.issued_at, "issued");
    assert_eq!(inputs.capability_registry.capabilities[0].provenance.issued_at, "issued");
    assert_eq!(inputs.capability_registry.capabilities[0].approval_posture, ApprovalPosture::ReviewRequired);
    assert_eq!(inputs.execution_request.requested_at, "requested");
    assert_eq!(inputs.execution_request.request_id, 7);
    assert_eq!(inputs.execution_request.correlation_id, 9);
}

#[test]
fn leap_second_instant_is_written_as_second_sixty() {
    // 2016-12-31T23:59:60.5Z
    let t = TimestampUtc::from_unix(1_483_228_799, 1_500_000_000).unwrap();
    let inputs = build_admission_inputs(
        WriterAuthorityMode::StrictWriterApproval,
        NarrativeAuthorityClass::DerivedMetadata,
        t,
    );
    assert_eq!(inputs.execution_request.requested_at, "2016-12-31T23:59:60Z");
    assert_eq!(inputs.requester_trust.issued_at, "2016-12-31T23:00:00Z");
    assert_eq!(inputs.requester_trust.expires_at, "2017-01-01T00:59:59Z");
}
