//! The inputs and context of one admission decision.
//!
//! The decision itself (requester trust, then policy, then capability
//! admission, then approval-posture resolution into a route decision) is not
//! part of this library; this module holds what such a decision is handed.

use vstd::prelude::*;
use crate::envelopes::{
    CapabilityRegistry, ExecutionRequestEnvelope, PolicyArtifact, RequesterTrustEnvelope,
};
use crate::ids::{is_random_uuid, random_uuid};
use crate::timestamp::TimestampUtc;
use crate::vocabulary::EnvironmentMode;

verus! {

/// The four contract envelopes of one admission decision.
pub struct AdmissionInputs {
    pub requester_trust: RequesterTrustEnvelope,
    pub policy: PolicyArtifact,
    pub capability_registry: CapabilityRegistry,
    pub execution_request: ExecutionRequestEnvelope,
}

/// Evaluation context for an admission decision.
#[derive(Clone, Copy, Debug)]
pub struct AdmissionContext {
    pub expected_environment: EnvironmentMode,
    pub now: TimestampUtc,
    pub route_decision_id: u128,
}

impl AdmissionContext {
    /// A context for `expected_environment` at `now`, with a freshly minted
    /// (random, version 4) route-decision id.
    pub fn new(expected_environment: EnvironmentMode, now: TimestampUtc) -> (r: AdmissionContext)
        ensures
            r.expected_environment == expected_environment,
            r.now == now,
            is_random_uuid(r.route_decision_id),
    {
        AdmissionContext { expected_environment, now, route_decision_id: random_uuid() }
    }
}

/// The stateless admission facade type. It carries no state and, in this
/// library, no operations: the admission decision is not part of it.
#[derive(Clone, Copy, Debug, Default)]
pub struct AdmissionService;

} // verus!
