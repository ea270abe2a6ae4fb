//! Shared runtime vocabulary: approval postures and environment modes.

use vstd::prelude::*;

verus! {

/// The approval posture a route resolves to, from most to least permissive.
#[derive(Clone, Copy, Debug, PartialEq, Eq, Structural)]
pub enum ApprovalPosture {
    ExecuteAllowed,
    PolicyPreapproved,
    ReviewRequired,
    ExplicitOperatorApproval,
    Denied,
}

/// The environment a request is evaluated in.
#[derive(Clone, Copy, Debug, PartialEq, Eq, Structural)]
pub enum EnvironmentMode {
    Dev,
    Prod,
}

} // verus!
