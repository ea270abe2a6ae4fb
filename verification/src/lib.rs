//! Governed local admission support: the approval-posture vocabulary, the
//! identifier and timestamp primitives, the admission context, and the
//! AuthorForge NIL Writer Authority Mode integration.

pub mod admission;
pub mod envelopes;
pub mod ids;
pub mod nil;
pub mod timestamp;
pub mod vocabulary;

pub use admission::{AdmissionContext, AdmissionInputs, AdmissionService};
pub use timestamp::TimestampUtc;
pub use vocabulary::{ApprovalPosture, EnvironmentMode};
