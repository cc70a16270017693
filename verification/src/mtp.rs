//! Optional multi-token prediction: draft depths, verification decisions and
//! request-local bookkeeping.

pub mod depth;
pub mod verification_decision;
pub mod decode;
pub mod artifact;
pub mod runtime;
pub mod eligibility;
pub mod emission_queue;
pub mod commit_plan;
pub mod attempt;
pub mod moe_tensor_spec;
pub mod source_selection;
pub mod attempt_flow;
