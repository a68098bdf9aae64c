//! What is said to the decision service and what it answers.

use crate::json::{Json, JsonObject};
use crate::switchyard::config::RequestMaterialization;
use vstd::prelude::*;

verus! {

/// The name and version of the form that a value has.
#[derive(Clone, Debug, PartialEq, Eq)]
pub struct DataSchema {
    pub name: String,
    pub version: String,
}

pub const ROUTING_REQUEST_SCHEMA_VERSION: &'static str = "switchyard.routing_request.v1";

pub const ROUTING_DECISION_SCHEMA_VERSION: &'static str = "switchyard.routing_decision.v1";

/// A model call: its headers and its body.
#[derive(Clone, Debug, PartialEq)]
pub struct LlmRequest {
    pub headers: JsonObject,
    pub content: Json,
}

/// One backend that a decision names.
#[derive(Clone, Debug)]
pub struct RoutingTarget {
    pub tier: String,
    pub target_model: String,
    pub backend_id: String,
    pub target_protocol_profile: String,
    pub target_endpoint: String,
}

/// Who decided.
#[derive(Clone, Debug)]
pub struct DecisionProvider {
    pub name: String,
    pub version: String,
}

/// A decision of the service.
#[derive(Clone, Debug)]
pub struct RoutingDecision {
    pub schema_version: String,
    pub decision_id: String,
    pub router: DecisionProvider,
    pub route: RoutingTarget,
    pub baseline_route: Option<RoutingTarget>,
    /// A number, or `Null`.
    pub confidence: Json,
    pub reason_code: Option<String>,
    pub reason_summary: Option<String>,
    pub metadata: JsonObject,
    /// Members that this version does not know.
    pub extra: JsonObject,
}

/// The profile that is asked to decide.
#[derive(Clone, Debug)]
pub struct DecisionProfile {
    pub profile_id: String,
    pub request_materialization: RequestMaterialization,
}

/// Whose request this is.
#[derive(Clone, Debug)]
pub struct RequestIdentity {
    pub session_id: String,
    pub request_id: String,
    pub turn_id: Option<String>,
    pub parent_scope_id: Option<String>,
    pub root_scope_id: Option<String>,
    pub harness: String,
    pub source: String,
    pub owner_id: Option<String>,
    pub quality: String,
}

/// In which protocol the request came.
#[derive(Clone, Debug)]
pub struct RequestProtocol {
    pub inbound_profile: String,
    pub inbound_endpoint: String,
    pub desired_response_profile: String,
}

/// The request in short.
#[derive(Clone, Debug)]
pub struct RequestSummary {
    pub client_requested_model: Option<String>,
    pub prompt_token_estimate: Option<u64>,
    pub tool_count_in_payload: Option<u64>,
    pub has_system_prompt: Option<bool>,
}

/// Which attempt this is, and what came of the one before.
#[derive(Clone, Debug)]
pub struct DecisionAttempt {
    pub routing_attempt: u32,
    pub max_routing_attempts: u32,
    pub previous_route: Option<String>,
    pub retry_reason: Option<String>,
}

/// A request for a decision.
#[derive(Clone, Debug)]
pub struct RoutingRequest {
    pub schema_version: String,
    pub decision_profile: DecisionProfile,
    pub identity: RequestIdentity,
    pub protocol: RequestProtocol,
    pub request_summary: RequestSummary,
    pub current_request: Option<Json>,
    pub attempt: DecisionAttempt,
}

} // verus!
