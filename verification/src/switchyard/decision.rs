//! Requests for decisions, and the decisions that come back.

use crate::ids::{fresh_uuid, uuid_text};
use crate::json::{json_object, object_of, opt_json, opt_text_json, pairs_view, text_json, Json, JsonView, Members};
use crate::ordered::{has_key, lookup};
use crate::switchyard::config::{
    answers, ContextMode, RequestMaterialization, RoutingMode, SwitchyardConfig, TargetBinding, WireProtocol,
    SWITCHYARD_PLUGIN_KIND,
};
use crate::switchyard::contract::{
    DataSchema, DecisionAttempt, DecisionProfile, LlmRequest, RequestIdentity, RequestProtocol, RequestSummary,
    RoutingDecision, RoutingRequest, RoutingTarget, ROUTING_DECISION_SCHEMA_VERSION, ROUTING_REQUEST_SCHEMA_VERSION,
};
use crate::switchyard::marks::{
    decision_mark, error_mark, mark_decision, mark_error, marks_view, number, Mark, MarkView,
};
use crate::switchyard::request::{call_header, header_text, routed_call, SwitchyardRuntime, Translated};
use crate::text::{debug_text, opt_text, quoted, same_text};
use vstd::prelude::*;
use vstd::string::*;

verus! {

/// What is wrong with a backend that a decision names: it has to be bound, with this very model, protocol
/// and endpoint.
pub open spec fn binding_error(config: SwitchyardConfig, target: RoutingTarget) -> Option<Seq<char>> {
    match lookup(config.targets.view(), target.backend_id@) {
        None => Some("unknown backend_id "@ + debug_text(target.backend_id@)),
        Some(binding) => if binding.model != target.target_model@ || binding.protocol.label_text()
            != target.target_protocol_profile@ || binding.endpoint != target.target_endpoint@ {
            Some(
                "decision target "@ + debug_text(target.backend_id@) + " does not match its exact Relay binding"@,
            )
        } else {
            None
        },
    }
}

/// What is wrong with a decision.
pub open spec fn decision_error(config: SwitchyardConfig, decision: RoutingDecision) -> Option<Seq<char>> {
    if decision.schema_version@ != ROUTING_DECISION_SCHEMA_VERSION@ {
        Some("unsupported decision schema "@ + debug_text(decision.schema_version@))
    } else {
        binding_error(config, decision.route)
    }
}

/// What came of asking for a decision.
#[derive(Debug)]
pub enum DecisionReply {
    /// The request could not be sent.
    Unsent(String),
    /// The service answered with a status that is no success.
    Refused { status: String, body: String },
    /// The answer could not be read.
    Unreadable(String),
    /// The service decided.
    Decided(RoutingDecision),
}

/// What is wrong with a reply.
pub open spec fn reply_error(config: SwitchyardConfig, reply: DecisionReply) -> Option<Seq<char>> {
    match reply {
        DecisionReply::Unsent(error) => Some("Decision API request failed: "@ + error@),
        DecisionReply::Refused { status, body } => Some(
            "Decision API returned HTTP "@ + status@ + ": "@ + body@,
        ),
        DecisionReply::Unreadable(error) => Some("Decision API returned invalid JSON: "@ + error@),
        DecisionReply::Decided(decision) => decision_error(config, decision),
    }
}

/// The role of who wrote a message.
#[derive(Clone, Copy, Debug, PartialEq, Eq, Structural)]
pub enum Role {
    System,
    Developer,
    User,
    Assistant,
    Tool,
}

/// What reading a call in its protocol shows.
#[derive(Debug)]
pub struct RequestParts {
    /// Who gave the instructions.
    pub instruction_roles: Vec<Role>,
    /// Who wrote the messages.
    pub message_roles: Vec<Role>,
    /// The call, annotated.
    pub annotated: Json,
    /// The last message of the user.
    pub latest_user_prompt: Option<String>,
    /// The last message alone, as a body in the call's protocol.
    pub latest_body: Result<Json, String>,
    /// The last messages, annotated.
    pub window: Json,
    /// The last messages, as a body in the call's protocol.
    pub window_body: Result<Json, String>,
}

/// Whether somebody writes as the system.
pub open spec fn system_speaks(parts: RequestParts) -> bool {
    parts.instruction_roles@.contains(Role::System) || parts.message_roles@.contains(Role::System)
}

fn any_system(roles: &Vec<Role>) -> (r: bool)
    ensures
        r == roles@.contains(Role::System),
{
    let mut i: usize = 0;
    while i < roles.len()
        invariant
            i <= roles.len(),
            forall|j: int| 0 <= j < i ==> roles@[j] != Role::System,
        decreases roles.len() - i,
    {
        if roles[i] == Role::System {
            return true;
        }
        i += 1;
    }
    false
}

/// The part of the call that a decision request carries, or why it cannot.
pub open spec fn material(
    materialization: RequestMaterialization,
    content: JsonView,
    parts: RequestParts,
) -> Result<Option<JsonView>, Seq<char>> {
    match materialization {
        RequestMaterialization::Nothing => Ok(None),
        RequestMaterialization::SummaryOnly => Ok(None),
        RequestMaterialization::FullBody => Ok(Some(object_of(seq![("body"@, content)]))),
        RequestMaterialization::AnnotatedRequest => Ok(
            Some(object_of(seq![("body"@, content), ("annotated_request"@, parts.annotated@)])),
        ),
        RequestMaterialization::LatestUserPrompt => match parts.latest_user_prompt {
            None => Err("latest_user_prompt requires a user message"@),
            Some(prompt) => match parts.latest_body {
                Err(error) => Err("latest user prompt encode failed: "@ + error@),
                Ok(body) => Ok(
                    Some(object_of(seq![("body"@, body@), ("latest_user_prompt"@, JsonView::Text(prompt@))])),
                ),
            },
        },
        RequestMaterialization::RecentMessageWindow => match parts.window_body {
            Err(error) => Err("recent window encode failed: "@ + error@),
            Ok(body) => Ok(Some(object_of(seq![("body"@, body@), ("annotated_request"@, parts.window@)]))),
        },
    }
}

/// The part of the call that a decision request carries.
pub fn materialize(materialization: RequestMaterialization, content: &Json, parts: &RequestParts) -> (r: Result<
    Option<Json>,
    String,
>)
    ensures
        match r {
            Ok(Some(json)) => material(materialization, content@, *parts) == Ok::<Option<JsonView>, Seq<char>>(
                Some(json@),
            ),
            Ok(None) => material(materialization, content@, *parts) == Ok::<Option<JsonView>, Seq<char>>(None),
            Err(error) => material(materialization, content@, *parts) == Err::<Option<JsonView>, Seq<char>>(error@),
        },
{
    match materialization {
        RequestMaterialization::Nothing => Ok(None),
        RequestMaterialization::SummaryOnly => Ok(None),
        RequestMaterialization::FullBody => {
            let pairs: Vec<(&str, Json)> = vec![("body", content.clone())];
            assert(pairs_view(pairs@) =~= seq![("body"@, content@)]);
            Ok(Some(json_object(pairs)))
        },
        RequestMaterialization::AnnotatedRequest => {
            let pairs: Vec<(&str, Json)> = vec![
                ("body", content.clone()),
                ("annotated_request", parts.annotated.clone()),
            ];
            assert(pairs_view(pairs@) =~= seq![("body"@, content@), ("annotated_request"@, parts.annotated@)]);
            Ok(Some(json_object(pairs)))
        },
        RequestMaterialization::LatestUserPrompt => match &parts.latest_user_prompt {
            None => Err("latest_user_prompt requires a user message".to_owned()),
            Some(prompt) => match &parts.latest_body {
                Err(error) => Err("latest user prompt encode failed: ".to_owned().concat(error.as_str())),
                Ok(body) => {
                    let pairs: Vec<(&str, Json)> = vec![
                        ("body", body.clone()),
                        ("latest_user_prompt", text_json(prompt.as_str())),
                    ];
                    assert(pairs_view(pairs@) =~= seq![
                        ("body"@, body@),
                        ("latest_user_prompt"@, JsonView::Text(prompt@)),
                    ]);
                    Ok(Some(json_object(pairs)))
                },
            },
        },
        RequestMaterialization::RecentMessageWindow => match &parts.window_body {
            Err(error) => Err("recent window encode failed: ".to_owned().concat(error.as_str())),
            Ok(body) => {
                let pairs: Vec<(&str, Json)> = vec![
                    ("body", body.clone()),
                    ("annotated_request", parts.window.clone()),
                ];
                assert(pairs_view(pairs@) =~= seq![("body"@, body@), ("annotated_request"@, parts.window@)]);
                Ok(Some(json_object(pairs)))
            },
        },
    }
}

/// A text, or another where there is none.
pub open spec fn or_text(s: Option<Seq<char>>, other: Seq<char>) -> Seq<char> {
    match s {
        Some(t) => t,
        None => other,
    }
}

fn or_owned(s: Option<String>, other: &str) -> (r: String)
    ensures
        r@ == or_text(opt_text(s), other@),
{
    match s {
        Some(t) => t,
        None => other.to_owned(),
    }
}

/// Whether the headers of a call say whose session and which request it is.
pub open spec fn identity_is_stable(headers: Members) -> bool {
    header_text(headers, "x-nemo-relay-session-id"@) is Some && header_text(headers, "x-nemo-relay-request-id"@) is Some
}

/// Why no decision can be asked for.
pub open spec fn request_error(
    config: SwitchyardConfig,
    headers: Members,
    content: JsonView,
    parts: Result<RequestParts, String>,
) -> Option<Seq<char>> {
    if config.context_mode == ContextMode::AtofRequired && !identity_is_stable(headers) {
        Some("stable session and request identity are required for this profile"@)
    } else {
        match parts {
            Err(error) => Some("request translation decode failed: "@ + error@),
            Ok(p) => match material(config.request_materialization, content, p) {
                Err(error) => Some(error),
                Ok(_) => None,
            },
        }
    }
}

/// The identity that a decision request carries: what the headers say, and made-up identifiers where they
/// do not say whose session or which request it is.
pub open spec fn identity_is(
    identity: RequestIdentity,
    headers: Members,
    made_session: Seq<char>,
    made_request: Seq<char>,
) -> bool {
    &&& identity.session_id@ == or_text(header_text(headers, "x-nemo-relay-session-id"@), made_session)
    &&& identity.request_id@ == or_text(header_text(headers, "x-nemo-relay-request-id"@), made_request)
    &&& opt_text(identity.turn_id) == header_text(headers, "x-nemo-relay-turn-id"@)
    &&& opt_text(identity.parent_scope_id) == header_text(headers, "x-nemo-relay-parent-scope-id"@)
    &&& opt_text(identity.root_scope_id) == header_text(headers, "x-nemo-relay-root-scope-id"@)
    &&& identity.harness@ == or_text(header_text(headers, "x-nemo-relay-agent-kind"@), "unknown"@)
    &&& identity.source@ == or_text(header_text(headers, "x-nemo-relay-source"@), "nemo-relay"@)
    &&& opt_text(identity.owner_id) == header_text(headers, "x-nemo-relay-owner-id"@)
    &&& identity.quality@ == or_text(
        header_text(headers, "x-nemo-relay-identity-quality"@),
        if identity_is_stable(headers) {
            "explicit"@
        } else {
            "synthetic"@
        },
    )
}

/// How many retries and the first attempt make.
pub open spec fn max_attempts(config: SwitchyardConfig) -> u32 {
    if config.max_retries == u32::MAX {
        u32::MAX
    } else {
        (config.max_retries + 1) as u32
    }
}

/// How many attempts there are at most.
pub fn attempt_limit(config: &SwitchyardConfig) -> (r: u32)
    ensures
        r == max_attempts(*config),
        1 <= r,
{
    config.max_retries.saturating_add(1)
}

/// A decision request, but for its identity.
pub open spec fn request_is(
    request: RoutingRequest,
    config: SwitchyardConfig,
    inbound: WireProtocol,
    content: JsonView,
    parts: RequestParts,
    attempt: u32,
    previous: Option<(String, String)>,
) -> bool {
    &&& request.schema_version@ == ROUTING_REQUEST_SCHEMA_VERSION@
    &&& request.decision_profile.profile_id@ == config.decision_profile_id@
    &&& request.decision_profile.request_materialization == config.request_materialization
    &&& request.protocol.inbound_profile@ == inbound.label_text()
    &&& request.protocol.inbound_endpoint@ == inbound.endpoint_text()
    &&& request.protocol.desired_response_profile@ == inbound.label_text()
    &&& opt_text(request.request_summary.client_requested_model) == content.text_at("model"@)
    &&& request.request_summary.prompt_token_estimate is None
    &&& request.request_summary.tool_count_in_payload == (match content.get("tools"@) {
        Some(JsonView::Array(tools)) => Some(tools.len() as u64),
        _ => None,
    })
    &&& request.request_summary.has_system_prompt == Some(system_speaks(parts))
    &&& (match material(config.request_materialization, content, parts) {
        Ok(Some(json)) => request.current_request is Some && request.current_request->Some_0@ == json,
        Ok(None) => request.current_request is None,
        Err(_) => false,
    })
    &&& request.attempt.routing_attempt == attempt
    &&& request.attempt.max_routing_attempts == max_attempts(config)
    &&& opt_text(request.attempt.previous_route) == (match previous {
        Some(p) => Some(p.0@),
        None => None,
    })
    &&& opt_text(request.attempt.retry_reason) == (match previous {
        Some(p) => Some(p.1@),
        None => None,
    })
}

fn call_identity(request: &LlmRequest, made_session: String, made_request: String) -> (r: RequestIdentity)
    ensures
        identity_is(r, request.headers.view(), made_session@, made_request@),
{
    let session = call_header(request, "x-nemo-relay-session-id");
    let request_id = call_header(request, "x-nemo-relay-request-id");
    let stable = session.is_some() && request_id.is_some();
    RequestIdentity {
        session_id: or_owned(session, made_session.as_str()),
        request_id: or_owned(request_id, made_request.as_str()),
        turn_id: call_header(request, "x-nemo-relay-turn-id"),
        parent_scope_id: call_header(request, "x-nemo-relay-parent-scope-id"),
        root_scope_id: call_header(request, "x-nemo-relay-root-scope-id"),
        harness: or_owned(call_header(request, "x-nemo-relay-agent-kind"), "unknown"),
        source: or_owned(call_header(request, "x-nemo-relay-source"), "nemo-relay"),
        owner_id: call_header(request, "x-nemo-relay-owner-id"),
        quality: or_owned(
            call_header(request, "x-nemo-relay-identity-quality"),
            if stable {
                "explicit"
            } else {
                "synthetic"
            },
        ),
    }
}

fn call_summary(content: &Json, parts: &RequestParts) -> (r: RequestSummary)
    ensures
        opt_text(r.client_requested_model) == content@.text_at("model"@),
        r.prompt_token_estimate is None,
        r.tool_count_in_payload == (match content@.get("tools"@) {
            Some(JsonView::Array(tools)) => Some(tools.len() as u64),
            _ => None,
        }),
        r.has_system_prompt == Some(system_speaks(*parts)),
{
    let model = match content.text_at("model") {
        Some(s) => Some(s.to_owned()),
        None => None,
    };
    let tools: Option<u64> = match content.get("tools") {
        Some(Json::Array(items)) => Some(items.len() as u64),
        _ => None,
    };
    RequestSummary {
        client_requested_model: model,
        prompt_token_estimate: None,
        tool_count_in_payload: tools,
        has_system_prompt: Some(any_system(&parts.instruction_roles) || any_system(&parts.message_roles)),
    }
}

/// The decision request for a call, with `made_session` and `made_request` where the call does not say whose
/// session or which request it is. `parts` is what reading the call gave.
pub fn routing_request_with(
    config: &SwitchyardConfig,
    inbound: WireProtocol,
    request: &LlmRequest,
    parts: &Result<RequestParts, String>,
    attempt: u32,
    previous: &Option<(String, String)>,
    made_session: String,
    made_request: String,
) -> (r: Result<RoutingRequest, String>)
    ensures
        match r {
            Ok(q) => request_error(*config, request.headers.view(), request.content@, *parts) is None && request_is(
                q,
                *config,
                inbound,
                request.content@,
                parts->Ok_0,
                attempt,
                *previous,
            ) && identity_is(q.identity, request.headers.view(), made_session@, made_request@),
            Err(error) => request_error(*config, request.headers.view(), request.content@, *parts) == Some(error@),
        },
{
    if config.context_mode == ContextMode::AtofRequired && (call_header(request, "x-nemo-relay-session-id").is_none()
        || call_header(request, "x-nemo-relay-request-id").is_none()) {
        return Err("stable session and request identity are required for this profile".to_owned());
    }
    let parts = match parts {
        Err(error) => {
            return Err("request translation decode failed: ".to_owned().concat(error.as_str()));
        },
        Ok(parts) => parts,
    };
    let current_request = match materialize(config.request_materialization, &request.content, parts) {
        Err(error) => {
            return Err(error);
        },
        Ok(json) => json,
    };
    let (previous_route, retry_reason) = match previous {
        Some(p) => (Some(p.0.clone()), Some(p.1.clone())),
        None => (None, None),
    };
    Ok(
        RoutingRequest {
            schema_version: ROUTING_REQUEST_SCHEMA_VERSION.to_owned(),
            decision_profile: DecisionProfile {
                profile_id: config.decision_profile_id.clone(),
                request_materialization: config.request_materialization,
            },
            identity: call_identity(request, made_session, made_request),
            protocol: RequestProtocol {
                inbound_profile: inbound.label().to_owned(),
                inbound_endpoint: inbound.endpoint().to_owned(),
                desired_response_profile: inbound.label().to_owned(),
            },
            request_summary: call_summary(&request.content, parts),
            current_request,
            attempt: DecisionAttempt {
                routing_attempt: attempt,
                max_routing_attempts: attempt_limit(config),
                previous_route,
                retry_reason,
            },
        },
    )
}

/// An identifier made up for a call that has none.
pub open spec fn made_up(s: Seq<char>) -> bool {
    exists|id: Seq<char>| #[trigger] uuid_text(id) && s == "request-"@ + id
}

fn made_up_id() -> (r: String)
    ensures
        made_up(r@),
{
    let id = fresh_uuid();
    assert(uuid_text(id@));
    "request-".to_owned().concat(id.as_str())
}

/// The decision request for a call. A session or request that the call does not name is called `request-`
/// and a fresh UUID.
pub fn routing_request(
    config: &SwitchyardConfig,
    inbound: WireProtocol,
    request: &LlmRequest,
    parts: &Result<RequestParts, String>,
    attempt: u32,
    previous: &Option<(String, String)>,
) -> (r: Result<RoutingRequest, String>)
    ensures
        match r {
            Ok(q) => request_error(*config, request.headers.view(), request.content@, *parts) is None && request_is(
                q,
                *config,
                inbound,
                request.content@,
                parts->Ok_0,
                attempt,
                *previous,
            ) && exists|session: Seq<char>, id: Seq<char>|
                made_up(session) && made_up(id) && #[trigger] identity_is(q.identity, request.headers.view(), session, id),
            Err(error) => request_error(*config, request.headers.view(), request.content@, *parts) == Some(error@),
        },
{
    let made_session = made_up_id();
    let made_request = made_up_id();
    routing_request_with(config, inbound, request, parts, attempt, previous, made_session, made_request)
}

/// What an optimization is about.
#[derive(Clone, Copy, Debug, PartialEq, Eq, Structural)]
pub enum OptimizationKind {
    /// Which model serves a call.
    ModelRouting,
}

/// What routing changed, for the record of optimizations.
#[derive(Debug)]
pub struct RoutingContribution {
    /// Which plugin tells it.
    pub source: String,
    pub kind: OptimizationKind,
    pub applied: bool,
    pub baseline_model: String,
    pub effective_model: String,
    pub payload_schema: DataSchema,
    pub payload: Json,
}

/// The schema of the contribution's payload, version 1.
pub const ROUTING_CONTRIBUTION_SCHEMA: &'static str = "nvidia.switchyard.routing_optimization";

/// The members of the contribution's payload.
pub open spec fn contribution_members(
    config: SwitchyardConfig,
    decision: RoutingDecision,
    baseline: RoutingTarget,
    attempt: u32,
) -> Members {
    seq![
        ("decision_id"@, JsonView::Text(decision.decision_id@)),
        ("selected_backend_id"@, JsonView::Text(decision.route.backend_id@)),
        ("selected_tier"@, JsonView::Text(decision.route.tier@)),
        ("baseline_backend_id"@, JsonView::Text(baseline.backend_id@)),
        ("baseline_tier"@, JsonView::Text(baseline.tier@)),
        ("routing_attempt"@, number(attempt)),
        ("rollout_mode"@, JsonView::Text(config.mode.label_text())),
        ("reason_code"@, opt_text_json(opt_text(decision.reason_code))),
        ("reason_summary"@, opt_text_json(opt_text(decision.reason_summary))),
        ("router_metadata"@, JsonView::Object(decision.metadata.view())),
    ]
}

/// Whether `r` is the contribution of a decision: there is one exactly where the decision names a baseline
/// that matches its binding.
pub open spec fn contribution_is(
    r: Option<RoutingContribution>,
    config: SwitchyardConfig,
    decision: RoutingDecision,
    attempt: u32,
    applied: bool,
) -> bool {
    match decision.baseline_route {
        Some(baseline) => if binding_error(config, baseline) is Some {
            r is None
        } else {
            &&& r is Some
            &&& r->Some_0.source@ == SWITCHYARD_PLUGIN_KIND@
            &&& r->Some_0.kind == OptimizationKind::ModelRouting
            &&& r->Some_0.applied == applied
            &&& r->Some_0.baseline_model@ == baseline.target_model@
            &&& r->Some_0.effective_model@ == decision.route.target_model@
            &&& r->Some_0.payload_schema.name@ == ROUTING_CONTRIBUTION_SCHEMA@
            &&& r->Some_0.payload_schema.version@ == "1"@
            &&& r->Some_0.payload@ == object_of(contribution_members(config, decision, baseline, attempt))
        },
        None => r is None,
    }
}

impl SwitchyardRuntime {
    /// The binding of a backend that is bound with this very model, protocol and endpoint.
    pub fn validate_target(&self, target: &RoutingTarget) -> (r: Result<&TargetBinding, String>)
        ensures
            match r {
                Ok(binding) => binding_error(self.config, *target) is None && lookup(
                    self.config.targets.view(),
                    target.backend_id@,
                ) == Some(binding@),
                Err(error) => binding_error(self.config, *target) == Some(error@),
            },
    {
        match self.config.targets.get(target.backend_id.as_str()) {
            None => Err("unknown backend_id ".to_owned().concat(quoted(target.backend_id.as_str()).as_str())),
            Some(binding) => {
                if !same_text(binding.model.as_str(), target.target_model.as_str()) || !same_text(
                    binding.protocol.label(),
                    target.target_protocol_profile.as_str(),
                ) || !same_text(binding.endpoint.as_str(), target.target_endpoint.as_str()) {
                    Err(
                        "decision target ".to_owned().concat(quoted(target.backend_id.as_str()).as_str()).concat(
                            " does not match its exact Relay binding",
                        ),
                    )
                } else {
                    Ok(binding)
                }
            },
        }
    }

    /// Accepts a decision of the known schema whose backend is bound as it says.
    pub fn validate_decision(&self, decision: &RoutingDecision) -> (r: Result<(), String>)
        ensures
            answers(r, decision_error(self.config, *decision)),
    {
        if !same_text(decision.schema_version.as_str(), ROUTING_DECISION_SCHEMA_VERSION) {
            return Err(
                "unsupported decision schema ".to_owned().concat(quoted(decision.schema_version.as_str()).as_str()),
            );
        }
        match self.validate_target(&decision.route) {
            Ok(_) => Ok(()),
            Err(error) => Err(error),
        }
    }

    /// The decision that a reply holds, where it holds one that is right.
    pub fn accept_reply(&self, reply: DecisionReply) -> (r: Result<RoutingDecision, String>)
        ensures
            match r {
                Ok(decision) => reply == DecisionReply::Decided(decision) && reply_error(self.config, reply) is None,
                Err(error) => reply_error(self.config, reply) == Some(error@),
            },
    {
        match reply {
            DecisionReply::Unsent(error) => Err("Decision API request failed: ".to_owned().concat(error.as_str())),
            DecisionReply::Refused { status, body } => Err(
                "Decision API returned HTTP ".to_owned().concat(status.as_str()).concat(": ").concat(body.as_str()),
            ),
            DecisionReply::Unreadable(error) => Err(
                "Decision API returned invalid JSON: ".to_owned().concat(error.as_str()),
            ),
            DecisionReply::Decided(decision) => match self.validate_decision(&decision) {
                Ok(_) => Ok(decision),
                Err(error) => Err(error),
            },
        }
    }

    /// The contribution of a decision.
    pub fn routing_contribution(&self, decision: &RoutingDecision, attempt: u32, applied: bool) -> (r: Option<
        RoutingContribution,
    >)
        ensures
            contribution_is(r, self.config, *decision, attempt, applied),
    {
        let baseline = match &decision.baseline_route {
            None => {
                return None;
            },
            Some(baseline) => baseline,
        };
        if self.validate_target(baseline).is_err() {
            return None;
        }
        let pairs: Vec<(&str, Json)> = vec![
            ("decision_id", Json::Text(decision.decision_id.clone())),
            ("selected_backend_id", Json::Text(decision.route.backend_id.clone())),
            ("selected_tier", Json::Text(decision.route.tier.clone())),
            ("baseline_backend_id", Json::Text(baseline.backend_id.clone())),
            ("baseline_tier", Json::Text(baseline.tier.clone())),
            ("routing_attempt", Json::Unsigned(attempt as u64)),
            ("rollout_mode", text_json(self.config.mode.label())),
            ("reason_code", opt_json(&decision.reason_code)),
            ("reason_summary", opt_json(&decision.reason_summary)),
            ("router_metadata", Json::Object(decision.metadata.clone())),
        ];
        assert(pairs_view(pairs@) =~= contribution_members(self.config, *decision, *baseline, attempt));
        Some(
            RoutingContribution {
                source: SWITCHYARD_PLUGIN_KIND.to_owned(),
                kind: OptimizationKind::ModelRouting,
                applied,
                baseline_model: baseline.target_model.clone(),
                effective_model: decision.route.target_model.clone(),
                payload_schema: DataSchema {
                    name: ROUTING_CONTRIBUTION_SCHEMA.to_owned(),
                    version: "1".to_owned(),
                },
                payload: json_object(pairs),
            },
        )
    }

    /// Applies an accepted decision to the call: the marks that are left, and the call that goes out.
    /// `translated` is what the translation of the call into the decided protocol gave.
    pub fn conclude_decision(
        &self,
        inbound: WireProtocol,
        original: LlmRequest,
        request: &RoutingRequest,
        decision: &RoutingDecision,
        attempt: u32,
        translated: Translated,
        latency_ms: u64,
    ) -> (r: (Vec<Mark>, Result<LlmRequest, String>))
        ensures
            ({
                let call = routed_call(
                    self.config,
                    self.target_headers.view(),
                    inbound,
                    original.headers.view(),
                    original.content@,
                    decision.route.backend_id@,
                    translated,
                );
                let baseline = baseline_marks(self.config, *request, *decision, attempt);
                match r.1 {
                    Ok(routed) => {
                        &&& call == Ok::<(Members, JsonView), Seq<char>>((routed.headers.view(), routed.content@))
                        &&& marks_view(r.0@) == baseline.push(
                            decision_mark(
                                self.config.mode,
                                *request,
                                *decision,
                                attempt,
                                self.config.mode == RoutingMode::ObserveOnly,
                                latency_ms,
                            ),
                        )
                    },
                    Err(error) => {
                        &&& call == Err::<(Members, JsonView), Seq<char>>(error@)
                        &&& marks_view(r.0@) == baseline
                    },
                }
            }),
    {
        let mut marks: Vec<Mark> = Vec::new();
        let ghost baseline_view = baseline_marks(self.config, *request, *decision, attempt);
        if let Some(baseline) = &decision.baseline_route {
            if let Err(error) = self.validate_target(baseline) {
                marks.push(
                    mark_error(self.config.mode, Some(request), attempt, "baseline_binding", error.as_str()),
                );
            }
        }
        assert(marks_view(marks@) =~= baseline_view);
        match self.apply_target(inbound, original, decision.route.backend_id.as_str(), translated) {
            Err(error) => (marks, Err(error)),
            Ok(routed) => {
                marks.push(
                    mark_decision(
                        self.config.mode,
                        request,
                        decision,
                        attempt,
                        self.config.mode == RoutingMode::ObserveOnly,
                        latency_ms,
                    ),
                );
                assert(marks_view(marks@) =~= baseline_view.push(
                    decision_mark(
                        self.config.mode,
                        *request,
                        *decision,
                        attempt,
                        self.config.mode == RoutingMode::ObserveOnly,
                        latency_ms,
                    ),
                ));
                (marks, Ok(routed))
            },
        }
    }
}

/// What is marked of a baseline that does not match its binding.
pub open spec fn baseline_marks(
    config: SwitchyardConfig,
    request: RoutingRequest,
    decision: RoutingDecision,
    attempt: u32,
) -> Seq<MarkView> {
    match decision.baseline_route {
        Some(baseline) => match binding_error(config, baseline) {
            Some(error) => seq![error_mark(config.mode, Some(request), attempt, "baseline_binding"@, error)],
            None => Seq::empty(),
        },
        None => Seq::empty(),
    }
}

/// A decision that was accepted names the protocol of its binding by that protocol's own label, so the
/// protocol can be told from it.
pub proof fn accepted_decision_names_a_protocol(config: SwitchyardConfig, decision: RoutingDecision)
    requires
        decision_error(config, decision) is None,
    ensures
        has_key(config.targets.view(), decision.route.backend_id@),
        crate::switchyard::request::labelled_protocol(decision.route.target_protocol_profile@) == Some(
            lookup(config.targets.view(), decision.route.backend_id@)->Some_0.protocol,
        ),
{
    reveal_strlit("openai_chat");
    reveal_strlit("openai_chat_completions");
    reveal_strlit("openai_chat_completions.v1");
    reveal_strlit("openai_responses");
    reveal_strlit("openai_responses.v1");
    reveal_strlit("anthropic_messages");
    assert("openai_responses"@.len() != "openai_chat"@.len());
    assert("openai_responses"@.len() != "openai_chat_completions"@.len());
    assert("openai_responses"@.len() != "openai_chat_completions.v1"@.len());
    assert("anthropic_messages"@.len() != "openai_chat"@.len());
    assert("anthropic_messages"@.len() != "openai_chat_completions"@.len());
    assert("anthropic_messages"@.len() != "openai_chat_completions.v1"@.len());
    assert("anthropic_messages"@.len() != "openai_responses"@.len());
    assert("anthropic_messages"@.len() != "openai_responses.v1"@.len());
}

} // verus!
