//! The marks that routing leaves in the trace.

use crate::json::{
    json_object, object_of, opt_json, opt_text_json, pairs_view, text_json, Json, JsonObject, JsonView, Members,
};
use crate::switchyard::config::{RoutingMode, SwitchyardConfig, WireProtocol};
use crate::switchyard::contract::{DataSchema, LlmRequest, RequestIdentity, RoutingDecision, RoutingRequest};
use crate::switchyard::failure::{provider_error_class, provider_error_summary, FlowError};
use crate::switchyard::request::{call_header, header_text};
use crate::text::opt_text;
use vstd::prelude::*;
use vstd::string::*;

verus! {

/// The schema of every mark's data, version 1.
pub const ROUTING_MARK_SCHEMA: &'static str = "switchyard.routing_mark";

/// A mark: its name, which is its subtype too, its data and its metadata.
#[derive(Debug, Clone, PartialEq)]
pub struct Mark {
    pub name: String,
    pub data: Json,
    pub metadata: Json,
}

pub struct MarkView {
    pub name: Seq<char>,
    pub data: JsonView,
    pub metadata: JsonView,
}

impl Mark {
    pub open spec fn view(&self) -> MarkView {
        MarkView { name: self.name@, data: self.data@, metadata: self.metadata@ }
    }

    /// The form of the data of every mark.
    pub fn data_schema(&self) -> (r: DataSchema)
        ensures
            r.name@ == ROUTING_MARK_SCHEMA@,
            r.version@ == "1"@,
    {
        DataSchema { name: ROUTING_MARK_SCHEMA.to_owned(), version: "1".to_owned() }
    }
}

/// What a vector of marks holds.
pub open spec fn marks_view(marks: Seq<Mark>) -> Seq<MarkView> {
    Seq::new(marks.len(), |i: int| marks[i].view())
}

pub open spec fn number(n: u32) -> JsonView {
    JsonView::Unsigned(n as u64)
}

/// Whose request it is, as the metadata of a mark.
pub open spec fn identity_json(identity: RequestIdentity) -> JsonView {
    object_of(
        seq![
            ("session_id"@, JsonView::Text(identity.session_id@)),
            ("request_id"@, JsonView::Text(identity.request_id@)),
            ("turn_id"@, opt_text_json(opt_text(identity.turn_id))),
            ("owner_id"@, opt_text_json(opt_text(identity.owner_id))),
        ],
    )
}

/// Whose request it is, as far as the headers of a call say.
pub open spec fn call_identity_json(headers: Members) -> JsonView {
    object_of(
        seq![
            ("session_id"@, opt_text_json(header_text(headers, "x-nemo-relay-session-id"@))),
            ("request_id"@, opt_text_json(header_text(headers, "x-nemo-relay-request-id"@))),
            ("turn_id"@, opt_text_json(header_text(headers, "x-nemo-relay-turn-id"@))),
            ("owner_id"@, opt_text_json(header_text(headers, "x-nemo-relay-owner-id"@))),
        ],
    )
}

/// Whose request it is, as the metadata of a mark.
pub fn identity_metadata(request: &RoutingRequest) -> (r: Json)
    ensures
        r@ == identity_json(request.identity),
{
    let pairs: Vec<(&str, Json)> = vec![
        ("session_id", Json::Text(request.identity.session_id.clone())),
        ("request_id", Json::Text(request.identity.request_id.clone())),
        ("turn_id", opt_json(&request.identity.turn_id)),
        ("owner_id", opt_json(&request.identity.owner_id)),
    ];
    assert(pairs_view(pairs@) =~= seq![
        ("session_id"@, JsonView::Text(request.identity.session_id@)),
        ("request_id"@, JsonView::Text(request.identity.request_id@)),
        ("turn_id"@, opt_text_json(opt_text(request.identity.turn_id))),
        ("owner_id"@, opt_text_json(opt_text(request.identity.owner_id))),
    ]);
    json_object(pairs)
}

/// Whose request it is, as far as the headers of a call say.
pub fn identity_metadata_from_request(request: &LlmRequest) -> (r: Json)
    ensures
        r@ == call_identity_json(request.headers.view()),
{
    let pairs: Vec<(&str, Json)> = vec![
        ("session_id", opt_json(&call_header(request, "x-nemo-relay-session-id"))),
        ("request_id", opt_json(&call_header(request, "x-nemo-relay-request-id"))),
        ("turn_id", opt_json(&call_header(request, "x-nemo-relay-turn-id"))),
        ("owner_id", opt_json(&call_header(request, "x-nemo-relay-owner-id"))),
    ];
    assert(pairs_view(pairs@) =~= seq![
        ("session_id"@, opt_text_json(header_text(request.headers.view(), "x-nemo-relay-session-id"@))),
        ("request_id"@, opt_text_json(header_text(request.headers.view(), "x-nemo-relay-request-id"@))),
        ("turn_id"@, opt_text_json(header_text(request.headers.view(), "x-nemo-relay-turn-id"@))),
        ("owner_id"@, opt_text_json(header_text(request.headers.view(), "x-nemo-relay-owner-id"@))),
    ]);
    json_object(pairs)
}

/// A decision is asked for.
pub open spec fn requested_mark(mode: RoutingMode, request: RoutingRequest) -> MarkView {
    MarkView {
        name: "switchyard.routing.requested"@,
        data: object_of(
            seq![
                ("session_id"@, JsonView::Text(request.identity.session_id@)),
                ("request_id"@, JsonView::Text(request.identity.request_id@)),
                ("routing_attempt"@, number(request.attempt.routing_attempt)),
                ("profile_id"@, JsonView::Text(request.decision_profile.profile_id@)),
                ("rollout_mode"@, JsonView::Text(mode.label_text())),
            ],
        ),
        metadata: identity_json(request.identity),
    }
}

/// A decision is asked for.
pub fn mark_requested(mode: RoutingMode, request: &RoutingRequest) -> (r: Mark)
    ensures
        r.view() == requested_mark(mode, *request),
{
    let pairs: Vec<(&str, Json)> = vec![
        ("session_id", Json::Text(request.identity.session_id.clone())),
        ("request_id", Json::Text(request.identity.request_id.clone())),
        ("routing_attempt", Json::Unsigned(request.attempt.routing_attempt as u64)),
        ("profile_id", Json::Text(request.decision_profile.profile_id.clone())),
        ("rollout_mode", text_json(mode.label())),
    ];
    assert(pairs_view(pairs@) =~= seq![
        ("session_id"@, JsonView::Text(request.identity.session_id@)),
        ("request_id"@, JsonView::Text(request.identity.request_id@)),
        ("routing_attempt"@, number(request.attempt.routing_attempt)),
        ("profile_id"@, JsonView::Text(request.decision_profile.profile_id@)),
        ("rollout_mode"@, JsonView::Text(mode.label_text())),
    ]);
    Mark {
        name: "switchyard.routing.requested".to_owned(),
        data: json_object(pairs),
        metadata: identity_metadata(request),
    }
}

/// The members of a decision mark's data.
pub open spec fn decision_members(
    mode: RoutingMode,
    request: RoutingRequest,
    decision: RoutingDecision,
    attempt: u32,
    observe_only: bool,
    latency_ms: u64,
) -> Members {
    seq![
        ("decision_id"@, JsonView::Text(decision.decision_id@)),
        ("profile_id"@, JsonView::Text(request.decision_profile.profile_id@)),
        ("router"@, JsonView::Text(decision.router.name@)),
        ("router_version"@, JsonView::Text(decision.router.version@)),
        ("routing_attempt"@, number(attempt)),
        ("backend_id"@, JsonView::Text(decision.route.backend_id@)),
        ("selected_tier"@, JsonView::Text(decision.route.tier@)),
        ("selected_model"@, JsonView::Text(decision.route.target_model@)),
        ("target_protocol_profile"@, JsonView::Text(decision.route.target_protocol_profile@)),
        ("target_endpoint"@, JsonView::Text(decision.route.target_endpoint@)),
        ("confidence"@, decision.confidence@),
        ("reason_code"@, opt_text_json(opt_text(decision.reason_code))),
        ("reason_summary"@, opt_text_json(opt_text(decision.reason_summary))),
        ("router_metadata"@, JsonView::Object(decision.metadata.view())),
        ("latency_ms"@, JsonView::Unsigned(latency_ms)),
        ("observe_only"@, JsonView::Bool(observe_only)),
        ("rollout_mode"@, JsonView::Text(mode.label_text())),
    ]
}

/// A decision came.
pub open spec fn decision_mark(
    mode: RoutingMode,
    request: RoutingRequest,
    decision: RoutingDecision,
    attempt: u32,
    observe_only: bool,
    latency_ms: u64,
) -> MarkView {
    MarkView {
        name: "switchyard.routing.decision"@,
        data: object_of(decision_members(mode, request, decision, attempt, observe_only, latency_ms)),
        metadata: identity_json(request.identity),
    }
}

/// A decision came.
pub fn mark_decision(
    mode: RoutingMode,
    request: &RoutingRequest,
    decision: &RoutingDecision,
    attempt: u32,
    observe_only: bool,
    latency_ms: u64,
) -> (r: Mark)
    ensures
        r.view() == decision_mark(mode, *request, *decision, attempt, observe_only, latency_ms),
{
    let pairs: Vec<(&str, Json)> = vec![
        ("decision_id", Json::Text(decision.decision_id.clone())),
        ("profile_id", Json::Text(request.decision_profile.profile_id.clone())),
        ("router", Json::Text(decision.router.name.clone())),
        ("router_version", Json::Text(decision.router.version.clone())),
        ("routing_attempt", Json::Unsigned(attempt as u64)),
        ("backend_id", Json::Text(decision.route.backend_id.clone())),
        ("selected_tier", Json::Text(decision.route.tier.clone())),
        ("selected_model", Json::Text(decision.route.target_model.clone())),
        ("target_protocol_profile", Json::Text(decision.route.target_protocol_profile.clone())),
        ("target_endpoint", Json::Text(decision.route.target_endpoint.clone())),
        ("confidence", decision.confidence.clone()),
        ("reason_code", opt_json(&decision.reason_code)),
        ("reason_summary", opt_json(&decision.reason_summary)),
        ("router_metadata", Json::Object(decision.metadata.clone())),
        ("latency_ms", Json::Unsigned(latency_ms)),
        ("observe_only", Json::Bool(observe_only)),
        ("rollout_mode", text_json(mode.label())),
    ];
    assert(pairs_view(pairs@) =~= decision_members(mode, *request, *decision, attempt, observe_only, latency_ms));
    Mark {
        name: "switchyard.routing.decision".to_owned(),
        data: json_object(pairs),
        metadata: identity_metadata(request),
    }
}

/// Another attempt follows.
pub open spec fn retry_mark(
    mode: RoutingMode,
    request: RoutingRequest,
    decision: RoutingDecision,
    attempt: u32,
    reason: Seq<char>,
) -> MarkView {
    MarkView {
        name: "switchyard.routing.retry"@,
        data: object_of(
            seq![
                ("routing_attempt"@, number(attempt)),
                ("previous_route"@, JsonView::Text(decision.route.backend_id@)),
                ("retry_reason"@, JsonView::Text(reason)),
                ("rollout_mode"@, JsonView::Text(mode.label_text())),
            ],
        ),
        metadata: identity_json(request.identity),
    }
}

/// Another attempt follows.
pub fn mark_retry(
    mode: RoutingMode,
    request: &RoutingRequest,
    decision: &RoutingDecision,
    attempt: u32,
    reason: &str,
) -> (r: Mark)
    ensures
        r.view() == retry_mark(mode, *request, *decision, attempt, reason@),
{
    let pairs: Vec<(&str, Json)> = vec![
        ("routing_attempt", Json::Unsigned(attempt as u64)),
        ("previous_route", Json::Text(decision.route.backend_id.clone())),
        ("retry_reason", text_json(reason)),
        ("rollout_mode", text_json(mode.label())),
    ];
    assert(pairs_view(pairs@) =~= seq![
        ("routing_attempt"@, number(attempt)),
        ("previous_route"@, JsonView::Text(decision.route.backend_id@)),
        ("retry_reason"@, JsonView::Text(reason@)),
        ("rollout_mode"@, JsonView::Text(mode.label_text())),
    ]);
    Mark {
        name: "switchyard.routing.retry".to_owned(),
        data: json_object(pairs),
        metadata: identity_metadata(request),
    }
}

/// Something failed on the way.
pub open spec fn error_mark(
    mode: RoutingMode,
    request: Option<RoutingRequest>,
    attempt: u32,
    class: Seq<char>,
    error: Seq<char>,
) -> MarkView {
    MarkView {
        name: "switchyard.routing.error"@,
        data: object_of(
            seq![
                ("routing_attempt"@, number(attempt)),
                ("error_class"@, JsonView::Text(class)),
                ("error"@, JsonView::Text(error)),
                ("rollout_mode"@, JsonView::Text(mode.label_text())),
            ],
        ),
        metadata: match request {
            Some(r) => identity_json(r.identity),
            None => JsonView::Object(Members::empty()),
        },
    }
}

/// Something failed on the way.
pub fn mark_error(mode: RoutingMode, request: Option<&RoutingRequest>, attempt: u32, class: &str, error: &str) -> (r: Mark)
    ensures
        r.view() == error_mark(
            mode,
            match request {
                Some(q) => Some(*q),
                None => None,
            },
            attempt,
            class@,
            error@,
        ),
{
    let pairs: Vec<(&str, Json)> = vec![
        ("routing_attempt", Json::Unsigned(attempt as u64)),
        ("error_class", text_json(class)),
        ("error", text_json(error)),
        ("rollout_mode", text_json(mode.label())),
    ];
    assert(pairs_view(pairs@) =~= seq![
        ("routing_attempt"@, number(attempt)),
        ("error_class"@, JsonView::Text(class@)),
        ("error"@, JsonView::Text(error@)),
        ("rollout_mode"@, JsonView::Text(mode.label_text())),
    ]);
    Mark {
        name: "switchyard.routing.error".to_owned(),
        data: json_object(pairs),
        metadata: match request {
            Some(q) => identity_metadata(q),
            None => Json::Object(JsonObject::new()),
        },
    }
}

/// The trusted target serves the call.
pub open spec fn fallback_mark(
    config: SwitchyardConfig,
    inbound: WireProtocol,
    reason: Seq<char>,
    headers: Members,
) -> MarkView {
    MarkView {
        name: "switchyard.routing.fallback"@,
        data: object_of(
            seq![
                ("fallback_reason"@, JsonView::Text(reason)),
                ("fallback_route"@, JsonView::Text(config.default_targets.target_id(inbound))),
                ("inbound_profile"@, JsonView::Text(inbound.label_text())),
                ("rollout_mode"@, JsonView::Text(config.mode.label_text())),
            ],
        ),
        metadata: call_identity_json(headers),
    }
}

/// The trusted target serves the call.
pub fn mark_fallback(config: &SwitchyardConfig, inbound: WireProtocol, reason: &str, request: &LlmRequest) -> (r: Mark)
    ensures
        r.view() == fallback_mark(*config, inbound, reason@, request.headers.view()),
{
    let pairs: Vec<(&str, Json)> = vec![
        ("fallback_reason", text_json(reason)),
        ("fallback_route", text_json(config.default_targets.target(inbound))),
        ("inbound_profile", text_json(inbound.label())),
        ("rollout_mode", text_json(config.mode.label())),
    ];
    assert(pairs_view(pairs@) =~= seq![
        ("fallback_reason"@, JsonView::Text(reason@)),
        ("fallback_route"@, JsonView::Text(config.default_targets.target_id(inbound))),
        ("inbound_profile"@, JsonView::Text(inbound.label_text())),
        ("rollout_mode"@, JsonView::Text(config.mode.label_text())),
    ]);
    Mark {
        name: "switchyard.routing.fallback".to_owned(),
        data: json_object(pairs),
        metadata: identity_metadata_from_request(request),
    }
}

/// The call failed for good.
pub open spec fn terminal_mark(mode: RoutingMode, error: FlowError, phase: Seq<char>, metadata: JsonView) -> MarkView {
    MarkView {
        name: "switchyard.routing.terminal_error"@,
        data: object_of(
            seq![
                ("error_class"@, JsonView::Text(error.class_text())),
                ("error"@, JsonView::Text(error.summary_text())),
                ("phase"@, JsonView::Text(phase)),
                ("rollout_mode"@, JsonView::Text(mode.label_text())),
            ],
        ),
        metadata,
    }
}

/// The call failed for good.
pub fn mark_terminal_error(mode: RoutingMode, error: &FlowError, phase: &str, metadata: Json) -> (r: Mark)
    ensures
        r.view() == terminal_mark(mode, *error, phase@, metadata@),
{
    let pairs: Vec<(&str, Json)> = vec![
        ("error_class", text_json(provider_error_class(error))),
        ("error", Json::Text(provider_error_summary(error))),
        ("phase", text_json(phase)),
        ("rollout_mode", text_json(mode.label())),
    ];
    assert(pairs_view(pairs@) =~= seq![
        ("error_class"@, JsonView::Text(error.class_text())),
        ("error"@, JsonView::Text(error.summary_text())),
        ("phase"@, JsonView::Text(phase@)),
        ("rollout_mode"@, JsonView::Text(mode.label_text())),
    ]);
    Mark { name: "switchyard.routing.terminal_error".to_owned(), data: json_object(pairs), metadata }
}

} // verus!
