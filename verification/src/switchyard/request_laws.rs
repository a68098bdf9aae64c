//! What is asked of the decision service, and what becomes of what it decides.

use crate::json::{
    an_object_holds_no_more, an_object_tells_its_pairs, keys_differ, object_of, JsonView, Members,
};
use crate::ordered::{lookup, lookup_inserted, sorted};
use crate::switchyard::config::{
    ContextMode, RequestMaterialization, RoutingMode, SwitchyardConfig, WireProtocol,
};
use crate::switchyard::contract::{RequestIdentity, RoutingDecision, RoutingRequest, RoutingTarget};
use crate::switchyard::decision::{
    baseline_marks, binding_error, contribution_is, contribution_members, identity_is, material, max_attempts,
    reply_error, request_error, request_is, DecisionReply, OptimizationKind, RequestParts, Role, RoutingContribution,
};
use crate::switchyard::laws::an_error_mark_tells_the_error;
use crate::switchyard::request::{
    applied, call_protocol, header_text, joined_url, labelled_protocol, routed_call, routed_headers, Translated,
};
use crate::text::{begins, blank, debug_text, ends, opt_text, trim, trim_end_char};
use vstd::prelude::*;
use vstd::string::*;

verus! {

proof fn part_keys_differ()
    ensures
        "body"@ != "annotated_request"@,
        "body"@ != "latest_user_prompt"@,
        "annotated_request"@ != "latest_user_prompt"@,
{
    reveal_strlit("body");
    reveal_strlit("annotated_request");
    reveal_strlit("latest_user_prompt");
    assert("body"@.len() == 4);
    assert("annotated_request"@.len() == 17);
    assert("latest_user_prompt"@.len() == 18);
}

/// A decision request carries as much of the call as the profile asks for: nothing; the body as it came; that and the
/// call annotated; the last message of the user, as a body and as text; or the last messages, as a body and annotated.
pub proof fn a_request_carries_what_its_profile_asks_for(
    materialization: RequestMaterialization,
    content: JsonView,
    parts: RequestParts,
)
    ensures
        ({
            let carried = material(materialization, content, parts);
            match materialization {
                RequestMaterialization::Nothing => carried == Ok::<Option<JsonView>, Seq<char>>(None),
                RequestMaterialization::SummaryOnly => carried == Ok::<Option<JsonView>, Seq<char>>(None),
                RequestMaterialization::FullBody => {
                    &&& carried is Ok
                    &&& carried->Ok_0 is Some
                    &&& carried->Ok_0->Some_0.get("body"@) == Some(content)
                    &&& carried->Ok_0->Some_0.get("annotated_request"@) is None
                    &&& carried->Ok_0->Some_0.get("latest_user_prompt"@) is None
                },
                RequestMaterialization::AnnotatedRequest => {
                    &&& carried is Ok
                    &&& carried->Ok_0 is Some
                    &&& carried->Ok_0->Some_0.get("body"@) == Some(content)
                    &&& carried->Ok_0->Some_0.get("annotated_request"@) == Some(parts.annotated@)
                    &&& carried->Ok_0->Some_0.get("latest_user_prompt"@) is None
                },
                RequestMaterialization::LatestUserPrompt => {
                    &&& carried is Ok <==> parts.latest_user_prompt is Some && parts.latest_body is Ok
                    &&& carried is Ok ==> {
                        &&& carried->Ok_0 is Some
                        &&& carried->Ok_0->Some_0.get("body"@) == Some(parts.latest_body->Ok_0@)
                        &&& carried->Ok_0->Some_0.get("latest_user_prompt"@) == Some(
                            JsonView::Text(parts.latest_user_prompt->Some_0@),
                        )
                        &&& carried->Ok_0->Some_0.get("annotated_request"@) is None
                    }
                    &&& parts.latest_user_prompt is None ==> carried == Err::<Option<JsonView>, Seq<char>>(
                        "latest_user_prompt requires a user message"@,
                    )
                },
                RequestMaterialization::RecentMessageWindow => {
                    &&& carried is Ok <==> parts.window_body is Ok
                    &&& carried is Ok ==> {
                        &&& carried->Ok_0 is Some
                        &&& carried->Ok_0->Some_0.get("body"@) == Some(parts.window_body->Ok_0@)
                        &&& carried->Ok_0->Some_0.get("annotated_request"@) == Some(parts.window@)
                        &&& carried->Ok_0->Some_0.get("latest_user_prompt"@) is None
                    }
                },
            }
        }),
{
    part_keys_differ();
    let one = seq![("body"@, content)];
    assert(keys_differ(one));
    an_object_tells_its_pairs(one);
    assert(one[0].0 == "body"@);
    an_object_holds_no_more(one, "annotated_request"@);
    an_object_holds_no_more(one, "latest_user_prompt"@);
    two_parts("annotated_request"@, content, parts.annotated@, "latest_user_prompt"@);
    if let Ok(body) = parts.window_body {
        two_parts("annotated_request"@, body@, parts.window@, "latest_user_prompt"@);
    }
    if let Ok(body) = parts.latest_body {
        if let Some(prompt) = parts.latest_user_prompt {
            two_parts("latest_user_prompt"@, body@, JsonView::Text(prompt@), "annotated_request"@);
        }
    }
}

proof fn two_parts(key: Seq<char>, body: JsonView, value: JsonView, other: Seq<char>)
    requires
        key != "body"@,
        other != "body"@,
        other != key,
    ensures
        object_of(seq![("body"@, body), (key, value)]).get("body"@) == Some(body),
        object_of(seq![("body"@, body), (key, value)]).get(key) == Some(value),
        object_of(seq![("body"@, body), (key, value)]).get(other) is None,
{
    let pairs = seq![("body"@, body), (key, value)];
    assert(keys_differ(pairs));
    an_object_tells_its_pairs(pairs);
    assert(pairs[0].0 == "body"@ && pairs[1].0 == key);
    an_object_holds_no_more(pairs, other);
}

/// A header of a call is the text under its name, without white space at its ends; one that is no text, or is blank, is
/// none.
pub proof fn a_header_is_its_trimmed_text(headers: Members, name: Seq<char>)
    ensures
        lookup(headers, name) matches Some(JsonView::Text(s)) ==> header_text(headers, name) == (if blank(s) {
            None
        } else {
            Some(trim(s))
        }),
        lookup(headers, name) is None ==> header_text(headers, name) is None,
        lookup(headers, name) matches Some(value) ==> !(value is Text) ==> header_text(headers, name) is None,
        header_text(headers, name) matches Some(text) ==> text.len() > 0,
{
}

/// A decision request tells the call: the profile that decides, the protocol that the call came in and that its answer
/// is to have, the model that it asks for, how many tools it brings, whether the system speaks in it, which attempt
/// this is of how many, and the backend and the failure of the attempt before.
pub proof fn a_decision_request_tells_the_call(
    request: RoutingRequest,
    config: SwitchyardConfig,
    inbound: WireProtocol,
    content: JsonView,
    parts: RequestParts,
    attempt: u32,
    previous: Option<(String, String)>,
)
    requires
        request_is(request, config, inbound, content, parts, attempt, previous),
    ensures
        request.schema_version@ == "switchyard.routing_request.v1"@,
        request.decision_profile.profile_id@ == config.decision_profile_id@,
        request.decision_profile.request_materialization == config.request_materialization,
        request.protocol.inbound_profile@ == (match inbound {
            WireProtocol::OpenaiChat => "openai_chat"@,
            WireProtocol::OpenaiResponses => "openai_responses"@,
            WireProtocol::AnthropicMessages => "anthropic_messages"@,
        }),
        request.protocol.inbound_endpoint@ == (match inbound {
            WireProtocol::OpenaiChat => "/v1/chat/completions"@,
            WireProtocol::OpenaiResponses => "/v1/responses"@,
            WireProtocol::AnthropicMessages => "/v1/messages"@,
        }),
        request.protocol.desired_response_profile@ == request.protocol.inbound_profile@,
        content.get("model"@) matches Some(JsonView::Text(model)) ==> opt_text(
            request.request_summary.client_requested_model,
        ) == Some(model),
        !(content.get("model"@) is Some && content.get("model"@)->Some_0 is Text)
            ==> request.request_summary.client_requested_model is None,
        request.request_summary.prompt_token_estimate is None,
        content.get("tools"@) matches Some(JsonView::Array(tools)) ==> request.request_summary.tool_count_in_payload
            == Some(tools.len() as u64),
        !(content.get("tools"@) is Some && content.get("tools"@)->Some_0 is Array)
            ==> request.request_summary.tool_count_in_payload is None,
        request.request_summary.has_system_prompt is Some,
        request.request_summary.has_system_prompt->Some_0 <==> {
            ||| exists|i: int| 0 <= i < parts.instruction_roles@.len() && parts.instruction_roles@[i] == Role::System
            ||| exists|i: int| 0 <= i < parts.message_roles@.len() && parts.message_roles@[i] == Role::System
        },
        request.attempt.routing_attempt == attempt,
        config.max_retries < u32::MAX ==> request.attempt.max_routing_attempts == config.max_retries + 1,
        config.max_retries == u32::MAX ==> request.attempt.max_routing_attempts == u32::MAX,
        previous matches Some(before) ==> opt_text(request.attempt.previous_route) == Some(before.0@) && opt_text(
            request.attempt.retry_reason,
        ) == Some(before.1@),
        previous is None ==> request.attempt.previous_route is None && request.attempt.retry_reason is None,
        material(config.request_materialization, content, parts) == Ok::<Option<JsonView>, Seq<char>>(
            match request.current_request {
                Some(json) => Some(json@),
                None => None,
            },
        ),
{
}

/// A decision request tells whose call it is by the headers of the call, and each part by its own header. Only a
/// session or a request that no header names is made up, and the identity then counts as a made-up one.
pub proof fn a_decision_request_tells_whose_call_it_is(
    identity: RequestIdentity,
    headers: Members,
    made_session: Seq<char>,
    made_request: Seq<char>,
)
    requires
        identity_is(identity, headers, made_session, made_request),
    ensures
        header_text(headers, "x-nemo-relay-session-id"@) matches Some(id) ==> identity.session_id@ == id,
        header_text(headers, "x-nemo-relay-session-id"@) is None ==> identity.session_id@ == made_session,
        header_text(headers, "x-nemo-relay-request-id"@) matches Some(id) ==> identity.request_id@ == id,
        header_text(headers, "x-nemo-relay-request-id"@) is None ==> identity.request_id@ == made_request,
        opt_text(identity.turn_id) == header_text(headers, "x-nemo-relay-turn-id"@),
        opt_text(identity.parent_scope_id) == header_text(headers, "x-nemo-relay-parent-scope-id"@),
        opt_text(identity.root_scope_id) == header_text(headers, "x-nemo-relay-root-scope-id"@),
        opt_text(identity.owner_id) == header_text(headers, "x-nemo-relay-owner-id"@),
        header_text(headers, "x-nemo-relay-agent-kind"@) matches Some(kind) ==> identity.harness@ == kind,
        header_text(headers, "x-nemo-relay-agent-kind"@) is None ==> identity.harness@ == "unknown"@,
        header_text(headers, "x-nemo-relay-source"@) matches Some(source) ==> identity.source@ == source,
        header_text(headers, "x-nemo-relay-source"@) is None ==> identity.source@ == "nemo-relay"@,
        header_text(headers, "x-nemo-relay-identity-quality"@) matches Some(quality) ==> identity.quality@ == quality,
        header_text(headers, "x-nemo-relay-identity-quality"@) is None ==> identity.quality@ == (if header_text(
            headers,
            "x-nemo-relay-session-id"@,
        ) is Some && header_text(headers, "x-nemo-relay-request-id"@) is Some {
            "explicit"@
        } else {
            "synthetic"@
        }),
{
}

/// A decision can be asked for unless the profile needs an identity that the headers do not give, or the call cannot be
/// read, or the part of it that the profile asks for cannot be had.
pub proof fn a_decision_can_be_asked_for(
    config: SwitchyardConfig,
    headers: Members,
    content: JsonView,
    parts: Result<RequestParts, String>,
)
    ensures
        request_error(config, headers, content, parts) is None <==> {
            &&& config.context_mode == ContextMode::AtofRequired ==> header_text(headers, "x-nemo-relay-session-id"@)
                is Some && header_text(headers, "x-nemo-relay-request-id"@) is Some
            &&& parts is Ok
            &&& material(config.request_materialization, content, parts->Ok_0) is Ok
        },
        config.context_mode == ContextMode::AtofRequired && (header_text(headers, "x-nemo-relay-session-id"@) is None
            || header_text(headers, "x-nemo-relay-request-id"@) is None) ==> request_error(
            config,
            headers,
            content,
            parts,
        ) == Some("stable session and request identity are required for this profile"@),
{
}

/// A decision is taken only for a backend that is bound, and bound with the very model, protocol and endpoint that the
/// decision tells.
pub proof fn a_target_matches_its_binding(config: SwitchyardConfig, target: RoutingTarget)
    ensures
        binding_error(config, target) is None <==> {
            let binding = lookup(config.targets.view(), target.backend_id@);
            &&& binding is Some
            &&& binding->Some_0.model == target.target_model@
            &&& binding->Some_0.endpoint == target.target_endpoint@
            &&& target.target_protocol_profile@ == (match binding->Some_0.protocol {
                WireProtocol::OpenaiChat => "openai_chat"@,
                WireProtocol::OpenaiResponses => "openai_responses"@,
                WireProtocol::AnthropicMessages => "anthropic_messages"@,
            })
        },
        lookup(config.targets.view(), target.backend_id@) is None ==> binding_error(config, target) == Some(
            "unknown backend_id "@ + debug_text(target.backend_id@),
        ),
        lookup(config.targets.view(), target.backend_id@) is Some && binding_error(config, target) is Some
            ==> binding_error(config, target) == Some(
            "decision target "@ + debug_text(target.backend_id@) + " does not match its exact Relay binding"@,
        ),
{
}

/// A reply is accepted exactly where it is a decision of the known form for a backend that is bound as it says; every
/// other reply says what went wrong.
pub proof fn only_a_right_decision_is_accepted(config: SwitchyardConfig, reply: DecisionReply)
    ensures
        reply_error(config, reply) is None <==> {
            &&& reply is Decided
            &&& reply->Decided_0.schema_version@ == "switchyard.routing_decision.v1"@
            &&& binding_error(config, reply->Decided_0.route) is None
        },
        reply matches DecisionReply::Unsent(error) ==> reply_error(config, reply) == Some(
            "Decision API request failed: "@ + error@,
        ),
        reply matches DecisionReply::Refused { status, body } ==> reply_error(config, reply) == Some(
            "Decision API returned HTTP "@ + status@ + ": "@ + body@,
        ),
        reply matches DecisionReply::Unreadable(error) ==> reply_error(config, reply) == Some(
            "Decision API returned invalid JSON: "@ + error@,
        ),
{
}

proof fn contribution_keys_differ()
    ensures
        "decision_id"@ != "selected_backend_id"@,
        "decision_id"@ != "selected_tier"@,
        "decision_id"@ != "baseline_backend_id"@,
        "decision_id"@ != "baseline_tier"@,
        "decision_id"@ != "routing_attempt"@,
        "decision_id"@ != "rollout_mode"@,
        "decision_id"@ != "reason_code"@,
        "decision_id"@ != "reason_summary"@,
        "decision_id"@ != "router_metadata"@,
        "selected_backend_id"@ != "selected_tier"@,
        "selected_backend_id"@ != "baseline_backend_id"@,
        "selected_backend_id"@ != "baseline_tier"@,
        "selected_backend_id"@ != "routing_attempt"@,
        "selected_backend_id"@ != "rollout_mode"@,
        "selected_backend_id"@ != "reason_code"@,
        "selected_backend_id"@ != "reason_summary"@,
        "selected_backend_id"@ != "router_metadata"@,
        "selected_tier"@ != "baseline_backend_id"@,
        "selected_tier"@ != "baseline_tier"@,
        "selected_tier"@ != "routing_attempt"@,
        "selected_tier"@ != "rollout_mode"@,
        "selected_tier"@ != "reason_code"@,
        "selected_tier"@ != "reason_summary"@,
        "selected_tier"@ != "router_metadata"@,
        "baseline_backend_id"@ != "baseline_tier"@,
        "baseline_backend_id"@ != "routing_attempt"@,
        "baseline_backend_id"@ != "rollout_mode"@,
        "baseline_backend_id"@ != "reason_code"@,
        "baseline_backend_id"@ != "reason_summary"@,
        "baseline_backend_id"@ != "router_metadata"@,
        "baseline_tier"@ != "routing_attempt"@,
        "baseline_tier"@ != "rollout_mode"@,
        "baseline_tier"@ != "reason_code"@,
        "baseline_tier"@ != "reason_summary"@,
        "baseline_tier"@ != "router_metadata"@,
        "routing_attempt"@ != "rollout_mode"@,
        "routing_attempt"@ != "reason_code"@,
        "routing_attempt"@ != "reason_summary"@,
        "routing_attempt"@ != "router_metadata"@,
        "rollout_mode"@ != "reason_code"@,
        "rollout_mode"@ != "reason_summary"@,
        "rollout_mode"@ != "router_metadata"@,
        "reason_code"@ != "reason_summary"@,
        "reason_code"@ != "router_metadata"@,
        "reason_summary"@ != "router_metadata"@,
{
    reveal_strlit("decision_id");
    reveal_strlit("selected_backend_id");
    reveal_strlit("selected_tier");
    reveal_strlit("baseline_backend_id");
    reveal_strlit("baseline_tier");
    reveal_strlit("routing_attempt");
    reveal_strlit("rollout_mode");
    reveal_strlit("reason_code");
    reveal_strlit("reason_summary");
    reveal_strlit("router_metadata");
    assert("decision_id"@.len() == 11);
    assert("selected_backend_id"@.len() == 19);
    assert("selected_tier"@.len() == 13);
    assert("baseline_backend_id"@.len() == 19);
    assert("baseline_tier"@.len() == 13);
    assert("routing_attempt"@.len() == 15);
    assert("rollout_mode"@.len() == 12);
    assert("reason_code"@.len() == 11);
    assert("reason_summary"@.len() == 14);
    assert("router_metadata"@.len() == 15);
    assert("decision_id"@[0] != "reason_code"@[0]);
    assert("selected_backend_id"@[0] != "baseline_backend_id"@[0]);
    assert("selected_tier"@[0] != "baseline_tier"@[0]);
    assert("routing_attempt"@[4] != "router_metadata"@[4]);
}

/// What routing changed is recorded exactly where the decision names a baseline that is bound as it says. The record
/// tells the model that would have served the call and the one that does, which backends and tiers these are, for which
/// attempt and why, and whether the decision was applied.
pub proof fn a_contribution_tells_what_routing_changed(
    r: Option<RoutingContribution>,
    config: SwitchyardConfig,
    decision: RoutingDecision,
    attempt: u32,
    applied: bool,
)
    requires
        contribution_is(r, config, decision, attempt, applied),
    ensures
        r is Some <==> decision.baseline_route is Some && binding_error(config, decision.baseline_route->Some_0)
            is None,
        r matches Some(contribution) ==> {
            let baseline = decision.baseline_route->Some_0;
            let told = contribution.payload@;
            &&& contribution.source@ == "switchyard"@
            &&& contribution.kind == OptimizationKind::ModelRouting
            &&& contribution.applied == applied
            &&& contribution.baseline_model@ == baseline.target_model@
            &&& contribution.effective_model@ == decision.route.target_model@
            &&& contribution.payload_schema.name@ == "nvidia.switchyard.routing_optimization"@
            &&& contribution.payload_schema.version@ == "1"@
            &&& told.get("decision_id"@) == Some(JsonView::Text(decision.decision_id@))
            &&& told.get("selected_backend_id"@) == Some(JsonView::Text(decision.route.backend_id@))
            &&& told.get("selected_tier"@) == Some(JsonView::Text(decision.route.tier@))
            &&& told.get("baseline_backend_id"@) == Some(JsonView::Text(baseline.backend_id@))
            &&& told.get("baseline_tier"@) == Some(JsonView::Text(baseline.tier@))
            &&& told.get("routing_attempt"@) == Some(JsonView::Unsigned(attempt as u64))
            &&& told.get("rollout_mode"@) == Some(
                JsonView::Text(
                    match config.mode {
                        RoutingMode::Enforce => "enforce"@,
                        RoutingMode::ObserveOnly => "observe_only"@,
                    },
                ),
            )
            &&& told.get("reason_code"@) == Some(
                match decision.reason_code {
                    Some(code) => JsonView::Text(code@),
                    None => JsonView::Null,
                },
            )
            &&& told.get("reason_summary"@) == Some(
                match decision.reason_summary {
                    Some(summary) => JsonView::Text(summary@),
                    None => JsonView::Null,
                },
            )
            &&& told.get("router_metadata"@) == Some(JsonView::Object(decision.metadata.view()))
        },
{
    contribution_keys_differ();
    if r is Some {
        let pairs = contribution_members(config, decision, decision.baseline_route->Some_0, attempt);
        assert(pairs[0].0 == "decision_id"@);
        assert(pairs[1].0 == "selected_backend_id"@);
        assert(pairs[2].0 == "selected_tier"@);
        assert(pairs[3].0 == "baseline_backend_id"@);
        assert(pairs[4].0 == "baseline_tier"@);
        assert(pairs[5].0 == "routing_attempt"@);
        assert(pairs[6].0 == "rollout_mode"@);
        assert(pairs[7].0 == "reason_code"@);
        assert(pairs[8].0 == "reason_summary"@);
        assert(pairs[9].0 == "router_metadata"@);
        assert(keys_differ(pairs)) by {
            assert forall|i: int, j: int| 0 <= i < j < pairs.len() implies (#[trigger] pairs[i]).0 != (
            #[trigger] pairs[j]).0 by {}
        }
        an_object_tells_its_pairs(pairs);
    }
}

/// A baseline that is not bound as the decision says leaves one mark that tells so; any other leaves none.
pub proof fn a_wrong_baseline_is_marked(
    config: SwitchyardConfig,
    request: RoutingRequest,
    decision: RoutingDecision,
    attempt: u32,
)
    ensures
        ({
            let marks = baseline_marks(config, request, decision, attempt);
            let wrong = decision.baseline_route is Some && binding_error(config, decision.baseline_route->Some_0)
                is Some;
            &&& !wrong ==> marks.len() == 0
            &&& wrong ==> {
                &&& marks.len() == 1
                &&& marks[0].name == "switchyard.routing.error"@
                &&& marks[0].data.get("error_class"@) == Some(JsonView::Text("baseline_binding"@))
                &&& marks[0].data.get("error"@) == Some(
                    JsonView::Text(binding_error(config, decision.baseline_route->Some_0)->Some_0),
                )
                &&& marks[0].data.get("routing_attempt"@) == Some(JsonView::Unsigned(attempt as u64))
            }
        }),
{
    if let Some(baseline) = decision.baseline_route {
        if let Some(error) = binding_error(config, baseline) {
            an_error_mark_tells_the_error(config.mode, Some(request), attempt, "baseline_binding"@, error);
        }
    }
}

/// The call that goes to a target is the call itself where the target speaks its protocol, and else its translation;
/// either way the model is that of the target, and no other member of the body changes.
pub proof fn a_routed_call_changes_only_its_model(
    config: SwitchyardConfig,
    target_headers: Seq<(Seq<char>, Members)>,
    inbound: WireProtocol,
    headers: Members,
    content: JsonView,
    backend_id: Seq<char>,
    translated: Translated,
    key: Seq<char>,
)
    requires
        content matches JsonView::Object(members) ==> sorted(members),
        translated.encoded matches Ok(call) ==> (call.content@ matches JsonView::Object(members) ==> sorted(members)),
        routed_call(config, target_headers, inbound, headers, content, backend_id, translated) is Ok,
    ensures
        ({
            let routed = routed_call(config, target_headers, inbound, headers, content, backend_id, translated)->Ok_0;
            let target = lookup(config.targets.view(), backend_id);
            &&& target is Some
            &&& translated.decoded is Ok
            &&& routed.1.get("model"@) == Some(JsonView::Text(target->Some_0.model))
            &&& inbound == target->Some_0.protocol ==> {
                &&& key != "model"@ ==> routed.1.get(key) == content.get(key)
                &&& routed.0 == routed_headers(headers, lookup(target_headers, backend_id), target->Some_0)
            }
            &&& inbound != target->Some_0.protocol ==> {
                &&& translated.encoded is Ok
                &&& key != "model"@ ==> routed.1.get(key) == translated.encoded->Ok_0.content@.get(key)
                &&& routed.0 == routed_headers(
                    translated.encoded->Ok_0.headers.view(),
                    lookup(target_headers, backend_id),
                    target->Some_0,
                )
            }
        }),
{
    let target = lookup(config.targets.view(), backend_id)->Some_0;
    let body = if inbound == target.protocol {
        content
    } else {
        translated.encoded->Ok_0.content@
    };
    if let JsonView::Object(members) = body {
        lookup_inserted(members, "model"@, JsonView::Text(target.model), key);
        lookup_inserted(members, "model"@, JsonView::Text(target.model), "model"@);
    }
}

/// A call can go to a target exactly where the target is bound, the call can be read and, where the protocols differ,
/// translated, and what then goes out is an object. Otherwise the first of these that fails is told.
pub proof fn a_call_is_routed_where_it_can_be(
    config: SwitchyardConfig,
    target_headers: Seq<(Seq<char>, Members)>,
    inbound: WireProtocol,
    headers: Members,
    content: JsonView,
    backend_id: Seq<char>,
    translated: Translated,
)
    ensures
        ({
            let routed = routed_call(config, target_headers, inbound, headers, content, backend_id, translated);
            let target = lookup(config.targets.view(), backend_id);
            let same = target->Some_0.protocol == inbound;
            &&& routed is Ok <==> {
                &&& target is Some
                &&& translated.decoded is Ok
                &&& same ==> content is Object
                &&& !same ==> translated.encoded is Ok && translated.encoded->Ok_0.content@ is Object
            }
            &&& target is None ==> routed == Err::<(Members, JsonView), Seq<char>>(
                "unknown backend_id "@ + debug_text(backend_id),
            )
            &&& target is Some ==> (translated.decoded matches Err(error) ==> routed == Err::<
                (Members, JsonView),
                Seq<char>,
            >("request decode failed: "@ + error@))
            &&& target is Some && translated.decoded is Ok && !same ==> (translated.encoded matches Err(error)
                ==> routed == Err::<(Members, JsonView), Seq<char>>("request translation failed: "@ + error@))
        }),
{
}

/// The URL of a target is its base URL without slashes at its end and the endpoint behind it, whole, but where both have
/// a `/v1` there, which then stands once.
pub proof fn an_endpoint_follows_its_base_url(base_url: Seq<char>, endpoint: Seq<char>)
    ensures
        ({
            let base = trim_end_char(base_url, '/');
            &&& !(ends(base, "/v1"@) && begins(endpoint, "/v1/"@)) ==> joined_url(base_url, endpoint)
                == base + endpoint
            &&& ends(base, "/v1"@) && begins(endpoint, "/v1/"@) ==> joined_url(base_url, endpoint) == base.take(
                base.len() - 3,
            ) + endpoint
        }),
{
    let base = trim_end_char(base_url, '/');
    reveal_strlit("/v1");
    reveal_strlit("/v1/");
    if ends(base, "/v1"@) && begins(endpoint, "/v1/"@) {
        assert(endpoint.take(3) =~= endpoint.take(4).take(3));
        assert("/v1/"@.take(3) =~= "/v1"@);
        assert(base =~= base.take(base.len() - 3) + base.skip(base.len() - 3));
        assert(endpoint =~= endpoint.take(3) + endpoint.skip(3));
        assert(joined_url(base_url, endpoint) =~= base.take(base.len() - 3) + endpoint);
    }
}

proof fn protocol_names_differ()
    ensures
        "openai.chat_completions"@ != "openai_chat"@,
        "openai.chat_completions"@ != "openai_chat_completions"@,
        "openai.chat_completions"@ != "openai.responses"@,
        "openai.chat_completions"@ != "openai_responses"@,
        "openai.chat_completions"@ != "anthropic.messages"@,
        "openai.chat_completions"@ != "anthropic"@,
        "openai.chat_completions"@ != "anthropic_messages"@,
        "openai_chat"@ != "openai_chat_completions"@,
        "openai_chat"@ != "openai.responses"@,
        "openai_chat"@ != "openai_responses"@,
        "openai_chat"@ != "anthropic.messages"@,
        "openai_chat"@ != "anthropic"@,
        "openai_chat"@ != "anthropic_messages"@,
        "openai_chat_completions"@ != "openai.responses"@,
        "openai_chat_completions"@ != "openai_responses"@,
        "openai_chat_completions"@ != "anthropic.messages"@,
        "openai_chat_completions"@ != "anthropic"@,
        "openai_chat_completions"@ != "anthropic_messages"@,
        "openai.responses"@ != "openai_responses"@,
        "openai.responses"@ != "anthropic.messages"@,
        "openai.responses"@ != "anthropic"@,
        "openai.responses"@ != "anthropic_messages"@,
        "openai_responses"@ != "anthropic.messages"@,
        "openai_responses"@ != "anthropic"@,
        "openai_responses"@ != "anthropic_messages"@,
        "anthropic.messages"@ != "anthropic"@,
        "anthropic.messages"@ != "anthropic_messages"@,
        "anthropic"@ != "anthropic_messages"@,
{
    reveal_strlit("openai.chat_completions");
    reveal_strlit("openai_chat");
    reveal_strlit("openai_chat_completions");
    reveal_strlit("openai.responses");
    reveal_strlit("openai_responses");
    reveal_strlit("anthropic.messages");
    reveal_strlit("anthropic");
    reveal_strlit("anthropic_messages");
    assert("openai.chat_completions"@.len() == 23);
    assert("openai_chat"@.len() == 11);
    assert("openai_chat_completions"@.len() == 23);
    assert("openai.responses"@.len() == 16);
    assert("openai_responses"@.len() == 16);
    assert("anthropic.messages"@.len() == 18);
    assert("anthropic"@.len() == 9);
    assert("anthropic_messages"@.len() == 18);
    assert("openai.chat_completions"@[6] != "openai_chat_completions"@[6]);
    assert("openai.responses"@[6] != "openai_responses"@[6]);
    assert("anthropic.messages"@[9] != "anthropic_messages"@[9]);
}

/// A call that is named after a protocol is of that protocol, whatever its body holds.
pub proof fn a_name_tells_the_protocol(name: Seq<char>, content: JsonView)
    ensures
        name == "openai.chat_completions"@ || name == "openai_chat"@ || name == "openai_chat_completions"@
            ==> call_protocol(name, content) == Some(WireProtocol::OpenaiChat),
        name == "openai.responses"@ || name == "openai_responses"@ ==> call_protocol(name, content) == Some(
            WireProtocol::OpenaiResponses,
        ),
        name == "anthropic.messages"@ || name == "anthropic"@ || name == "anthropic_messages"@ ==> call_protocol(
            name,
            content,
        ) == Some(WireProtocol::AnthropicMessages),
{
    protocol_names_differ();
}

/// A call whose name tells no protocol is told by its body: one with an input is of the responses protocol, else one with
/// a system prompt of its own is of the messages protocol, else one with messages is a chat; any other is of none.
pub proof fn a_body_tells_the_protocol(name: Seq<char>, content: JsonView)
    requires
        name != "openai.chat_completions"@ && name != "openai_chat"@ && name != "openai_chat_completions"@,
        name != "openai.responses"@ && name != "openai_responses"@,
        name != "anthropic.messages"@ && name != "anthropic"@ && name != "anthropic_messages"@,
    ensures
        content.get("input"@) is Some ==> call_protocol(name, content) == Some(WireProtocol::OpenaiResponses),
        content.get("input"@) is None && content.get("system"@) is Some ==> call_protocol(name, content) == Some(
            WireProtocol::AnthropicMessages,
        ),
        content.get("input"@) is None && content.get("system"@) is None && content.get("messages"@) is Some
            ==> call_protocol(name, content) == Some(WireProtocol::OpenaiChat),
        content.get("input"@) is None && content.get("system"@) is None && content.get("messages"@) is None
            ==> call_protocol(name, content) is None,
{
}

/// A label of a decision tells its protocol with and without the version behind it.
pub proof fn a_label_tells_its_protocol(protocol: WireProtocol)
    ensures
        labelled_protocol(protocol.label_text()) == Some(protocol),
        labelled_protocol("openai_chat_completions.v1"@) == Some(WireProtocol::OpenaiChat),
        labelled_protocol("openai_responses.v1"@) == Some(WireProtocol::OpenaiResponses),
        labelled_protocol("anthropic_messages.v1"@) == Some(WireProtocol::AnthropicMessages),
{
    labels_differ();
}

proof fn labels_differ()
    ensures
        "openai_chat"@ != "openai_chat_completions"@,
        "openai_chat"@ != "openai_chat_completions.v1"@,
        "openai_chat"@ != "openai_responses"@,
        "openai_chat"@ != "openai_responses.v1"@,
        "openai_chat"@ != "anthropic_messages"@,
        "openai_chat"@ != "anthropic_messages.v1"@,
        "openai_chat_completions"@ != "openai_chat_completions.v1"@,
        "openai_chat_completions"@ != "openai_responses"@,
        "openai_chat_completions"@ != "openai_responses.v1"@,
        "openai_chat_completions"@ != "anthropic_messages"@,
        "openai_chat_completions"@ != "anthropic_messages.v1"@,
        "openai_chat_completions.v1"@ != "openai_responses"@,
        "openai_chat_completions.v1"@ != "openai_responses.v1"@,
        "openai_chat_completions.v1"@ != "anthropic_messages"@,
        "openai_chat_completions.v1"@ != "anthropic_messages.v1"@,
        "openai_responses"@ != "openai_responses.v1"@,
        "openai_responses"@ != "anthropic_messages"@,
        "openai_responses"@ != "anthropic_messages.v1"@,
        "openai_responses.v1"@ != "anthropic_messages"@,
        "openai_responses.v1"@ != "anthropic_messages.v1"@,
        "anthropic_messages"@ != "anthropic_messages.v1"@,
{
    reveal_strlit("openai_chat");
    reveal_strlit("openai_chat_completions");
    reveal_strlit("openai_chat_completions.v1");
    reveal_strlit("openai_responses");
    reveal_strlit("openai_responses.v1");
    reveal_strlit("anthropic_messages");
    reveal_strlit("anthropic_messages.v1");
    assert("openai_chat"@.len() == 11);
    assert("openai_chat_completions"@.len() == 23);
    assert("openai_chat_completions.v1"@.len() == 26);
    assert("openai_responses"@.len() == 16);
    assert("openai_responses.v1"@.len() == 19);
    assert("anthropic_messages"@.len() == 18);
    assert("anthropic_messages.v1"@.len() == 21);
}

/// There is one attempt more than there are retries, as far as attempts can be counted.
pub proof fn the_first_attempt_is_no_retry(config: SwitchyardConfig)
    ensures
        config.max_retries < u32::MAX ==> max_attempts(config) == config.max_retries + 1,
        max_attempts(config) >= 1,
{
}

} // verus!
