//! What holds of every routed call.

use crate::ids::uuid_text;
use crate::json::{an_object_tells_its_pairs, keys_differ, opt_text_json, JsonView, Members};
use crate::switchyard::call::{call_begins, call_follows, CallAction, CallEvent, CallState, CallStep, Decided,
    RoutedCall};
use crate::switchyard::config::{answers, RoutingMode, SwitchyardConfig, WireProtocol};
use crate::switchyard::contract::{RequestIdentity, RoutingDecision, RoutingRequest};
use crate::switchyard::decision::made_up;
use crate::switchyard::failure::{FlowError, UpstreamFailure, UpstreamFailureClass};
use crate::switchyard::marks::{
    call_identity_json, decision_mark, decision_members, error_mark, fallback_mark, identity_json, requested_mark,
    retry_mark, terminal_mark,
};
use crate::switchyard::request::{header_text, unknown_label};
use crate::switchyard::routing::{
    course, failure_step, AttemptEnd, Course, FallbackReason, FirstItem, Next, RoutingRun, Step,
};
use crate::switchyard::stream::{item_goes_on, item_handed_on, StreamItem, StreamOutput};
use crate::text::{debug_text, decimal, opt_text};
use vstd::prelude::*;
use vstd::string::*;

verus! {

proof fn identity_keys_differ()
    ensures
        "session_id"@ != "request_id"@,
        "session_id"@ != "turn_id"@,
        "session_id"@ != "owner_id"@,
        "request_id"@ != "turn_id"@,
        "request_id"@ != "owner_id"@,
        "turn_id"@ != "owner_id"@,
{
    reveal_strlit("session_id");
    reveal_strlit("request_id");
    reveal_strlit("turn_id");
    reveal_strlit("owner_id");
    assert("session_id"@.len() == 10);
    assert("request_id"@.len() == 10);
    assert("turn_id"@.len() == 7);
    assert("owner_id"@.len() == 8);
    assert("session_id"@[0] != "request_id"@[0]);
}

/// The metadata of a mark tells whose request it is: the session, the request, and the turn and owner where they
/// are known.
pub proof fn the_metadata_of_a_mark_tells_whose_request_it_is(identity: RequestIdentity)
    ensures
        identity_json(identity).get("session_id"@) == Some(JsonView::Text(identity.session_id@)),
        identity_json(identity).get("request_id"@) == Some(JsonView::Text(identity.request_id@)),
        identity_json(identity).get("turn_id"@) == Some(
            match identity.turn_id {
                Some(id) => JsonView::Text(id@),
                None => JsonView::Null,
            },
        ),
        identity_json(identity).get("owner_id"@) == Some(
            match identity.owner_id {
                Some(id) => JsonView::Text(id@),
                None => JsonView::Null,
            },
        ),
{
    identity_keys_differ();
    let pairs = seq![
        ("session_id"@, JsonView::Text(identity.session_id@)),
        ("request_id"@, JsonView::Text(identity.request_id@)),
        ("turn_id"@, opt_text_json(opt_text(identity.turn_id))),
        ("owner_id"@, opt_text_json(opt_text(identity.owner_id))),
    ];
    assert(keys_differ(pairs));
    an_object_tells_its_pairs(pairs);
    assert(pairs[0].0 == "session_id"@ && pairs[1].0 == "request_id"@ && pairs[2].0 == "turn_id"@ && pairs[3].0
        == "owner_id"@);
}

proof fn a_request_mark_tells_what_is_asked_keys()
    ensures
        "session_id"@ != "request_id"@,
        "session_id"@ != "routing_attempt"@,
        "session_id"@ != "profile_id"@,
        "session_id"@ != "rollout_mode"@,
        "request_id"@ != "routing_attempt"@,
        "request_id"@ != "profile_id"@,
        "request_id"@ != "rollout_mode"@,
        "routing_attempt"@ != "profile_id"@,
        "routing_attempt"@ != "rollout_mode"@,
        "profile_id"@ != "rollout_mode"@,
{
    reveal_strlit("session_id");
    reveal_strlit("request_id");
    reveal_strlit("routing_attempt");
    reveal_strlit("profile_id");
    reveal_strlit("rollout_mode");
    assert("session_id"@.len() == 10);
    assert("request_id"@.len() == 10);
    assert("routing_attempt"@.len() == 15);
    assert("profile_id"@.len() == 10);
    assert("rollout_mode"@.len() == 12);
    assert("session_id"@[0] != "request_id"@[0]);
    assert("session_id"@[0] != "profile_id"@[0]);
    assert("request_id"@[0] != "profile_id"@[0]);
}

/// The mark of a request for a decision tells the request: whose it is, which attempt, and the profile that decides.
pub proof fn a_request_mark_tells_what_is_asked(mode: RoutingMode, request: RoutingRequest)
    ensures
        ({
            let mark = requested_mark(mode, request);
            &&& mark.data.get("session_id"@) == Some(JsonView::Text(request.identity.session_id@))
            &&& mark.data.get("request_id"@) == Some(JsonView::Text(request.identity.request_id@))
            &&& mark.data.get("routing_attempt"@) == Some(JsonView::Unsigned(request.attempt.routing_attempt as u64))
            &&& mark.data.get("profile_id"@) == Some(JsonView::Text(request.decision_profile.profile_id@))
            &&& mark.data.get("rollout_mode"@) == Some(JsonView::Text((match mode {
                RoutingMode::Enforce => "enforce"@,
                RoutingMode::ObserveOnly => "observe_only"@,
            })))
            &&& mark.name == "switchyard.routing.requested"@
            &&& mark.metadata == identity_json(request.identity)
        }),
{
    a_request_mark_tells_what_is_asked_keys();
    let pairs = seq![
        ("session_id"@, JsonView::Text(request.identity.session_id@)),
        ("request_id"@, JsonView::Text(request.identity.request_id@)),
        ("routing_attempt"@, JsonView::Unsigned(request.attempt.routing_attempt as u64)),
        ("profile_id"@, JsonView::Text(request.decision_profile.profile_id@)),
        ("rollout_mode"@, JsonView::Text((match mode {
                RoutingMode::Enforce => "enforce"@,
                RoutingMode::ObserveOnly => "observe_only"@,
            }))),
    ];
    assert(keys_differ(pairs));
    an_object_tells_its_pairs(pairs);
    assert(pairs[0].0 == "session_id"@);
    assert(pairs[1].0 == "request_id"@);
    assert(pairs[2].0 == "routing_attempt"@);
    assert(pairs[3].0 == "profile_id"@);
    assert(pairs[4].0 == "rollout_mode"@);
}

proof fn a_decision_mark_tells_the_decision_keys()
    ensures
        "decision_id"@ != "profile_id"@,
        "decision_id"@ != "router"@,
        "decision_id"@ != "router_version"@,
        "decision_id"@ != "routing_attempt"@,
        "decision_id"@ != "backend_id"@,
        "decision_id"@ != "selected_tier"@,
        "decision_id"@ != "selected_model"@,
        "decision_id"@ != "target_protocol_profile"@,
        "decision_id"@ != "target_endpoint"@,
        "decision_id"@ != "confidence"@,
        "decision_id"@ != "reason_code"@,
        "decision_id"@ != "reason_summary"@,
        "decision_id"@ != "router_metadata"@,
        "decision_id"@ != "latency_ms"@,
        "decision_id"@ != "observe_only"@,
        "decision_id"@ != "rollout_mode"@,
        "profile_id"@ != "router"@,
        "profile_id"@ != "router_version"@,
        "profile_id"@ != "routing_attempt"@,
        "profile_id"@ != "backend_id"@,
        "profile_id"@ != "selected_tier"@,
        "profile_id"@ != "selected_model"@,
        "profile_id"@ != "target_protocol_profile"@,
        "profile_id"@ != "target_endpoint"@,
        "profile_id"@ != "confidence"@,
        "profile_id"@ != "reason_code"@,
        "profile_id"@ != "reason_summary"@,
        "profile_id"@ != "router_metadata"@,
        "profile_id"@ != "latency_ms"@,
        "profile_id"@ != "observe_only"@,
        "profile_id"@ != "rollout_mode"@,
        "router"@ != "router_version"@,
        "router"@ != "routing_attempt"@,
        "router"@ != "backend_id"@,
        "router"@ != "selected_tier"@,
        "router"@ != "selected_model"@,
        "router"@ != "target_protocol_profile"@,
        "router"@ != "target_endpoint"@,
        "router"@ != "confidence"@,
        "router"@ != "reason_code"@,
        "router"@ != "reason_summary"@,
        "router"@ != "router_metadata"@,
        "router"@ != "latency_ms"@,
        "router"@ != "observe_only"@,
        "router"@ != "rollout_mode"@,
        "router_version"@ != "routing_attempt"@,
        "router_version"@ != "backend_id"@,
        "router_version"@ != "selected_tier"@,
        "router_version"@ != "selected_model"@,
        "router_version"@ != "target_protocol_profile"@,
        "router_version"@ != "target_endpoint"@,
        "router_version"@ != "confidence"@,
        "router_version"@ != "reason_code"@,
        "router_version"@ != "reason_summary"@,
        "router_version"@ != "router_metadata"@,
        "router_version"@ != "latency_ms"@,
        "router_version"@ != "observe_only"@,
        "router_version"@ != "rollout_mode"@,
        "routing_attempt"@ != "backend_id"@,
        "routing_attempt"@ != "selected_tier"@,
        "routing_attempt"@ != "selected_model"@,
        "routing_attempt"@ != "target_protocol_profile"@,
        "routing_attempt"@ != "target_endpoint"@,
        "routing_attempt"@ != "confidence"@,
        "routing_attempt"@ != "reason_code"@,
        "routing_attempt"@ != "reason_summary"@,
        "routing_attempt"@ != "router_metadata"@,
        "routing_attempt"@ != "latency_ms"@,
        "routing_attempt"@ != "observe_only"@,
        "routing_attempt"@ != "rollout_mode"@,
        "backend_id"@ != "selected_tier"@,
        "backend_id"@ != "selected_model"@,
        "backend_id"@ != "target_protocol_profile"@,
        "backend_id"@ != "target_endpoint"@,
        "backend_id"@ != "confidence"@,
        "backend_id"@ != "reason_code"@,
        "backend_id"@ != "reason_summary"@,
        "backend_id"@ != "router_metadata"@,
        "backend_id"@ != "latency_ms"@,
        "backend_id"@ != "observe_only"@,
        "backend_id"@ != "rollout_mode"@,
        "selected_tier"@ != "selected_model"@,
        "selected_tier"@ != "target_protocol_profile"@,
        "selected_tier"@ != "target_endpoint"@,
        "selected_tier"@ != "confidence"@,
        "selected_tier"@ != "reason_code"@,
        "selected_tier"@ != "reason_summary"@,
        "selected_tier"@ != "router_metadata"@,
        "selected_tier"@ != "latency_ms"@,
        "selected_tier"@ != "observe_only"@,
        "selected_tier"@ != "rollout_mode"@,
        "selected_model"@ != "target_protocol_profile"@,
        "selected_model"@ != "target_endpoint"@,
        "selected_model"@ != "confidence"@,
        "selected_model"@ != "reason_code"@,
        "selected_model"@ != "reason_summary"@,
        "selected_model"@ != "router_metadata"@,
        "selected_model"@ != "latency_ms"@,
        "selected_model"@ != "observe_only"@,
        "selected_model"@ != "rollout_mode"@,
        "target_protocol_profile"@ != "target_endpoint"@,
        "target_protocol_profile"@ != "confidence"@,
        "target_protocol_profile"@ != "reason_code"@,
        "target_protocol_profile"@ != "reason_summary"@,
        "target_protocol_profile"@ != "router_metadata"@,
        "target_protocol_profile"@ != "latency_ms"@,
        "target_protocol_profile"@ != "observe_only"@,
        "target_protocol_profile"@ != "rollout_mode"@,
        "target_endpoint"@ != "confidence"@,
        "target_endpoint"@ != "reason_code"@,
        "target_endpoint"@ != "reason_summary"@,
        "target_endpoint"@ != "router_metadata"@,
        "target_endpoint"@ != "latency_ms"@,
        "target_endpoint"@ != "observe_only"@,
        "target_endpoint"@ != "rollout_mode"@,
        "confidence"@ != "reason_code"@,
        "confidence"@ != "reason_summary"@,
        "confidence"@ != "router_metadata"@,
        "confidence"@ != "latency_ms"@,
        "confidence"@ != "observe_only"@,
        "confidence"@ != "rollout_mode"@,
        "reason_code"@ != "reason_summary"@,
        "reason_code"@ != "router_metadata"@,
        "reason_code"@ != "latency_ms"@,
        "reason_code"@ != "observe_only"@,
        "reason_code"@ != "rollout_mode"@,
        "reason_summary"@ != "router_metadata"@,
        "reason_summary"@ != "latency_ms"@,
        "reason_summary"@ != "observe_only"@,
        "reason_summary"@ != "rollout_mode"@,
        "router_metadata"@ != "latency_ms"@,
        "router_metadata"@ != "observe_only"@,
        "router_metadata"@ != "rollout_mode"@,
        "latency_ms"@ != "observe_only"@,
        "latency_ms"@ != "rollout_mode"@,
        "observe_only"@ != "rollout_mode"@,
{
    reveal_strlit("decision_id");
    reveal_strlit("profile_id");
    reveal_strlit("router");
    reveal_strlit("router_version");
    reveal_strlit("routing_attempt");
    reveal_strlit("backend_id");
    reveal_strlit("selected_tier");
    reveal_strlit("selected_model");
    reveal_strlit("target_protocol_profile");
    reveal_strlit("target_endpoint");
    reveal_strlit("confidence");
    reveal_strlit("reason_code");
    reveal_strlit("reason_summary");
    reveal_strlit("router_metadata");
    reveal_strlit("latency_ms");
    reveal_strlit("observe_only");
    reveal_strlit("rollout_mode");
    assert("decision_id"@.len() == 11);
    assert("profile_id"@.len() == 10);
    assert("router"@.len() == 6);
    assert("router_version"@.len() == 14);
    assert("routing_attempt"@.len() == 15);
    assert("backend_id"@.len() == 10);
    assert("selected_tier"@.len() == 13);
    assert("selected_model"@.len() == 14);
    assert("target_protocol_profile"@.len() == 23);
    assert("target_endpoint"@.len() == 15);
    assert("confidence"@.len() == 10);
    assert("reason_code"@.len() == 11);
    assert("reason_summary"@.len() == 14);
    assert("router_metadata"@.len() == 15);
    assert("latency_ms"@.len() == 10);
    assert("observe_only"@.len() == 12);
    assert("rollout_mode"@.len() == 12);
    assert("decision_id"@[0] != "reason_code"@[0]);
    assert("profile_id"@[0] != "backend_id"@[0]);
    assert("profile_id"@[0] != "confidence"@[0]);
    assert("profile_id"@[0] != "latency_ms"@[0]);
    assert("router_version"@[0] != "selected_model"@[0]);
    assert("router_version"@[1] != "reason_summary"@[1]);
    assert("routing_attempt"@[0] != "target_endpoint"@[0]);
    assert("routing_attempt"@[4] != "router_metadata"@[4]);
    assert("backend_id"@[0] != "confidence"@[0]);
    assert("backend_id"@[0] != "latency_ms"@[0]);
    assert("selected_model"@[0] != "reason_summary"@[0]);
    assert("target_endpoint"@[0] != "router_metadata"@[0]);
    assert("confidence"@[0] != "latency_ms"@[0]);
    assert("observe_only"@[0] != "rollout_mode"@[0]);
}

/// The mark of a decision tells the decision: who decided, for which attempt, what was chosen and why, how long it
/// took and whether it was only observed.
pub proof fn a_decision_mark_tells_the_decision(
    mode: RoutingMode,
    request: RoutingRequest,
    decision: RoutingDecision,
    attempt: u32,
    observe_only: bool,
    latency_ms: u64,
)
    ensures
        ({
            let mark = decision_mark(mode, request, decision, attempt, observe_only, latency_ms);
            &&& mark.data.get("decision_id"@) == Some(JsonView::Text(decision.decision_id@))
            &&& mark.data.get("profile_id"@) == Some(JsonView::Text(request.decision_profile.profile_id@))
            &&& mark.data.get("router"@) == Some(JsonView::Text(decision.router.name@))
            &&& mark.data.get("router_version"@) == Some(JsonView::Text(decision.router.version@))
            &&& mark.data.get("routing_attempt"@) == Some(JsonView::Unsigned(attempt as u64))
            &&& mark.data.get("backend_id"@) == Some(JsonView::Text(decision.route.backend_id@))
            &&& mark.data.get("selected_tier"@) == Some(JsonView::Text(decision.route.tier@))
            &&& mark.data.get("selected_model"@) == Some(JsonView::Text(decision.route.target_model@))
            &&& mark.data.get("target_protocol_profile"@)
                == Some(JsonView::Text(decision.route.target_protocol_profile@))
            &&& mark.data.get("target_endpoint"@) == Some(JsonView::Text(decision.route.target_endpoint@))
            &&& mark.data.get("confidence"@) == Some(decision.confidence@)
            &&& mark.data.get("reason_code"@) == Some(match decision.reason_code {
                Some(text) => JsonView::Text(text@),
                None => JsonView::Null,
            })
            &&& mark.data.get("reason_summary"@) == Some(match decision.reason_summary {
                Some(text) => JsonView::Text(text@),
                None => JsonView::Null,
            })
            &&& mark.data.get("router_metadata"@) == Some(JsonView::Object(decision.metadata.view()))
            &&& mark.data.get("latency_ms"@) == Some(JsonView::Unsigned(latency_ms))
            &&& mark.data.get("observe_only"@) == Some(JsonView::Bool(observe_only))
            &&& mark.data.get("rollout_mode"@) == Some(JsonView::Text((match mode {
                RoutingMode::Enforce => "enforce"@,
                RoutingMode::ObserveOnly => "observe_only"@,
            })))
            &&& mark.name == "switchyard.routing.decision"@
            &&& mark.metadata == identity_json(request.identity)
        }),
{
    a_decision_mark_tells_the_decision_keys();
    let pairs = decision_members(mode, request, decision, attempt, observe_only, latency_ms);
    assert(pairs[0].0 == "decision_id"@);
    assert(pairs[1].0 == "profile_id"@);
    assert(pairs[2].0 == "router"@);
    assert(pairs[3].0 == "router_version"@);
    assert(pairs[4].0 == "routing_attempt"@);
    assert(pairs[5].0 == "backend_id"@);
    assert(pairs[6].0 == "selected_tier"@);
    assert(pairs[7].0 == "selected_model"@);
    assert(pairs[8].0 == "target_protocol_profile"@);
    assert(pairs[9].0 == "target_endpoint"@);
    assert(pairs[10].0 == "confidence"@);
    assert(pairs[11].0 == "reason_code"@);
    assert(pairs[12].0 == "reason_summary"@);
    assert(pairs[13].0 == "router_metadata"@);
    assert(pairs[14].0 == "latency_ms"@);
    assert(pairs[15].0 == "observe_only"@);
    assert(pairs[16].0 == "rollout_mode"@);
    assert(keys_differ(pairs)) by {
        assert forall|i: int, j: int| 0 <= i < j < pairs.len()
            implies (#[trigger] pairs[i]).0 != (#[trigger] pairs[j]).0 by {}
    }
    an_object_tells_its_pairs(pairs);
}

proof fn a_retry_mark_tells_what_failed_keys()
    ensures
        "routing_attempt"@ != "previous_route"@,
        "routing_attempt"@ != "retry_reason"@,
        "routing_attempt"@ != "rollout_mode"@,
        "previous_route"@ != "retry_reason"@,
        "previous_route"@ != "rollout_mode"@,
        "retry_reason"@ != "rollout_mode"@,
{
    reveal_strlit("routing_attempt");
    reveal_strlit("previous_route");
    reveal_strlit("retry_reason");
    reveal_strlit("rollout_mode");
    assert("routing_attempt"@.len() == 15);
    assert("previous_route"@.len() == 14);
    assert("retry_reason"@.len() == 12);
    assert("rollout_mode"@.len() == 12);
    assert("retry_reason"@[1] != "rollout_mode"@[1]);
}

/// The mark of a retry tells the attempt that failed, the backend that it went to and why another one follows.
pub proof fn a_retry_mark_tells_what_failed(
    mode: RoutingMode,
    request: RoutingRequest,
    decision: RoutingDecision,
    attempt: u32,
    reason: Seq<char>,
)
    ensures
        ({
            let mark = retry_mark(mode, request, decision, attempt, reason);
            &&& mark.data.get("routing_attempt"@) == Some(JsonView::Unsigned(attempt as u64))
            &&& mark.data.get("previous_route"@) == Some(JsonView::Text(decision.route.backend_id@))
            &&& mark.data.get("retry_reason"@) == Some(JsonView::Text(reason))
            &&& mark.data.get("rollout_mode"@) == Some(JsonView::Text((match mode {
                RoutingMode::Enforce => "enforce"@,
                RoutingMode::ObserveOnly => "observe_only"@,
            })))
            &&& mark.name == "switchyard.routing.retry"@
            &&& mark.metadata == identity_json(request.identity)
        }),
{
    a_retry_mark_tells_what_failed_keys();
    let pairs = seq![
        ("routing_attempt"@, JsonView::Unsigned(attempt as u64)),
        ("previous_route"@, JsonView::Text(decision.route.backend_id@)),
        ("retry_reason"@, JsonView::Text(reason)),
        ("rollout_mode"@, JsonView::Text((match mode {
                RoutingMode::Enforce => "enforce"@,
                RoutingMode::ObserveOnly => "observe_only"@,
            }))),
    ];
    assert(keys_differ(pairs));
    an_object_tells_its_pairs(pairs);
    assert(pairs[0].0 == "routing_attempt"@);
    assert(pairs[1].0 == "previous_route"@);
    assert(pairs[2].0 == "retry_reason"@);
    assert(pairs[3].0 == "rollout_mode"@);
}

proof fn an_error_mark_tells_the_error_keys()
    ensures
        "routing_attempt"@ != "error_class"@,
        "routing_attempt"@ != "error"@,
        "routing_attempt"@ != "rollout_mode"@,
        "error_class"@ != "error"@,
        "error_class"@ != "rollout_mode"@,
        "error"@ != "rollout_mode"@,
{
    reveal_strlit("routing_attempt");
    reveal_strlit("error_class");
    reveal_strlit("error");
    reveal_strlit("rollout_mode");
    assert("routing_attempt"@.len() == 15);
    assert("error_class"@.len() == 11);
    assert("error"@.len() == 5);
    assert("rollout_mode"@.len() == 12);
}

/// The mark of an error tells the attempt, where the error was met and the error in words, and whose request it
/// was where there was one.
pub proof fn an_error_mark_tells_the_error(
    mode: RoutingMode,
    request: Option<RoutingRequest>,
    attempt: u32,
    class: Seq<char>,
    error: Seq<char>,
)
    ensures
        ({
            let mark = error_mark(mode, request, attempt, class, error);
            &&& mark.data.get("routing_attempt"@) == Some(JsonView::Unsigned(attempt as u64))
            &&& mark.data.get("error_class"@) == Some(JsonView::Text(class))
            &&& mark.data.get("error"@) == Some(JsonView::Text(error))
            &&& mark.data.get("rollout_mode"@) == Some(JsonView::Text((match mode {
                RoutingMode::Enforce => "enforce"@,
                RoutingMode::ObserveOnly => "observe_only"@,
            })))
            &&& mark.name == "switchyard.routing.error"@
            &&& request matches Some(request) ==> mark.metadata == identity_json(request.identity)
            &&& request is None ==> mark.metadata == JsonView::Object(Members::empty())
        }),
{
    an_error_mark_tells_the_error_keys();
    let pairs = seq![
        ("routing_attempt"@, JsonView::Unsigned(attempt as u64)),
        ("error_class"@, JsonView::Text(class)),
        ("error"@, JsonView::Text(error)),
        ("rollout_mode"@, JsonView::Text((match mode {
                RoutingMode::Enforce => "enforce"@,
                RoutingMode::ObserveOnly => "observe_only"@,
            }))),
    ];
    assert(keys_differ(pairs));
    an_object_tells_its_pairs(pairs);
    assert(pairs[0].0 == "routing_attempt"@);
    assert(pairs[1].0 == "error_class"@);
    assert(pairs[2].0 == "error"@);
    assert(pairs[3].0 == "rollout_mode"@);
}

proof fn a_fallback_mark_tells_the_trusted_target_keys()
    ensures
        "fallback_reason"@ != "fallback_route"@,
        "fallback_reason"@ != "inbound_profile"@,
        "fallback_reason"@ != "rollout_mode"@,
        "fallback_route"@ != "inbound_profile"@,
        "fallback_route"@ != "rollout_mode"@,
        "inbound_profile"@ != "rollout_mode"@,
{
    reveal_strlit("fallback_reason");
    reveal_strlit("fallback_route");
    reveal_strlit("inbound_profile");
    reveal_strlit("rollout_mode");
    assert("fallback_reason"@.len() == 15);
    assert("fallback_route"@.len() == 14);
    assert("inbound_profile"@.len() == 15);
    assert("rollout_mode"@.len() == 12);
    assert("fallback_reason"@[0] != "inbound_profile"@[0]);
}

/// The mark of a fallback tells why the trusted target serves the call, which target that is for the protocol of the
/// call, and that protocol.
pub proof fn a_fallback_mark_tells_the_trusted_target(
    config: SwitchyardConfig,
    inbound: WireProtocol,
    reason: Seq<char>,
    headers: Members,
)
    ensures
        ({
            let mark = fallback_mark(config, inbound, reason, headers);
            &&& mark.data.get("fallback_reason"@) == Some(JsonView::Text(reason))
            &&& mark.data.get("fallback_route"@) == Some(JsonView::Text(
                (match inbound {
                    WireProtocol::OpenaiChat => config.default_targets.openai_chat@,
                    WireProtocol::OpenaiResponses => config.default_targets.openai_responses@,
                    WireProtocol::AnthropicMessages => config.default_targets.anthropic_messages@,
                }),
            ))
            &&& mark.data.get("inbound_profile"@) == Some(JsonView::Text(
                (match inbound {
                    WireProtocol::OpenaiChat => "openai_chat"@,
                    WireProtocol::OpenaiResponses => "openai_responses"@,
                    WireProtocol::AnthropicMessages => "anthropic_messages"@,
                }),
            ))
            &&& mark.data.get("rollout_mode"@) == Some(JsonView::Text((match config.mode {
                RoutingMode::Enforce => "enforce"@,
                RoutingMode::ObserveOnly => "observe_only"@,
            })))
            &&& mark.name == "switchyard.routing.fallback"@
            &&& mark.metadata == call_identity_json(headers)
        }),
{
    a_fallback_mark_tells_the_trusted_target_keys();
    let pairs = seq![
        ("fallback_reason"@, JsonView::Text(reason)),
        ("fallback_route"@, JsonView::Text(
                (match inbound {
                    WireProtocol::OpenaiChat => config.default_targets.openai_chat@,
                    WireProtocol::OpenaiResponses => config.default_targets.openai_responses@,
                    WireProtocol::AnthropicMessages => config.default_targets.anthropic_messages@,
                }),
            )),
        ("inbound_profile"@, JsonView::Text(
                (match inbound {
                    WireProtocol::OpenaiChat => "openai_chat"@,
                    WireProtocol::OpenaiResponses => "openai_responses"@,
                    WireProtocol::AnthropicMessages => "anthropic_messages"@,
                }),
            )),
        ("rollout_mode"@, JsonView::Text((match config.mode {
                RoutingMode::Enforce => "enforce"@,
                RoutingMode::ObserveOnly => "observe_only"@,
            }))),
    ];
    assert(keys_differ(pairs));
    an_object_tells_its_pairs(pairs);
    assert(pairs[0].0 == "fallback_reason"@);
    assert(pairs[1].0 == "fallback_route"@);
    assert(pairs[2].0 == "inbound_profile"@);
    assert(pairs[3].0 == "rollout_mode"@);
}

proof fn a_terminal_mark_tells_the_failure_keys()
    ensures
        "error_class"@ != "error"@,
        "error_class"@ != "phase"@,
        "error_class"@ != "rollout_mode"@,
        "error"@ != "phase"@,
        "error"@ != "rollout_mode"@,
        "phase"@ != "rollout_mode"@,
{
    reveal_strlit("error_class");
    reveal_strlit("error");
    reveal_strlit("phase");
    reveal_strlit("rollout_mode");
    assert("error_class"@.len() == 11);
    assert("error"@.len() == 5);
    assert("phase"@.len() == 5);
    assert("rollout_mode"@.len() == 12);
    assert("error"@[0] != "phase"@[0]);
}

/// The mark of a call that failed for good tells the kind of failure, the failure in short and how far the call came.
pub proof fn a_terminal_mark_tells_the_failure(mode: RoutingMode, error: FlowError, phase: Seq<char>,
    metadata: JsonView)
    ensures
        ({
            let mark = terminal_mark(mode, error, phase, metadata);
            &&& mark.data.get("error_class"@) == Some(JsonView::Text(error.class_text()))
            &&& mark.data.get("error"@) == Some(JsonView::Text(error.summary_text()))
            &&& mark.data.get("phase"@) == Some(JsonView::Text(phase))
            &&& mark.data.get("rollout_mode"@) == Some(JsonView::Text((match mode {
                RoutingMode::Enforce => "enforce"@,
                RoutingMode::ObserveOnly => "observe_only"@,
            })))
            &&& mark.name == "switchyard.routing.terminal_error"@
            &&& mark.metadata == metadata
        }),
{
    a_terminal_mark_tells_the_failure_keys();
    let pairs = seq![
        ("error_class"@, JsonView::Text(error.class_text())),
        ("error"@, JsonView::Text(error.summary_text())),
        ("phase"@, JsonView::Text(phase)),
        ("rollout_mode"@, JsonView::Text((match mode {
                RoutingMode::Enforce => "enforce"@,
                RoutingMode::ObserveOnly => "observe_only"@,
            }))),
    ];
    assert(keys_differ(pairs));
    an_object_tells_its_pairs(pairs);
    assert(pairs[0].0 == "error_class"@);
    assert(pairs[1].0 == "error"@);
    assert(pairs[2].0 == "phase"@);
    assert(pairs[3].0 == "rollout_mode"@);
}

/// A failure of the provider is told by its class and, where there was a response, by its status; any other failure by
/// its own words, and as one of the relay. Nothing that the provider wrote is told.
pub proof fn a_failure_is_told_by_class_and_status(failure: UpstreamFailure, error: FlowError)
    ensures
        ({
            let class = match failure.class {
                UpstreamFailureClass::Connection => "connection"@,
                UpstreamFailureClass::Timeout => "timeout"@,
                UpstreamFailureClass::RetryableStatus => "retryable_status"@,
                UpstreamFailureClass::ContextWindow => "context_window"@,
                UpstreamFailureClass::ModelUnavailable => "model_unavailable"@,
                UpstreamFailureClass::Authentication => "authentication"@,
                UpstreamFailureClass::InvalidRequest => "invalid_request"@,
                UpstreamFailureClass::Other => "other"@,
            };
            &&& FlowError::Upstream(failure).class_text() == class
            &&& failure.status is None ==> FlowError::Upstream(failure).summary_text() == class
            &&& failure.status matches Some(status) ==> FlowError::Upstream(failure).summary_text() == class
                + ":http_"@ + decimal(status as nat)
        }),
        !(error is Upstream) ==> error.class_text() == "relay"@,
        error matches FlowError::InvalidArgument(words) ==> error.summary_text() == words@,
        error matches FlowError::Internal(words) ==> error.summary_text() == words@,
        error matches FlowError::Relay(words) ==> error.summary_text() == words@,
{
}

/// After a failure of the provider another attempt begins exactly where the failure says of itself that another
/// attempt may succeed, whatever its class and status, and the limit is not reached. The next attempt knows which
/// backend failed. Where there is none the trusted target serves the call, and the reason tells whether the
/// failure or the limit decided.
pub proof fn a_failure_is_retried_where_it_may_mend(
    config: SwitchyardConfig,
    streaming: bool,
    state: CallState,
    event: CallEvent,
    call: RoutedCall,
    failure: UpstreamFailure,
    r: CallStep,
)
    requires
        ({
            ||| !streaming && state == CallState::Dispatching(call) && event == CallEvent::Answered(
                Err(FlowError::Upstream(failure)),
            )
            ||| streaming && state == CallState::Dispatching(call) && event == CallEvent::Opened(
                Err(FlowError::Upstream(failure)),
            )
            ||| state == CallState::Opening(call) && event == CallEvent::First(
                FirstItem::Failed(FlowError::Upstream(failure)),
            )
        }),
        state.valid(),
        call_follows(config, streaming, state, event, r),
    ensures
        r.action is Decide <==> failure.retryable && call.run.attempt < call.run.max_attempts,
        r.action is Decide ==> {
            &&& r.state is Some
            &&& r.state->Some_0 is Deciding
            &&& r.state->Some_0->Deciding_0.inbound == call.run.inbound
            &&& r.state->Some_0->Deciding_0.attempt == call.run.attempt + 1
            &&& r.state->Some_0->Deciding_0.max_attempts == call.run.max_attempts
            &&& r.state->Some_0->Deciding_0.previous is Some
            &&& r.state->Some_0->Deciding_0.previous->Some_0.0@ == call.decision.route.backend_id@
            &&& r.state->Some_0->Deciding_0.previous->Some_0.1@ == FlowError::Upstream(failure).summary_text()
            &&& r.marks@.len() == 2
            &&& r.marks@[1].name@ == "switchyard.routing.retry"@
        },
        !failure.retryable ==> r.state is None && r.action == CallAction::Trust(
            FallbackReason::NonRetryableProviderError,
        ) && r.marks@.len() == 1,
        failure.retryable && call.run.attempt >= call.run.max_attempts ==> r.state is None && r.action
            == CallAction::Trust(FallbackReason::RetryExhausted) && r.marks@.len() == 1,
        r.contribution is None,
        r.marks@[0].name@ == "switchyard.routing.error"@,
        r.marks@[0].data@.get("error"@) == Some(JsonView::Text(FlowError::Upstream(failure).summary_text())),
        r.marks@[0].data@.get("error_class"@) == Some(
            JsonView::Text(
                if state is Opening {
                    "provider_stream_open"@
                } else if streaming {
                    "provider_stream_setup"@
                } else {
                    "provider"@
                },
            ),
        ),
        r.marks@[0].metadata@ == identity_json(call.request.identity),
{
    let error = FlowError::Upstream(failure);
    let class = if state is Opening {
        "provider_stream_open"@
    } else if streaming {
        "provider_stream_setup"@
    } else {
        "provider"@
    };
    an_error_mark_tells_the_error(config.mode, Some(call.request), call.run.attempt, class, error.summary_text());
    let marks = crate::switchyard::marks::marks_view(r.marks@);
    assert(marks.len() == r.marks@.len());
    assert(marks[0] == r.marks@[0].view());
    if r.action is Decide {
        assert(marks[1] == r.marks@[1].view());
    }
}

/// A failure that is not the provider's is never tried again: the trusted target serves the call.
pub proof fn only_a_provider_is_asked_again(
    config: SwitchyardConfig,
    streaming: bool,
    state: CallState,
    event: CallEvent,
    call: RoutedCall,
    error: FlowError,
    r: CallStep,
)
    requires
        ({
            ||| !streaming && state == CallState::Dispatching(call) && event == CallEvent::Answered(Err(error))
            ||| streaming && state == CallState::Dispatching(call) && event == CallEvent::Opened(Err(error))
            ||| state == CallState::Opening(call) && event == CallEvent::First(FirstItem::Failed(error))
        }),
        state.valid(),
        !(error is Upstream),
        call_follows(config, streaming, state, event, r),
    ensures
        r.state is None,
        r.action == CallAction::Trust(FallbackReason::NonRetryableProviderError),
        r.contribution is None,
        r.marks@.len() == 1,
{
    let marks = crate::switchyard::marks::marks_view(r.marks@);
    assert(marks.len() == r.marks@.len());
}

/// A single step after a provider's failure goes on with another attempt exactly where the failure says that one may
/// succeed and the limit is not reached.
pub proof fn a_failed_step_is_repeated_where_it_may_mend(
    mode: RoutingMode,
    step: Step,
    run: RoutingRun,
    request: RoutingRequest,
    decision: RoutingDecision,
    class: Seq<char>,
    failure: UpstreamFailure,
)
    requires
        failure_step(mode, step, run, request, decision, class, FlowError::Upstream(failure)),
    ensures
        step.next is Retry <==> failure.retryable && run.attempt < run.max_attempts,
        step.next matches Next::Retry(next) ==> {
            &&& next.inbound == run.inbound
            &&& next.attempt == run.attempt + 1
            &&& next.max_attempts == run.max_attempts
            &&& next.previous is Some
            &&& next.previous->Some_0.0@ == decision.route.backend_id@
        },
        !failure.retryable ==> step.next == Next::Fallback(FallbackReason::NonRetryableProviderError),
        failure.retryable && run.attempt >= run.max_attempts ==> step.next == Next::Fallback(
            FallbackReason::RetryExhausted,
        ),
{
}

/// A stream that ends before its first chunk is tried again up to the limit, and then the trusted target serves the
/// call.
pub proof fn an_empty_stream_is_retried(
    config: SwitchyardConfig,
    streaming: bool,
    call: RoutedCall,
    r: CallStep,
)
    requires
        call.run.valid(),
        call_follows(config, streaming, CallState::Opening(call), CallEvent::First(FirstItem::Ended), r),
    ensures
        r.action is Decide <==> call.run.attempt < call.run.max_attempts,
        r.action is Decide ==> {
            &&& r.state is Some
            &&& r.state->Some_0 is Deciding
            &&& r.state->Some_0->Deciding_0.inbound == call.run.inbound
            &&& r.state->Some_0->Deciding_0.attempt == call.run.attempt + 1
            &&& r.state->Some_0->Deciding_0.max_attempts == call.run.max_attempts
            &&& r.state->Some_0->Deciding_0.previous is Some
            &&& r.state->Some_0->Deciding_0.previous->Some_0.0@ == call.decision.route.backend_id@
            &&& r.state->Some_0->Deciding_0.previous->Some_0.1@ == "empty_stream"@
            &&& r.marks@.len() == 1
            &&& r.marks@[0].name@ == "switchyard.routing.retry"@
            &&& r.marks@[0].data@.get("retry_reason"@) == Some(JsonView::Text("empty_stream"@))
        },
        call.run.attempt >= call.run.max_attempts ==> r.state is None && r.action == CallAction::Trust(
            FallbackReason::EmptyStream,
        ) && r.marks@.len() == 0,
        r.contribution is None,
{
    let marks = crate::switchyard::marks::marks_view(r.marks@);
    assert(marks.len() == r.marks@.len());
    if r.action is Decide {
        assert(marks[0] == r.marks@[0].view());
        a_retry_mark_tells_what_failed(config.mode, call.request, call.decision, call.run.attempt, "empty_stream"@);
    }
}

/// A call that cannot be translated is not routed: the trusted target serves it. Any other is, from its first attempt
/// on, where decisions are enforced; where they are only observed, one is asked for.
pub proof fn a_call_begins_with_its_first_attempt(
    config: SwitchyardConfig,
    inbound: WireProtocol,
    portable: Result<(), String>,
    r: CallStep,
)
    requires
        call_begins(config, inbound, portable, r),
    ensures
        r.contribution is None,
        portable is Err ==> r.state is None && r.action == CallAction::Trust(
            FallbackReason::UnsupportedProviderExtension,
        ) && r.marks@.len() == 1 && r.marks@[0].data@.get("error"@) == Some(JsonView::Text(portable->Err_0@)),
        portable is Ok ==> r.action is Decide && r.marks@.len() == 0,
        portable is Ok && config.mode == RoutingMode::ObserveOnly ==> r.state == Some(CallState::Observing),
        portable is Ok && config.mode == RoutingMode::Enforce ==> {
            &&& r.state is Some
            &&& r.state->Some_0 is Deciding
            &&& r.state->Some_0->Deciding_0.inbound == inbound
            &&& r.state->Some_0->Deciding_0.attempt == 1
            &&& r.state->Some_0->Deciding_0.previous is None
            &&& config.max_retries < u32::MAX ==> r.state->Some_0->Deciding_0.max_attempts == config.max_retries + 1
        },
{
    let marks = crate::switchyard::marks::marks_view(r.marks@);
    assert(marks.len() == r.marks@.len());
    if let Err(error) = portable {
        assert(marks[0] == r.marks@[0].view());
        an_error_mark_tells_the_error(config.mode, None, 0, "unsupported_provider_extension"@, error@);
    }
}

/// Where decisions are only observed the trusted target serves every call, whatever was decided.
pub proof fn an_observed_call_is_not_routed(
    config: SwitchyardConfig,
    streaming: bool,
    decided: Result<Decided, String>,
    r: CallStep,
)
    requires
        call_follows(config, streaming, CallState::Observing, CallEvent::Decided(decided), r),
    ensures
        r.state is None,
        r.action == CallAction::Trust(FallbackReason::ObserveOnly),
        decided is Ok ==> r.marks@.len() == 0,
        decided is Err ==> r.contribution is None && r.marks@.len() == 1 && r.marks@[0].data@.get("error"@) == Some(
            JsonView::Text(decided->Err_0@),
        ),
        r.contribution matches Some(contribution) ==> !contribution.applied,
{
    let marks = crate::switchyard::marks::marks_view(r.marks@);
    assert(marks.len() == r.marks@.len());
    if let Err(error) = decided {
        assert(marks[0] == r.marks@[0].view());
        an_error_mark_tells_the_error(config.mode, None, 1, "decision_api"@, error@);
    }
}

/// A call goes where the decision says, in the form that was made for that target; without a decision the trusted
/// target serves it.
pub proof fn a_call_goes_where_the_decision_says(
    config: SwitchyardConfig,
    streaming: bool,
    run: RoutingRun,
    decided: Result<Decided, String>,
    r: CallStep,
)
    requires
        run.valid(),
        call_follows(config, streaming, CallState::Deciding(run), CallEvent::Decided(decided), r),
    ensures
        r.contribution is None,
        decided is Err ==> {
            &&& r.state is None
            &&& r.action == CallAction::Trust(FallbackReason::DecisionError)
            &&& r.marks@.len() == 1
            &&& r.marks@[0].data@.get("error"@) == Some(JsonView::Text(decided->Err_0@))
            &&& r.marks@[0].data@.get("routing_attempt"@) == Some(JsonView::Unsigned(run.attempt as u64))
        },
        decided is Ok ==> r.marks@.len() == 0,
        decided matches Ok(decided) ==> (r.action is Dispatch || r.action is Fail) && (r.action is Dispatch ==> {
            let label = decided.decision.route.target_protocol_profile@;
            &&& r.action == CallAction::Dispatch(decided.routed)
            &&& r.state is Some
            &&& r.state->Some_0 is Dispatching
            &&& r.state->Some_0->Dispatching_0.run == run
            &&& r.state->Some_0->Dispatching_0.request == decided.request
            &&& r.state->Some_0->Dispatching_0.decision == decided.decision
            &&& match r.state->Some_0->Dispatching_0.target {
                WireProtocol::OpenaiChat => label == "openai_chat"@ || label == "openai_chat_completions"@ || label
                    == "openai_chat_completions.v1"@,
                WireProtocol::OpenaiResponses => label == "openai_responses"@ || label == "openai_responses.v1"@,
                WireProtocol::AnthropicMessages => label == "anthropic_messages"@ || label
                    == "anthropic_messages.v1"@,
            }
        }) && (r.action is Fail ==> {
            let label = decided.decision.route.target_protocol_profile@;
            &&& r.state is None
            &&& label != "openai_chat"@ && label != "openai_chat_completions"@ && label
                != "openai_chat_completions.v1"@ && label != "openai_responses"@ && label != "openai_responses.v1"@
            &&& label != "anthropic_messages"@ && label != "anthropic_messages.v1"@
        }),
{
    let marks = crate::switchyard::marks::marks_view(r.marks@);
    assert(marks.len() == r.marks@.len());
    if let Err(error) = decided {
        assert(marks[0] == r.marks@[0].view());
        an_error_mark_tells_the_error(config.mode, None, run.attempt, "decision_api"@, error@);
    }
}

/// An answer of the target is put into the protocol of the call and then served, and nothing else is; where it cannot
/// be put so, the trusted target serves the call.
pub proof fn an_answer_is_served_in_the_protocol_of_the_call(
    config: SwitchyardConfig,
    streaming: bool,
    call: RoutedCall,
    answered: CallStep,
    translated: Result<crate::json::Json, String>,
    response: crate::json::Json,
    r: CallStep,
)
    requires
        call.run.valid(),
        call_follows(config, false, CallState::Dispatching(call), CallEvent::Answered(Ok(response)), answered),
        call_follows(config, streaming, CallState::Translating(call), CallEvent::Translated(translated), r),
    ensures
        answered.action == (CallAction::Translate { target: call.target, response }),
        answered.state == Some(CallState::Translating(call)),
        answered.contribution is None,
        answered.marks@.len() == 0,
        r.state is None,
        translated matches Ok(answer) ==> r.action == CallAction::Serve(answer) && r.marks@.len() == 0,
        translated matches Err(error) ==> {
            &&& r.action == CallAction::Trust(FallbackReason::TranslationError)
            &&& r.contribution is None
            &&& r.marks@.len() == 1
            &&& r.marks@[0].data@.get("error_class"@) == Some(JsonView::Text("response_translation"@))
            &&& r.marks@[0].data@.get("error"@) == Some(JsonView::Text(error@))
        },
{
    let marks = crate::switchyard::marks::marks_view(r.marks@);
    assert(marks.len() == r.marks@.len());
    assert(crate::switchyard::marks::marks_view(answered.marks@).len() == answered.marks@.len());
    if let Err(error) = translated {
        assert(marks[0] == r.marks@[0].view());
        an_error_mark_tells_the_error(
            config.mode,
            Some(call.request),
            call.run.attempt,
            "response_translation"@,
            error@,
        );
    }
}

/// A stream that opened is read, and its first chunk commits the call to it: that chunk is handed on first, the chunks
/// are put into the protocol of the call exactly where the target speaks another one, and the answer tells the model
/// of the target.
pub proof fn the_first_chunk_commits_a_call(
    config: SwitchyardConfig,
    streaming: bool,
    call: RoutedCall,
    opened: CallStep,
    first: crate::json::Json,
    r: CallStep,
)
    requires
        call.run.valid(),
        call_follows(config, true, CallState::Dispatching(call), CallEvent::Opened(Ok(())), opened),
        call_follows(config, streaming, CallState::Opening(call), CallEvent::First(FirstItem::Chunk(first)), r),
    ensures
        opened.action is ReadFirst,
        opened.state == Some(CallState::Opening(call)),
        opened.contribution is None,
        opened.marks@.len() == 0,
        r.state is None,
        r.marks@.len() == 0,
        r.action is Stream,
        r.action->Stream_0.first == first,
        r.action->Stream_0.target == call.target,
        r.action->Stream_0.translate <==> call.target != call.run.inbound,
        r.action->Stream_0.model@ == call.decision.route.target_model@,
        r.action->Stream_0.watch.phase@ == "provider_stream_committed"@,
        r.action->Stream_0.watch.mode == config.mode,
        r.action->Stream_0.watch.metadata@.get("session_id"@) == Some(
            JsonView::Text(call.request.identity.session_id@),
        ),
        r.action->Stream_0.watch.metadata@.get("request_id"@) == Some(
            JsonView::Text(call.request.identity.request_id@),
        ),
{
    the_metadata_of_a_mark_tells_whose_request_it_is(call.request.identity);
    assert(crate::switchyard::marks::marks_view(opened.marks@).len() == opened.marks@.len());
}

/// The metadata of the mark of a fallback tells whose call it is as far as the headers of the call say.
pub proof fn the_headers_of_a_call_tell_whose_it_is(headers: Members)
    ensures
        call_identity_json(headers).get("session_id"@) == Some(
            match header_text(headers, "x-nemo-relay-session-id"@) {
                Some(id) => JsonView::Text(id),
                None => JsonView::Null,
            },
        ),
        call_identity_json(headers).get("request_id"@) == Some(
            match header_text(headers, "x-nemo-relay-request-id"@) {
                Some(id) => JsonView::Text(id),
                None => JsonView::Null,
            },
        ),
        call_identity_json(headers).get("turn_id"@) == Some(
            match header_text(headers, "x-nemo-relay-turn-id"@) {
                Some(id) => JsonView::Text(id),
                None => JsonView::Null,
            },
        ),
        call_identity_json(headers).get("owner_id"@) == Some(
            match header_text(headers, "x-nemo-relay-owner-id"@) {
                Some(id) => JsonView::Text(id),
                None => JsonView::Null,
            },
        ),
{
    identity_keys_differ();
    let pairs = seq![
        ("session_id"@, opt_text_json(header_text(headers, "x-nemo-relay-session-id"@))),
        ("request_id"@, opt_text_json(header_text(headers, "x-nemo-relay-request-id"@))),
        ("turn_id"@, opt_text_json(header_text(headers, "x-nemo-relay-turn-id"@))),
        ("owner_id"@, opt_text_json(header_text(headers, "x-nemo-relay-owner-id"@))),
    ];
    assert(keys_differ(pairs));
    an_object_tells_its_pairs(pairs);
    assert(pairs[0].0 == "session_id"@ && pairs[1].0 == "request_id"@ && pairs[2].0 == "turn_id"@ && pairs[3].0
        == "owner_id"@);
}

/// A fallback is told by the reason that it has.
pub proof fn a_fallback_is_told_by_its_reason(reason: FallbackReason)
    ensures
        reason.label_text() == (match reason {
            FallbackReason::UnsupportedProviderExtension => "unsupported_provider_extension"@,
            FallbackReason::ObserveOnly => "observe_only"@,
            FallbackReason::DecisionError => "decision_error"@,
            FallbackReason::TranslationError => "translation_error"@,
            FallbackReason::RetryExhausted => "retry_exhausted"@,
            FallbackReason::NonRetryableProviderError => "non_retryable_provider_error"@,
            FallbackReason::EmptyStream => "empty_stream"@,
        }),
{
}

/// A check succeeds exactly where nothing is wrong, and else tells what is.
pub proof fn a_check_tells_what_is_wrong(r: Result<(), String>, error: Option<Seq<char>>)
    ensures
        answers(r, error) <==> {
            &&& r is Ok <==> error is None
            &&& r matches Err(words) ==> error == Some(words@)
        },
{
}

/// That a label stands for no protocol is told with the label.
pub proof fn an_unknown_label_is_told(error: FlowError, label: Seq<char>)
    ensures
        unknown_label(error, label) <==> error is InvalidArgument && error->InvalidArgument_0@
            == "unsupported Switchyard target protocol "@ + debug_text(label),
{
}

/// An identifier that is made up can be told from others by how it begins, and holds a UUID behind that.
pub proof fn a_made_up_identifier_begins_with_request(s: Seq<char>)
    requires
        made_up(s),
    ensures
        s.len() == 44,
        s.take(8) == "request-"@,
        s[22] == '7',
{
    reveal_strlit("request-");
    let id = choose|id: Seq<char>| #[trigger] uuid_text(id) && s == "request-"@ + id;
    assert(s.take(8) =~= "request-"@);
    assert(s[22] == id[14]);
}

/// A watched stream hands every chunk on as it is and goes on; an error it hands on as it is, and is then at its end; at
/// the end of the stream it hands nothing on.
pub proof fn a_watched_stream_hands_items_on_as_they_are(item: StreamItem)
    ensures
        item matches StreamItem::Chunk(chunk) ==> item_handed_on(item) == Some(Ok::<crate::json::Json,
            FlowError>(chunk))
            && item_goes_on(item),
        item matches StreamItem::Failed(error) ==> item_handed_on(item) == Some(
            Err::<crate::json::Json, FlowError>(error),
        ) && !item_goes_on(item),
        item is Ended ==> item_handed_on(item) is None && !item_goes_on(item),
{
}

/// A stream that cannot be translated ends with an error that says so.
pub proof fn a_stream_fails_in_words(output: StreamOutput, words: Seq<char>)
    ensures
        output.fails_with(words) <==> output is Failed && output->Failed_0 is InvalidArgument
            && output->Failed_0->InvalidArgument_0@ == words,
{
}

/// What follows on the end of an attempt: an answer goes on, and what cannot be decided or translated goes to the trusted
/// target; a failure is tried again where it may mend and the limit is not reached, and an empty stream where the limit
/// is not reached.
pub proof fn the_end_of_an_attempt_decides_what_follows(end: AttemptEnd, attempt: u32, max: u32)
    ensures
        course(end, attempt, max) is Retry <==> attempt < max && (end is Empty || (end is Failed
            && end->Failed_retryable)),
        course(end, attempt, max) is Proceed <==> end is Answered,
        end is Undecided ==> course(end, attempt, max) == Course::Fallback(FallbackReason::DecisionError),
        end is Untranslatable ==> course(end, attempt, max) == Course::Fallback(FallbackReason::TranslationError),
        end is Failed && !end->Failed_retryable ==> course(end, attempt, max) == Course::Fallback(
            FallbackReason::NonRetryableProviderError,
        ),
        end is Failed && end->Failed_retryable && attempt >= max ==> course(end, attempt, max) == Course::Fallback(
            FallbackReason::RetryExhausted,
        ),
        end is Empty && attempt >= max ==> course(end, attempt, max) == Course::Fallback(FallbackReason::EmptyStream),
{
}

/// A step that follows on the end of an attempt is the one that this end decides.
pub proof fn a_next_step_is_one_of_three(next: Next)
    ensures
        next is Proceed <==> next.course() is Proceed,
        next is Retry <==> next.course() is Retry,
        next matches Next::Fallback(reason) ==> next.course() == Course::Fallback(reason),
{
}

} // verus!
