use relay_core::json::{Json, JsonObject};
use relay_core::ordered::StringMap;
use relay_core::switchyard::call::{CallAction, CallEvent, CallState, CallStep, Decided};
use relay_core::switchyard::config::{
    ContextMode, RequestMaterialization, RoutingMode, SwitchyardConfig, TargetBinding, WireProtocol,
};
use relay_core::switchyard::contract::{DecisionProvider, LlmRequest, RoutingDecision, RoutingRequest, RoutingTarget};
use relay_core::switchyard::decision::{
    attempt_limit, materialize, routing_request, routing_request_with, DecisionReply, OptimizationKind, RequestParts,
    Role,
};
use relay_core::switchyard::failure::{
    error_is_retryable, provider_error_class, provider_error_summary, FlowError, UpstreamFailure, UpstreamFailureClass,
};
use relay_core::switchyard::marks::{mark_fallback, mark_requested, Mark};
use relay_core::switchyard::request::{
    call_header, dispatch_url, protocol_from_label, SwitchyardRuntime, Translated, INTERNAL_DISPATCH_ROUTE_HEADER,
    INTERNAL_DISPATCH_URL_HEADER, INTERNAL_RETRY_AWARE_HEADER,
};
use relay_core::switchyard::routing::{
    begin, routed_protocol, DecisionStep, FallbackReason, FirstItem, Next, RoutingRun, Start,
};
use relay_core::switchyard::stream::{
    check_chunk, finished, transcoded, unsupported_stream_chunk, StreamItem, StreamOutput, Watch,
};
use serde_json::Value;

fn value(text: &str) -> Value {
    serde_json::from_str(text).unwrap()
}

fn json(text: &str) -> Json {
    Json::from_json(text).unwrap()
}

fn object(text: &str) -> JsonObject {
    match json(text) {
        Json::Object(object) => object,
        _ => panic!("not an object"),
    }
}

fn target(model: &str, protocol: WireProtocol, base_url: &str) -> TargetBinding {
    TargetBinding {
        model: model.to_string(),
        protocol,
        endpoint: protocol.endpoint().to_string(),
        base_url: base_url.to_string(),
        headers: StringMap::new(),
        header_env: StringMap::new(),
    }
}

fn config() -> SwitchyardConfig {
    let mut config = SwitchyardConfig::default();
    config.decision_profile_id = "profile".to_string();
    let mut chat = target("gpt", WireProtocol::OpenaiChat, "http://a/v1/");
    chat.headers.insert("x-team".to_string(), "relay".to_string());
    config.targets.insert("chat".to_string(), chat);
    config.targets.insert("messages".to_string(), target("sonata", WireProtocol::AnthropicMessages, "http://b"));
    config.default_targets.openai_chat = "chat".to_string();
    config.default_targets.anthropic_messages = "messages".to_string();
    config.enabled_inbound_profiles.openai_responses = false;
    config
}

fn runtime() -> SwitchyardRuntime {
    SwitchyardRuntime::new(config(), &StringMap::new()).unwrap()
}

fn call(headers: &str, content: &str) -> LlmRequest {
    LlmRequest {
        headers: object(headers),
        content: json(content),
    }
}

fn untranslated() -> Translated {
    Translated {
        decoded: Ok(()),
        encoded: Err("not needed".to_string()),
    }
}

fn route(backend: &str, model: &str, protocol: &str, endpoint: &str) -> RoutingTarget {
    RoutingTarget {
        tier: "strong".to_string(),
        target_model: model.to_string(),
        backend_id: backend.to_string(),
        target_protocol_profile: protocol.to_string(),
        target_endpoint: endpoint.to_string(),
    }
}

fn decision() -> RoutingDecision {
    RoutingDecision {
        schema_version: "switchyard.routing_decision.v1".to_string(),
        decision_id: "d1".to_string(),
        router: DecisionProvider {
            name: "router".to_string(),
            version: "2".to_string(),
        },
        route: route("chat", "gpt", "openai_chat", "/v1/chat/completions"),
        baseline_route: None,
        confidence: Json::Null,
        reason_code: Some("cheap".to_string()),
        reason_summary: None,
        metadata: object(r#"{"k": 1}"#),
        extra: JsonObject::new(),
    }
}

fn parts() -> RequestParts {
    RequestParts {
        instruction_roles: vec![Role::Developer],
        message_roles: vec![Role::User, Role::System],
        annotated: json(r#"{"messages": []}"#),
        latest_user_prompt: Some("hi".to_string()),
        latest_body: Ok(json(r#"{"last": 1}"#)),
        window: json(r#"{"window": true}"#),
        window_body: Ok(json(r#"{"body": 2}"#)),
    }
}

fn request() -> RoutingRequest {
    routing_request_with(
        &config(),
        WireProtocol::OpenaiChat,
        &call(
            r#"{"x-nemo-relay-session-id": " s ", "x-nemo-relay-request-id": "r", "x-nemo-relay-turn-id": "t"}"#,
            r#"{"model": "m", "tools": [1, 2]}"#,
        ),
        &Ok(parts()),
        1,
        &None,
        "made-session".to_string(),
        "made-request".to_string(),
    )
    .unwrap()
}

fn run(attempt: u32) -> RoutingRun {
    RoutingRun {
        inbound: WireProtocol::OpenaiChat,
        attempt,
        max_attempts: 4,
        previous: None,
    }
}

fn upstream(class: UpstreamFailureClass, status: Option<u16>, retryable: bool) -> FlowError {
    FlowError::Upstream(UpstreamFailure {
        class,
        status,
        retryable,
    })
}

fn shown(mark: &Mark) -> (String, Value, Value) {
    (mark.name.clone(), mark.data.to_value(), mark.metadata.to_value())
}

fn invalid(error: FlowError) -> String {
    match error {
        FlowError::InvalidArgument(words) => words,
        error => panic!("{error:?}"),
    }
}

#[test]
fn a_call_is_known_by_its_name_then_by_its_body() {
    let body = |text: &str| call("{}", text);
    for (name, content, protocol) in [
        ("openai_chat", r#"{"input": 1}"#, Some(WireProtocol::OpenaiChat)),
        ("openai.chat_completions", "{}", Some(WireProtocol::OpenaiChat)),
        ("openai_chat_completions", "{}", Some(WireProtocol::OpenaiChat)),
        ("openai.responses", "{}", Some(WireProtocol::OpenaiResponses)),
        ("openai_responses", "{}", Some(WireProtocol::OpenaiResponses)),
        ("anthropic", "{}", Some(WireProtocol::AnthropicMessages)),
        ("anthropic.messages", "{}", Some(WireProtocol::AnthropicMessages)),
        ("anthropic_messages", "{}", Some(WireProtocol::AnthropicMessages)),
        ("x", r#"{"input": 1, "system": 2}"#, Some(WireProtocol::OpenaiResponses)),
        ("x", r#"{"system": 1, "messages": 2}"#, Some(WireProtocol::AnthropicMessages)),
        ("x", r#"{"messages": 1}"#, Some(WireProtocol::OpenaiChat)),
        ("x", "{}", None),
        ("x", "[]", None),
    ] {
        assert_eq!(WireProtocol::from_call(name, &body(content)), protocol, "{name} {content}");
    }
    assert_eq!(routed_protocol(&config(), "openai_chat", &body("{}")), Some(WireProtocol::OpenaiChat));
    assert_eq!(routed_protocol(&config(), "openai_responses", &body("{}")), None);
    assert_eq!(routed_protocol(&config(), "x", &body("{}")), None);
}

#[test]
fn labels_name_protocols() {
    assert_eq!(protocol_from_label("openai_chat_completions.v1").unwrap(), WireProtocol::OpenaiChat);
    assert_eq!(protocol_from_label("openai_chat_completions").unwrap(), WireProtocol::OpenaiChat);
    assert_eq!(protocol_from_label("openai_responses.v1").unwrap(), WireProtocol::OpenaiResponses);
    assert_eq!(protocol_from_label("anthropic_messages.v1").unwrap(), WireProtocol::AnthropicMessages);
    assert_eq!(
        invalid(protocol_from_label("gemini").unwrap_err()),
        "unsupported Switchyard target protocol \"gemini\""
    );
}

#[test]
fn a_header_is_trimmed_and_blank_ones_count_as_missing() {
    let request = call(r#"{"a": " x ", "b": "  ", "c": 1}"#, "{}");
    assert_eq!(call_header(&request, "a").unwrap(), "x");
    assert!(call_header(&request, "b").is_none());
    assert!(call_header(&request, "c").is_none());
    assert!(call_header(&request, "d").is_none());
}

#[test]
fn a_version_stands_once_in_an_url() {
    assert_eq!(dispatch_url("http://a/v1//", "/v1/messages"), "http://a/v1/messages");
    assert_eq!(dispatch_url("http://a", "/v1/messages"), "http://a/v1/messages");
    assert_eq!(dispatch_url("http://a/v1", "/v2/x"), "http://a/v1/v2/x");
}

#[test]
fn a_target_directs_the_call() {
    let routed = runtime()
        .apply_target(
            WireProtocol::OpenaiChat,
            call(r#"{"x-team": "mine", "x-other": "y"}"#, r#"{"model": "m", "messages": []}"#),
            "chat",
            untranslated(),
        )
        .unwrap();
    assert_eq!(
        Json::Object(routed.headers).to_value(),
        value(
            r#"{"x-team": "relay", "x-other": "y",
                "x-nemo-relay-internal-dispatch-route": "openai_chat",
                "x-nemo-relay-internal-dispatch-url": "http://a/v1/chat/completions",
                "x-nemo-relay-internal-retry-aware": "true"}"#
        )
    );
    assert_eq!(routed.content.to_value(), value(r#"{"model": "gpt", "messages": []}"#));
    assert_eq!(INTERNAL_DISPATCH_ROUTE_HEADER, "x-nemo-relay-internal-dispatch-route");
    assert_eq!(INTERNAL_DISPATCH_URL_HEADER, "x-nemo-relay-internal-dispatch-url");
    assert_eq!(INTERNAL_RETRY_AWARE_HEADER, "x-nemo-relay-internal-retry-aware");
}

#[test]
fn a_call_to_another_protocol_is_translated() {
    let translated = Translated {
        decoded: Ok(()),
        encoded: Ok(call(r#"{"h": "1"}"#, r#"{"system": "s"}"#)),
    };
    let routed = runtime()
        .apply_target(WireProtocol::OpenaiChat, call("{}", "{}"), "messages", translated)
        .unwrap();
    assert_eq!(routed.content.to_value(), value(r#"{"model": "sonata", "system": "s"}"#));
    assert_eq!(routed.headers.get("h").unwrap().as_text(), Some("1"));
}

#[test]
fn what_keeps_a_call_from_its_target_is_named() {
    let error = |backend: &str, content: &str, translated: Translated| {
        runtime()
            .apply_target(WireProtocol::OpenaiChat, call("{}", content), backend, translated)
            .unwrap_err()
    };
    assert_eq!(error("other", "{}", untranslated()), "unknown backend_id \"other\"");
    assert_eq!(
        error(
            "chat",
            "{}",
            Translated {
                decoded: Err("bad".to_string()),
                encoded: Err("worse".to_string())
            }
        ),
        "request decode failed: bad"
    );
    assert_eq!(error("messages", "{}", untranslated()), "request translation failed: not needed");
    assert_eq!(error("chat", "[]", untranslated()), "translated request body is not an object");
}

#[test]
fn the_trusted_target_serves_a_call() {
    let served = runtime()
        .fallback_request(WireProtocol::AnthropicMessages, call("{}", "{}"), untranslated())
        .unwrap();
    assert_eq!(served.content.to_value(), value(r#"{"model": "sonata"}"#));
    let error = runtime()
        .fallback_request(WireProtocol::OpenaiResponses, call("{}", "{}"), untranslated())
        .unwrap_err();
    assert_eq!(error, "unknown fallback target \"\"");
}

#[test]
fn failures_are_classified() {
    for (class, name) in [
        (UpstreamFailureClass::Connection, "connection"),
        (UpstreamFailureClass::Timeout, "timeout"),
        (UpstreamFailureClass::RetryableStatus, "retryable_status"),
        (UpstreamFailureClass::ContextWindow, "context_window"),
        (UpstreamFailureClass::ModelUnavailable, "model_unavailable"),
        (UpstreamFailureClass::Authentication, "authentication"),
        (UpstreamFailureClass::InvalidRequest, "invalid_request"),
        (UpstreamFailureClass::Other, "other"),
    ] {
        let error = upstream(class, None, false);
        assert_eq!(provider_error_class(&error), name);
        assert_eq!(provider_error_summary(&error), name);
        assert!(!error_is_retryable(&error));
    }
    let error = upstream(UpstreamFailureClass::RetryableStatus, Some(503), true);
    assert_eq!(provider_error_summary(&error), "retryable_status:http_503");
    assert!(error_is_retryable(&error));
    let error = FlowError::Relay("internal error".to_string());
    assert_eq!(provider_error_class(&error), "relay");
    assert_eq!(provider_error_summary(&error), "internal error");
    assert!(!error_is_retryable(&error));
}

#[test]
fn requests_for_decisions_carry_the_identity_of_the_call() {
    let made = request();
    assert_eq!(made.schema_version, "switchyard.routing_request.v1");
    assert_eq!(made.decision_profile.profile_id, "profile");
    assert_eq!(made.identity.session_id, "s");
    assert_eq!(made.identity.request_id, "r");
    assert_eq!(made.identity.turn_id.as_deref(), Some("t"));
    assert!(made.identity.parent_scope_id.is_none());
    assert!(made.identity.root_scope_id.is_none());
    assert_eq!(made.identity.harness, "unknown");
    assert_eq!(made.identity.source, "nemo-relay");
    assert!(made.identity.owner_id.is_none());
    assert_eq!(made.identity.quality, "explicit");
    assert_eq!(made.protocol.inbound_profile, "openai_chat");
    assert_eq!(made.protocol.inbound_endpoint, "/v1/chat/completions");
    assert_eq!(made.protocol.desired_response_profile, "openai_chat");
    assert_eq!(made.request_summary.client_requested_model.as_deref(), Some("m"));
    assert_eq!(made.request_summary.prompt_token_estimate, None);
    assert_eq!(made.request_summary.tool_count_in_payload, Some(2));
    assert_eq!(made.request_summary.has_system_prompt, Some(true));
    assert!(made.current_request.is_none());
    assert_eq!(made.attempt.routing_attempt, 1);
    assert_eq!(made.attempt.max_routing_attempts, 4);
    assert!(made.attempt.previous_route.is_none());
    assert!(made.attempt.retry_reason.is_none());
}

#[test]
fn a_call_without_identity_gets_a_made_one() {
    let previous = Some(("chat".to_string(), "timeout".to_string()));
    let made = routing_request(
        &config(),
        WireProtocol::OpenaiChat,
        &call(r#"{"x-nemo-relay-request-id": "r"}"#, "{}"),
        &Ok(parts()),
        2,
        &previous,
    )
    .unwrap();
    assert!(made.identity.session_id.starts_with("request-"));
    assert_eq!(made.identity.session_id.len(), 8 + 36);
    assert_eq!(&made.identity.session_id[22..23], "7");
    assert_eq!(made.identity.request_id, "r");
    assert_eq!(made.identity.quality, "synthetic");
    assert_eq!(made.attempt.previous_route.as_deref(), Some("chat"));
    assert_eq!(made.attempt.retry_reason.as_deref(), Some("timeout"));
    let again = routing_request(&config(), WireProtocol::OpenaiChat, &call("{}", "{}"), &Ok(parts()), 1, &None).unwrap();
    assert_ne!(again.identity.session_id, again.identity.request_id);
}

#[test]
fn history_needs_a_stable_identity() {
    let mut config = config();
    config.context_mode = ContextMode::AtofRequired;
    config.atof_endpoint_name = Some("history".to_string());
    let error = routing_request(
        &config,
        WireProtocol::OpenaiChat,
        &call(r#"{"x-nemo-relay-session-id": "s"}"#, "{}"),
        &Err("unread".to_string()),
        1,
        &None,
    )
    .unwrap_err();
    assert_eq!(error, "stable session and request identity are required for this profile");
    let error = routing_request(
        &config,
        WireProtocol::OpenaiChat,
        &call(r#"{"x-nemo-relay-session-id": "s", "x-nemo-relay-request-id": "r"}"#, "{}"),
        &Err("unread".to_string()),
        1,
        &None,
    )
    .unwrap_err();
    assert_eq!(error, "request translation decode failed: unread");
}

#[test]
fn a_request_is_materialized_as_configured() {
    let content = json(r#"{"c": 1}"#);
    let made = |materialization| {
        materialize(materialization, &content, &parts())
            .unwrap()
            .map(|made| made.to_value())
    };
    assert_eq!(made(RequestMaterialization::Nothing), None);
    assert_eq!(made(RequestMaterialization::SummaryOnly), None);
    assert_eq!(made(RequestMaterialization::FullBody), Some(value(r#"{"body": {"c": 1}}"#)));
    assert_eq!(
        made(RequestMaterialization::AnnotatedRequest),
        Some(value(r#"{"body": {"c": 1}, "annotated_request": {"messages": []}}"#))
    );
    assert_eq!(
        made(RequestMaterialization::LatestUserPrompt),
        Some(value(r#"{"body": {"last": 1}, "latest_user_prompt": "hi"}"#))
    );
    assert_eq!(
        made(RequestMaterialization::RecentMessageWindow),
        Some(value(r#"{"body": {"body": 2}, "annotated_request": {"window": true}}"#))
    );
    let mut wrong = parts();
    wrong.latest_body = Err("x".to_string());
    wrong.window_body = Err("y".to_string());
    assert_eq!(
        materialize(RequestMaterialization::LatestUserPrompt, &content, &wrong).unwrap_err(),
        "latest user prompt encode failed: x"
    );
    assert_eq!(
        materialize(RequestMaterialization::RecentMessageWindow, &content, &wrong).unwrap_err(),
        "recent window encode failed: y"
    );
    wrong.latest_user_prompt = None;
    assert_eq!(
        materialize(RequestMaterialization::LatestUserPrompt, &content, &wrong).unwrap_err(),
        "latest_user_prompt requires a user message"
    );
}

#[test]
fn a_decision_has_to_name_an_exact_binding() {
    let runtime = runtime();
    runtime.validate_decision(&decision()).unwrap();
    let mut wrong = decision();
    wrong.schema_version = "v0".to_string();
    assert_eq!(
        runtime.validate_decision(&wrong).unwrap_err(),
        "unsupported decision schema \"v0\""
    );
    assert_eq!(
        runtime
            .validate_target(&route("other", "gpt", "openai_chat", "/v1/chat/completions"))
            .unwrap_err(),
        "unknown backend_id \"other\""
    );
    for wrong in [
        route("chat", "other", "openai_chat", "/v1/chat/completions"),
        route("chat", "gpt", "openai_responses", "/v1/chat/completions"),
        route("chat", "gpt", "openai_chat", "/v1/messages"),
    ] {
        assert_eq!(
            runtime.validate_target(&wrong).unwrap_err(),
            "decision target \"chat\" does not match its exact Relay binding"
        );
    }
}

#[test]
fn replies_that_are_no_decision_are_named() {
    let runtime = runtime();
    assert_eq!(
        runtime.accept_reply(DecisionReply::Unsent("refused".to_string())).unwrap_err(),
        "Decision API request failed: refused"
    );
    assert_eq!(
        runtime
            .accept_reply(DecisionReply::Refused {
                status: "503 Service Unavailable".to_string(),
                body: "busy".to_string()
            })
            .unwrap_err(),
        "Decision API returned HTTP 503 Service Unavailable: busy"
    );
    assert_eq!(
        runtime.accept_reply(DecisionReply::Unreadable("eof".to_string())).unwrap_err(),
        "Decision API returned invalid JSON: eof"
    );
    let accepted = runtime.accept_reply(DecisionReply::Decided(decision())).unwrap();
    assert_eq!(accepted.decision_id, "d1");
}

#[test]
fn a_contribution_needs_a_sound_baseline() {
    let runtime = runtime();
    assert!(runtime.routing_contribution(&decision(), 2, true).is_none());
    let mut with_baseline = decision();
    with_baseline.baseline_route = Some(route("messages", "other", "anthropic_messages", "/v1/messages"));
    assert!(runtime.routing_contribution(&with_baseline, 2, true).is_none());
    with_baseline.baseline_route = Some(route("messages", "sonata", "anthropic_messages", "/v1/messages"));
    let contribution = runtime.routing_contribution(&with_baseline, 2, true).unwrap();
    assert!(contribution.applied);
    assert_eq!(contribution.source, "switchyard");
    assert_eq!(contribution.kind, OptimizationKind::ModelRouting);
    assert_eq!(contribution.payload_schema.name, "nvidia.switchyard.routing_optimization");
    assert_eq!(contribution.payload_schema.version, "1");
    assert_eq!(contribution.baseline_model, "sonata");
    assert_eq!(contribution.effective_model, "gpt");
    assert_eq!(
        contribution.payload.to_value(),
        value(
            r#"{"decision_id": "d1", "selected_backend_id": "chat", "selected_tier": "strong",
                "baseline_backend_id": "messages", "baseline_tier": "strong", "routing_attempt": 2,
                "rollout_mode": "enforce", "reason_code": "cheap", "reason_summary": null,
                "router_metadata": {"k": 1}}"#
        )
    );
}

#[test]
fn a_decision_that_is_carried_out_leaves_its_mark() {
    let (marks, routed) = runtime().conclude_decision(
        WireProtocol::OpenaiChat,
        call("{}", "{}"),
        &request(),
        &decision(),
        1,
        untranslated(),
        12,
    );
    assert_eq!(routed.unwrap().content.to_value(), value(r#"{"model": "gpt"}"#));
    assert_eq!(marks.len(), 1);
    assert_eq!(
        shown(&marks[0]),
        (
            "switchyard.routing.decision".to_string(),
            value(
                r#"{"decision_id": "d1", "profile_id": "profile", "router": "router", "router_version": "2",
                    "routing_attempt": 1, "backend_id": "chat", "selected_tier": "strong", "selected_model": "gpt",
                    "target_protocol_profile": "openai_chat", "target_endpoint": "/v1/chat/completions",
                    "confidence": null, "reason_code": "cheap", "reason_summary": null, "router_metadata": {"k": 1},
                    "latency_ms": 12, "observe_only": false, "rollout_mode": "enforce"}"#
            ),
            value(r#"{"session_id": "s", "request_id": "r", "turn_id": "t", "owner_id": null}"#)
        )
    );
}

#[test]
fn an_unsound_baseline_is_reported_and_not_fatal() {
    let mut odd = decision();
    odd.baseline_route = Some(route("gone", "m", "openai_chat", "/v1/chat/completions"));
    let (marks, routed) = runtime().conclude_decision(
        WireProtocol::OpenaiChat,
        call("{}", "[]"),
        &request(),
        &odd,
        1,
        untranslated(),
        12,
    );
    assert_eq!(routed.unwrap_err(), "translated request body is not an object");
    assert_eq!(marks.len(), 1);
    assert_eq!(
        shown(&marks[0]).1,
        value(
            r#"{"routing_attempt": 1, "error_class": "baseline_binding", "error": "unknown backend_id \"gone\"",
                "rollout_mode": "enforce"}"#
        )
    );
}

#[test]
fn marks_tell_of_requests_and_fallbacks() {
    let mark = mark_requested(RoutingMode::Enforce, &request());
    assert_eq!(
        shown(&mark),
        (
            "switchyard.routing.requested".to_string(),
            value(
                r#"{"session_id": "s", "request_id": "r", "routing_attempt": 1, "profile_id": "profile",
                    "rollout_mode": "enforce"}"#
            ),
            value(r#"{"session_id": "s", "request_id": "r", "turn_id": "t", "owner_id": null}"#)
        )
    );
    let mark = mark_fallback(
        &config(),
        WireProtocol::OpenaiChat,
        FallbackReason::RetryExhausted.label(),
        &call(r#"{"x-nemo-relay-owner-id": "o"}"#, "{}"),
    );
    assert_eq!(
        shown(&mark),
        (
            "switchyard.routing.fallback".to_string(),
            value(
                r#"{"fallback_reason": "retry_exhausted", "fallback_route": "chat", "inbound_profile": "openai_chat",
                    "rollout_mode": "enforce"}"#
            ),
            value(r#"{"session_id": null, "request_id": null, "turn_id": null, "owner_id": "o"}"#)
        )
    );
}

#[test]
fn routing_begins_by_mode_and_portability() {
    assert_eq!(attempt_limit(&config()), 4);
    match begin(&config(), WireProtocol::OpenaiChat, &Ok(())) {
        Start::Route(run) => {
            assert_eq!(run.attempt, 1);
            assert_eq!(run.max_attempts, 4);
            assert!(run.previous.is_none());
        }
        _ => panic!("a first attempt is made"),
    }
    match begin(&config(), WireProtocol::OpenaiChat, &Err("audio".to_string())) {
        Start::Reject(mark) => assert_eq!(
            shown(&mark),
            (
                "switchyard.routing.error".to_string(),
                value(
                    r#"{"routing_attempt": 0, "error_class": "unsupported_provider_extension", "error": "audio",
                        "rollout_mode": "enforce"}"#
                ),
                value("{}")
            )
        ),
        _ => panic!("the call is not portable"),
    }
    let mut observing = config();
    observing.mode = RoutingMode::ObserveOnly;
    assert!(matches!(begin(&observing, WireProtocol::OpenaiChat, &Ok(())), Start::Observe));
    let mut endless = config();
    endless.max_retries = u32::MAX;
    assert_eq!(attempt_limit(&endless), u32::MAX);
}

#[test]
fn a_missing_decision_ends_in_the_fallback() {
    let runtime = runtime();
    match runtime.after_decision(&run(2), &Err("down".to_string())) {
        DecisionStep::Fallback(mark) => assert_eq!(
            shown(&mark).1,
            value(r#"{"routing_attempt": 2, "error_class": "decision_api", "error": "down", "rollout_mode": "enforce"}"#)
        ),
        _ => panic!("the trusted target serves the call"),
    }
    assert!(matches!(
        runtime.after_decision(&run(2), &Ok(decision())),
        DecisionStep::Dispatch(WireProtocol::OpenaiChat)
    ));
    let mut odd = decision();
    odd.route.target_protocol_profile = "gemini".to_string();
    match runtime.after_decision(&run(2), &Ok(odd)) {
        DecisionStep::Fail(error) => assert_eq!(invalid(error), "unsupported Switchyard target protocol \"gemini\""),
        _ => panic!("the call fails"),
    }
    let (mark, contribution) = runtime.after_observation(&Err("down".to_string()));
    assert_eq!(shown(&mark.unwrap()).1["routing_attempt"], value("1"));
    assert!(contribution.is_none());
    let (mark, _) = runtime.after_observation(&Ok(decision()));
    assert!(mark.is_none());
}

#[test]
fn failures_that_may_mend_are_tried_again() {
    let runtime = runtime();
    let busy = upstream(UpstreamFailureClass::RetryableStatus, Some(429), true);
    let step = runtime.after_response(&run(3), &request(), &decision(), &Err(busy.clone()));
    assert_eq!(step.marks.len(), 2);
    assert_eq!(
        shown(&step.marks[0]).1,
        value(
            r#"{"routing_attempt": 3, "error_class": "provider", "error": "retryable_status:http_429",
                "rollout_mode": "enforce"}"#
        )
    );
    assert_eq!(
        shown(&step.marks[1]),
        (
            "switchyard.routing.retry".to_string(),
            value(
                r#"{"routing_attempt": 3, "previous_route": "chat", "retry_reason": "retryable_status:http_429",
                    "rollout_mode": "enforce"}"#
            ),
            value(r#"{"session_id": "s", "request_id": "r", "turn_id": "t", "owner_id": null}"#)
        )
    );
    match step.next {
        Next::Retry(next) => {
            assert_eq!(next.attempt, 4);
            assert_eq!(
                next.previous,
                Some(("chat".to_string(), "retryable_status:http_429".to_string()))
            );
        }
        _ => panic!("another attempt is made"),
    }
    let step = runtime.after_stream_setup(&run(4), &request(), &decision(), &Err(busy));
    assert_eq!(step.marks.len(), 1);
    assert_eq!(shown(&step.marks[0]).1["error_class"], value(r#""provider_stream_setup""#));
    assert!(matches!(step.next, Next::Fallback(FallbackReason::RetryExhausted)));
}

#[test]
fn hopeless_failures_go_to_the_fallback() {
    let runtime = runtime();
    let denied = upstream(UpstreamFailureClass::Authentication, Some(401), false);
    let (step, contribution) = runtime.after_first_item(&run(1), &request(), &decision(), &FirstItem::Failed(denied));
    assert!(contribution.is_none());
    assert_eq!(step.marks.len(), 1);
    assert_eq!(shown(&step.marks[0]).1["error_class"], value(r#""provider_stream_open""#));
    assert!(matches!(step.next, Next::Fallback(FallbackReason::NonRetryableProviderError)));
}

#[test]
fn answers_are_served_and_broken_ones_are_not() {
    let runtime = runtime();
    assert!(matches!(
        runtime.after_response(&run(1), &request(), &decision(), &Ok(())).next,
        Next::Proceed
    ));
    let mut with_baseline = decision();
    with_baseline.baseline_route = Some(route("messages", "sonata", "anthropic_messages", "/v1/messages"));
    let (step, contribution) = runtime.after_translation(&run(1), &request(), &with_baseline, &Ok(()));
    assert!(matches!(step.next, Next::Proceed));
    assert!(contribution.unwrap().applied);
    let (step, contribution) =
        runtime.after_translation(&run(1), &request(), &with_baseline, &Err("odd".to_string()));
    assert!(contribution.is_none());
    assert!(matches!(step.next, Next::Fallback(FallbackReason::TranslationError)));
    assert_eq!(shown(&step.marks[0]).1["error_class"], value(r#""response_translation""#));
}

#[test]
fn an_empty_stream_is_tried_again_up_to_the_limit() {
    let runtime = runtime();
    let (step, _) = runtime.after_first_item(&run(3), &request(), &decision(), &FirstItem::Ended);
    assert_eq!(step.marks.len(), 1);
    assert_eq!(shown(&step.marks[0]).1["retry_reason"], value(r#""empty_stream""#));
    assert!(matches!(step.next, Next::Retry(_)));
    let (step, _) = runtime.after_first_item(&run(4), &request(), &decision(), &FirstItem::Ended);
    assert!(step.marks.is_empty());
    assert!(matches!(step.next, Next::Fallback(FallbackReason::EmptyStream)));
    let (step, _) = runtime.after_first_item(&run(4), &request(), &decision(), &FirstItem::Chunk(Json::Null));
    assert!(matches!(step.next, Next::Proceed));
}

/// The course of a call, as the actions it takes, where the service and the provider answer by `answer`.
fn course(
    runtime: &SwitchyardRuntime,
    streaming: bool,
    answer: fn(&CallAction, &CallState, bool) -> CallEvent,
) -> (Vec<&'static str>, CallStep) {
    let mut step = runtime.begin_call(WireProtocol::OpenaiChat, &Ok(()));
    let mut actions = Vec::new();
    loop {
        actions.push(match &step.action {
            CallAction::Decide => "decide",
            CallAction::Dispatch(_) => "dispatch",
            CallAction::Translate { .. } => "translate",
            CallAction::ReadFirst => "read",
            CallAction::Serve(_) => "serve",
            CallAction::Stream(_) => "stream",
            CallAction::Trust(_) => "trust",
            CallAction::Fail(_) => "fail",
        });
        let state = match step.state.take() {
            Some(state) => state,
            None => return (actions, step),
        };
        let event = answer(&step.action, &state, streaming);
        step = runtime.advance_call(streaming, state, event);
    }
}

fn well(action: &CallAction, _: &CallState, streaming: bool) -> CallEvent {
    match action {
        CallAction::Decide => CallEvent::Decided(Ok(Decided {
            request: request(),
            decision: decision(),
            routed: call("{}", r#"{"model": "gpt"}"#),
        })),
        CallAction::Dispatch(routed) => {
            assert_eq!(routed.content.text_at("model"), Some("gpt"));
            if streaming {
                CallEvent::Opened(Ok(()))
            } else {
                CallEvent::Answered(Ok(json(r#"{"answer": 1}"#)))
            }
        }
        CallAction::Translate { target, response } => {
            assert_eq!(*target, WireProtocol::OpenaiChat);
            assert_eq!(response.to_value(), value(r#"{"answer": 1}"#));
            CallEvent::Translated(Ok(json(r#"{"translated": 1}"#)))
        }
        _ => CallEvent::First(FirstItem::Chunk(json("1"))),
    }
}

#[test]
fn a_call_runs_its_course() {
    let runtime = runtime();
    let (actions, end) = course(&runtime, false, well);
    assert_eq!(actions, ["decide", "dispatch", "translate", "serve"]);
    match end.action {
        CallAction::Serve(answer) => assert_eq!(answer.to_value(), value(r#"{"translated": 1}"#)),
        action => panic!("{action:?}"),
    }
    let (actions, end) = course(&runtime, true, well);
    assert_eq!(actions, ["decide", "dispatch", "read", "stream"]);
    match end.action {
        CallAction::Stream(served) => {
            assert_eq!(served.first.to_value(), value("1"));
            assert_eq!(served.target, WireProtocol::OpenaiChat);
            assert!(!served.translate);
            assert_eq!(served.model, "gpt");
            assert_eq!(served.watch.phase, "provider_stream_committed");
            assert_eq!(
                served.watch.metadata.to_value(),
                value(r#"{"session_id": "s", "request_id": "r", "turn_id": "t", "owner_id": null}"#)
            );
        }
        action => panic!("{action:?}"),
    }
}

#[test]
fn a_stream_of_another_protocol_is_translated() {
    let runtime = runtime();
    let (_, end) = course(&runtime, true, |action, state, streaming| match action {
        CallAction::Decide => {
            let mut decision = decision();
            decision.route = route("messages", "sonata", "anthropic_messages", "/v1/messages");
            CallEvent::Decided(Ok(Decided {
                request: request(),
                decision,
                routed: call("{}", r#"{"model": "gpt"}"#),
            }))
        }
        _ => well(action, state, streaming),
    });
    match end.action {
        CallAction::Stream(served) => {
            assert!(served.translate);
            assert_eq!(served.target, WireProtocol::AnthropicMessages);
            assert_eq!(served.model, "sonata");
        }
        action => panic!("{action:?}"),
    }
}

#[test]
fn the_trusted_target_gets_the_call() {
    let runtime = runtime();
    let original = call(r#"{"x-nemo-relay-session-id": "s"}"#, r#"{"messages": []}"#);
    let fallback = runtime.begin_fallback(
        WireProtocol::OpenaiChat,
        original,
        untranslated(),
        FallbackReason::RetryExhausted,
    );
    assert_eq!(shown(&fallback.mark).0, "switchyard.routing.fallback");
    assert_eq!(fallback.mark.data_schema().name, "switchyard.routing_mark");
    assert_eq!(fallback.mark.data_schema().version, "1");
    assert_eq!(fallback.watch.phase, "fallback_stream");
    assert_eq!(fallback.watch.metadata.text_at("session_id"), Some("s"));
    assert_eq!(fallback.call.unwrap().content.text_at("model"), Some("gpt"));
    let mut bare = self::runtime();
    bare.config.default_targets.openai_chat = "gone".to_string();
    let fallback = bare.begin_fallback(
        WireProtocol::OpenaiChat,
        call("{}", "{}"),
        untranslated(),
        FallbackReason::EmptyStream,
    );
    assert!(matches!(fallback.call, Err(FlowError::Internal(error)) if error == "unknown fallback target \"gone\""));
}

#[test]
fn a_call_is_tried_up_to_its_limit() {
    let runtime = runtime();
    let (actions, end) = course(&runtime, true, |action, state, streaming| match action {
        CallAction::ReadFirst => CallEvent::First(FirstItem::Ended),
        _ => well(action, state, streaming),
    });
    assert_eq!(actions, ["decide", "dispatch", "read"].repeat(4).into_iter().chain(["trust"]).collect::<Vec<_>>());
    assert!(matches!(end.action, CallAction::Trust(FallbackReason::EmptyStream)));
    let (actions, end) = course(&runtime, false, |action, state, streaming| match (action, state) {
        (CallAction::Dispatch(_), CallState::Dispatching(call)) if call.run.attempt < 3 => CallEvent::Answered(Err(
            upstream(UpstreamFailureClass::RetryableStatus, Some(503), true),
        )),
        (CallAction::Dispatch(_), _) => CallEvent::Answered(Err(upstream(
            UpstreamFailureClass::Authentication,
            Some(401),
            false,
        ))),
        _ => well(action, state, streaming),
    });
    assert_eq!(actions, ["decide", "dispatch", "decide", "dispatch", "decide", "dispatch", "trust"]);
    assert!(matches!(end.action, CallAction::Trust(FallbackReason::NonRetryableProviderError)));
    assert_eq!(shown(&end.marks[0]).1["routing_attempt"], value("3"));
}

#[test]
fn a_call_that_cannot_be_routed_ends_at_once() {
    let runtime = runtime();
    let step = runtime.begin_call(WireProtocol::OpenaiChat, &Err("audio".to_string()));
    assert!(step.state.is_none());
    assert!(matches!(step.action, CallAction::Trust(FallbackReason::UnsupportedProviderExtension)));
    assert_eq!(shown(&step.marks[0]).1["error"], value(r#""audio""#));
    let (actions, end) = course(&runtime, false, |_, _, _| CallEvent::Decided(Err("down".to_string())));
    assert_eq!(actions, ["decide", "trust"]);
    assert!(matches!(end.action, CallAction::Trust(FallbackReason::DecisionError)));
    let (actions, end) = course(&runtime, false, |action, state, streaming| match action {
        CallAction::Translate { .. } => CallEvent::Translated(Err("odd".to_string())),
        _ => well(action, state, streaming),
    });
    assert_eq!(actions, ["decide", "dispatch", "translate", "trust"]);
    assert!(matches!(end.action, CallAction::Trust(FallbackReason::TranslationError)));
    let (actions, end) = course(&runtime, false, |_, _, _| {
        let mut odd = decision();
        odd.route.target_protocol_profile = "gemini".to_string();
        CallEvent::Decided(Ok(Decided {
            request: request(),
            decision: odd,
            routed: call("{}", "{}"),
        }))
    });
    assert_eq!(actions, ["decide", "fail"]);
    assert!(matches!(end.action, CallAction::Fail(error) if invalid(error.clone()) == "unsupported Switchyard target protocol \"gemini\""));
}

#[test]
fn an_observed_decision_changes_nothing_of_the_call() {
    let mut observing = config();
    observing.mode = RoutingMode::ObserveOnly;
    let runtime = SwitchyardRuntime::new(observing, &StringMap::new()).unwrap();
    let (actions, end) = course(&runtime, false, well);
    assert_eq!(actions, ["decide", "trust"]);
    assert!(matches!(end.action, CallAction::Trust(FallbackReason::ObserveOnly)));
    assert!(end.marks.is_empty());
}

#[test]
fn a_call_is_put_into_the_protocol_of_its_target() {
    let runtime = runtime();
    assert_eq!(runtime.protocol_for(WireProtocol::OpenaiChat, "messages"), WireProtocol::AnthropicMessages);
    assert_eq!(runtime.protocol_for(WireProtocol::OpenaiChat, "unknown"), WireProtocol::OpenaiChat);
    assert_eq!(runtime.fallback_protocol(WireProtocol::AnthropicMessages), WireProtocol::AnthropicMessages);
}

#[test]
fn a_failed_fallback_leaves_a_terminal_mark() {
    let error = upstream(UpstreamFailureClass::Timeout, None, true);
    let mark = runtime().after_failed_fallback(true, &error, json(r#"{"session_id": "s"}"#));
    assert_eq!(
        shown(&mark),
        (
            "switchyard.routing.terminal_error".to_string(),
            value(
                r#"{"error_class": "timeout", "error": "timeout", "phase": "fallback_stream_setup",
                    "rollout_mode": "enforce"}"#
            ),
            value(r#"{"session_id": "s"}"#)
        )
    );
    let mark = runtime().after_failed_fallback(false, &error, json("{}"));
    assert_eq!(shown(&mark).1["phase"], value(r#""fallback_buffered""#));
}

#[test]
fn chunks_beyond_translation_are_refused() {
    let refused = |protocol, text: &str| unsupported_stream_chunk(protocol, &json(text));
    let chat = WireProtocol::OpenaiChat;
    assert!(refused(chat, r#"{"choices": [{"delta": {}}, {"delta": {"audio": 1}}]}"#));
    assert!(refused(chat, r#"{"choices": [{"delta": {"reasoning_content": null}}]}"#));
    assert!(!refused(chat, r#"{"choices": [{"delta": {"content": "x"}}]}"#));
    assert!(!refused(chat, r#"{"choices": 1}"#));
    let responses = WireProtocol::OpenaiResponses;
    assert!(refused(responses, r#"{"type": "response.output_item.added", "item": {"type": "reasoning"}}"#));
    assert!(refused(responses, r#"{"type": "response.output_item.added", "item": {"type": "computer_call"}}"#));
    assert!(refused(responses, r#"{"type": "response.output_item.added", "item": {"type": "web_search_call"}}"#));
    assert!(!refused(responses, r#"{"type": "response.output_item.added", "item": {"type": "message"}}"#));
    assert!(!refused(responses, r#"{"type": "response.done", "item": {"type": "reasoning"}}"#));
    let messages = WireProtocol::AnthropicMessages;
    assert!(refused(messages, r#"{"type": "content_block_start", "content_block": {"type": "thinking"}}"#));
    assert!(refused(messages, r#"{"type": "content_block_start"}"#));
    assert!(!refused(messages, r#"{"type": "content_block_start", "content_block": {"type": "text"}}"#));
    assert!(!refused(messages, r#"{"type": "content_block_start", "content_block": {"type": "tool_use"}}"#));
    assert!(!refused(messages, "3"));
    assert_eq!(
        invalid(check_chunk(messages, &json(r#"{"type": "content_block_start"}"#)).unwrap_err()),
        "provider-specific streaming extension cannot be translated safely"
    );
    check_chunk(messages, &json("{}")).unwrap();
}

#[test]
fn a_stream_fails_in_the_words_of_its_translation() {
    match transcoded(Err("x".to_string())) {
        StreamOutput::Failed(error) => assert_eq!(invalid(error), "Switchyard stream translation failed: x"),
        _ => panic!("the chunk failed"),
    }
    match finished(Err("x".to_string())) {
        StreamOutput::Failed(error) => assert_eq!(invalid(error), "Switchyard stream finalization failed: x"),
        _ => panic!("the end failed"),
    }
    match transcoded(Ok(vec![Json::Null])) {
        StreamOutput::Chunks(chunks) => assert_eq!(chunks.len(), 1),
        _ => panic!("the chunk was translated"),
    }
}

#[test]
fn a_watched_stream_ends_with_its_first_failure() {
    let watch = Watch {
        phase: "fallback_stream",
        mode: RoutingMode::ObserveOnly,
        metadata: json("{}"),
    };
    let watched = watch.watch_item(StreamItem::Chunk(json("7")));
    assert!(watched.mark.is_none() && watched.goes_on);
    assert_eq!(watched.handed_on.unwrap().unwrap().to_value(), value("7"));
    let watched = watch.watch_item(StreamItem::Failed(FlowError::Relay("gone".to_string())));
    assert!(!watched.goes_on);
    assert!(matches!(watched.handed_on, Some(Err(FlowError::Relay(words))) if words == "gone"));
    assert_eq!(
        shown(&watched.mark.unwrap()).1,
        value(
            r#"{"error_class": "relay", "error": "gone", "phase": "fallback_stream", "rollout_mode": "observe_only"}"#
        )
    );
    let watched = watch.watch_item(StreamItem::Ended);
    assert!(watched.mark.is_none() && watched.handed_on.is_none() && !watched.goes_on);
}
