use relay_core::ordered::StringMap;
use relay_core::otel::attributes::{
    apply_attribute_mappings, attribute_mapping_aliases, push_optimization_attributes, Attribute, AttributeValue,
    CostSummary, LlmOptimizationSummary, OtlpAttributeMapping,
};
use relay_core::otel::config::{
    default_mark_exclude_names, effective_mark_projection, plan_exporter, resource_attributes, ExportMode,
    MarkProjection, OpenTelemetryConfig, OpenTelemetryError, OpenTelemetrySubscriberOptions, OtlpTransport,
};
use relay_core::otel::event::{
    common_attributes, cost_from_llm_event, end_attributes, mark_attributes, payload_prefix, scope_type_name, span_kind,
    start_attributes, to_system_time, CostSources, Event, EventPhase, Payload, ScopeType, SpanKind, Timestamp,
};
use relay_core::otel::metadata::build_grpc_metadata;
use relay_core::otel::spans::{
    attribute_mapping_inputs, local_parent_span_context, MarkPlan, SpanContext, SpanTracker,
    COMPLETED_SPAN_CONTEXT_LIMIT,
};
use std::time::Duration;

fn shown(attributes: &[Attribute]) -> Vec<(String, String)> {
    attributes
        .iter()
        .map(|attribute| {
            let value = match &attribute.value {
                AttributeValue::Text(text) => text.clone(),
                AttributeValue::Int(n) => format!("{n}"),
                AttributeValue::Bool(b) => format!("{b}"),
                AttributeValue::Double(bits) => format!("{:?}", f64::from_bits(*bits)),
            };
            (attribute.key.clone(), value)
        })
        .collect()
}

fn pairs(list: &[(&str, &str)]) -> Vec<(String, String)> {
    list.iter().map(|(k, v)| (k.to_string(), v.to_string())).collect()
}

fn text(key: &str, value: &str) -> Attribute {
    Attribute {
        key: key.to_string(),
        value: AttributeValue::Text(value.to_string()),
    }
}

fn cost(total: Option<f64>) -> CostSummary {
    CostSummary {
        total: total.map(f64::to_bits),
        currency: "USD".to_string(),
        pricing_source: None,
        pricing_as_of: None,
    }
}

fn no_cost() -> CostSources {
    CostSources {
        reported: None,
        estimated: None,
        manual: None,
        manual_estimated: None,
    }
}

fn event(phase: EventPhase, uuid: u128, parent: Option<u128>) -> Event {
    Event {
        phase,
        uuid,
        parent_uuid: parent,
        name: "step".to_string(),
        timestamp: Timestamp {
            seconds: 7,
            nanos: 5,
        },
        scope_type: Some(ScopeType::Llm),
        category: Some("llm".to_string()),
        model_name: Some("gpt".to_string()),
        tool_call_id: Some("call".to_string()),
        attributes: vec![text("a", "1")],
        data: vec![text("d", "2")],
        metadata: vec![text("m", "3")],
        input: vec![text("i", "4")],
        output: vec![text("o", "5")],
        category_profile: vec![text("p", "6")],
        cost: no_cost(),
        optimization: None,
    }
}

fn context(span_id: u64) -> SpanContext {
    SpanContext {
        trace_id: 9,
        span_id,
        trace_flags: 1,
        is_remote: true,
        trace_state: "k=v".to_string(),
    }
}

fn local(span_id: u64) -> SpanContext {
    SpanContext {
        is_remote: false,
        ..context(span_id)
    }
}

#[test]
fn a_configuration_starts_plain() {
    let config = OpenTelemetryConfig::default();
    assert_eq!(config.service_name, "nemo-relay");
    assert_eq!(config.instrumentation_scope, "nemo-relay-otel");
    assert_eq!(config.timeout, Duration::from_secs(3));
    assert!(matches!(config.transport, OtlpTransport::HttpBinary));
    assert!(matches!(config.mark_projection, MarkProjection::Event));
    assert_eq!(config.mark_exclude_names, vec!["llm.chunk"]);
    assert!(config.endpoint.is_none() && config.headers.is_empty() && config.attribute_mappings.is_empty());
    let options = OpenTelemetrySubscriberOptions::default();
    assert_eq!(options.mark_exclude_names, default_mark_exclude_names());
    assert!(options.attribute_mappings.is_empty());
}

#[test]
fn builders_change_what_they_name() {
    let config = OpenTelemetryConfig::grpc("svc")
        .with_endpoint("http://collector:4317")
        .with_header("authorization", "t")
        .with_header("authorization", "u")
        .with_resource_attribute("team", "relay")
        .with_timeout(Duration::from_millis(10))
        .with_service_namespace("ns")
        .with_service_version("1.2")
        .with_instrumentation_scope("scope")
        .with_mark_projection(MarkProjection::Tool)
        .with_mark_exclude_names(vec!["noise".to_string()])
        .with_attribute_mapping("a", "b")
        .with_attribute_mappings(vec![OtlpAttributeMapping::new("c", "d")]);
    assert!(matches!(config.transport, OtlpTransport::Grpc));
    assert_eq!(config.service_name, "svc");
    assert_eq!(config.endpoint.as_deref(), Some("http://collector:4317"));
    assert_eq!(config.headers.get("authorization").unwrap(), "u");
    assert_eq!(config.resource_attributes.get("team").unwrap(), "relay");
    assert_eq!(config.timeout, Duration::from_millis(10));
    assert_eq!(config.service_namespace.as_deref(), Some("ns"));
    assert_eq!(config.service_version.as_deref(), Some("1.2"));
    assert_eq!(config.instrumentation_scope, "scope");
    assert!(matches!(config.mark_projection, MarkProjection::Tool));
    assert_eq!(config.mark_exclude_names, vec!["noise"]);
    assert!(config.attribute_mappings.iter().any(|m| m.key == "c" && m.alias == "d"));
    assert_eq!(
        shown(&resource_attributes(&config)),
        pairs(&[
            ("service.name", "svc"),
            ("service.namespace", "ns"),
            ("service.version", "1.2"),
            ("team", "relay")
        ])
    );
    let config = OpenTelemetryConfig::http_binary("svc");
    assert!(matches!(config.transport, OtlpTransport::HttpBinary));
    assert_eq!(shown(&resource_attributes(&config)), pairs(&[("service.name", "svc")]));
}

#[test]
fn an_exporter_is_planned_from_its_configuration() {
    let config = OpenTelemetryConfig::http_binary("svc").with_header("a", "b");
    let plan = plan_exporter(&config, true, Ok(())).unwrap();
    assert!(plan.has_headers && plan.endpoint.is_none());
    assert!(matches!(plan.mode, ExportMode::Batch));
    assert!(matches!(plan.transport, OtlpTransport::HttpBinary));
    assert_eq!(plan.timeout, config.timeout);
    assert_eq!(plan.max_attributes_per_span, u32::MAX);
    assert_eq!(plan.max_attributes_per_event, u32::MAX);
    let plan = plan_exporter(&config, false, Ok(())).unwrap();
    assert!(matches!(plan.mode, ExportMode::Simple));
    let grpc = OpenTelemetryConfig::grpc("svc");
    assert!(matches!(
        plan_exporter(&grpc, false, Ok(())),
        Err(OpenTelemetryError::MissingTokioRuntime)
    ));
    assert!(!plan_exporter(&grpc, true, Ok(())).unwrap().has_headers);
    match plan_exporter(&config, true, Err("twice".to_string())) {
        Err(OpenTelemetryError::InvalidAttributeMappings(message)) => assert_eq!(message, "twice"),
        _ => panic!("the mappings are wrong"),
    }
}

#[test]
fn errors_speak_for_themselves() {
    let header = OpenTelemetryError::InvalidGrpcHeader {
        key: "k".to_string(),
        message: "m".to_string(),
    };
    assert_eq!(header.message(), "invalid OTLP gRPC header \"k\": m");
    assert_eq!(
        OpenTelemetryError::MissingTokioRuntime.message(),
        "the OTLP gRPC exporter requires an active Tokio runtime"
    );
    assert_eq!(
        OpenTelemetryError::ExporterBuild("x".to_string()).message(),
        "failed to build the OTLP exporter: x"
    );
    assert_eq!(
        OpenTelemetryError::Provider("y".to_string()).message(),
        "OpenTelemetry tracer provider error: y"
    );
    assert_eq!(
        OpenTelemetryError::InvalidAttributeMappings("z".to_string()).message(),
        "invalid attribute mappings: z"
    );
    assert_eq!(OpenTelemetryError::Core("w".to_string()).message(), "w");
}

#[test]
fn grpc_headers_become_metadata() {
    let mut headers: StringMap<String> = StringMap::new();
    headers.insert("Authorization".to_string(), "Bearer t".to_string());
    headers.insert("x-team".to_string(), "relay".to_string());
    let metadata = build_grpc_metadata(&headers).unwrap();
    assert_eq!(metadata.len(), 2);
    assert_eq!(metadata.get("authorization").unwrap(), "Bearer t");
    let mut headers: StringMap<String> = StringMap::new();
    headers.insert("bad key".to_string(), "v".to_string());
    match build_grpc_metadata(&headers) {
        Err(OpenTelemetryError::InvalidGrpcHeader { key, .. }) => assert_eq!(key, "bad key"),
        _ => panic!("the key is wrong"),
    }
    let mut headers: StringMap<String> = StringMap::new();
    headers.insert("k".to_string(), "a\nb".to_string());
    match build_grpc_metadata(&headers) {
        Err(OpenTelemetryError::InvalidGrpcHeader { key, .. }) => assert_eq!(key, "k"),
        _ => panic!("the value is wrong"),
    }
}

#[test]
fn excluded_marks_stay_events() {
    let excluded = default_mark_exclude_names();
    assert!(matches!(
        effective_mark_projection("llm.chunk", MarkProjection::Tool, &excluded),
        MarkProjection::Event
    ));
    assert!(matches!(
        effective_mark_projection("other", MarkProjection::Tool, &excluded),
        MarkProjection::Tool
    ));
}

#[test]
fn scopes_have_kinds_and_names() {
    for (scope, name, client) in [
        (Some(ScopeType::Agent), "agent", false),
        (Some(ScopeType::Function), "function", false),
        (Some(ScopeType::Tool), "tool", true),
        (Some(ScopeType::Llm), "llm", true),
        (Some(ScopeType::Retriever), "retriever", true),
        (Some(ScopeType::Embedder), "embedder", true),
        (Some(ScopeType::Reranker), "reranker", true),
        (Some(ScopeType::Guardrail), "guardrail", false),
        (Some(ScopeType::Evaluator), "evaluator", false),
        (Some(ScopeType::Custom), "custom", false),
        (Some(ScopeType::Unknown), "unknown", false),
        (None, "unknown", false),
    ] {
        let mut e = event(EventPhase::Start, 1, None);
        e.scope_type = scope;
        assert_eq!(scope_type_name(scope), name);
        assert_eq!(matches!(span_kind(&e), SpanKind::Client), client, "{name}");
    }
}

#[test]
fn a_started_span_tells_who_it_is() {
    let e = event(EventPhase::Start, 0x0123456789abcdef0123456789abcdef, Some(1));
    let common = pairs(&[
        ("nemo_relay.uuid", "01234567-89ab-cdef-0123-456789abcdef"),
        ("nemo_relay.parent_uuid", "00000000-0000-0000-0000-000000000001"),
        ("nemo_relay.scope_type", "llm"),
        ("nemo_relay.model_name", "gpt"),
        ("nemo_relay.tool_call_id", "call"),
    ]);
    assert_eq!(shown(&common_attributes(&e)), common);
    let mut all = common;
    all.extend(pairs(&[("a", "1"), ("d", "2"), ("m", "3"), ("i", "4")]));
    assert_eq!(shown(&start_attributes(&e)), all);
    let mut bare = event(EventPhase::Start, 1, None);
    bare.model_name = None;
    bare.tool_call_id = None;
    assert_eq!(
        shown(&common_attributes(&bare))[1..],
        pairs(&[("nemo_relay.parent_uuid", ""), ("nemo_relay.scope_type", "llm")])[..]
    );
}

#[test]
fn payloads_are_projected_under_their_phase() {
    assert_eq!(payload_prefix(EventPhase::Start, Payload::Attributes), Some("nemo_relay.handle_attributes"));
    assert_eq!(payload_prefix(EventPhase::Start, Payload::Data), Some("nemo_relay.start.data"));
    assert_eq!(payload_prefix(EventPhase::Start, Payload::Input), Some("nemo_relay.start.input"));
    assert_eq!(payload_prefix(EventPhase::Start, Payload::Output), None);
    assert_eq!(payload_prefix(EventPhase::End, Payload::Metadata), Some("nemo_relay.end.metadata"));
    assert_eq!(payload_prefix(EventPhase::End, Payload::Output), Some("nemo_relay.end.output"));
    assert_eq!(payload_prefix(EventPhase::End, Payload::Input), None);
    assert_eq!(payload_prefix(EventPhase::Mark, Payload::Attributes), Some("nemo_relay.mark.attributes"));
    assert_eq!(
        payload_prefix(EventPhase::Mark, Payload::CategoryProfile),
        Some("nemo_relay.mark.category_profile")
    );
}

#[test]
fn costs_are_taken_from_the_best_source() {
    let half = 0.5f64.to_bits();
    assert!(cost_from_llm_event(&no_cost()).is_none());
    let mut sources = no_cost();
    sources.manual_estimated = Some(cost(Some(0.5)));
    assert_eq!(cost_from_llm_event(&sources), Some((half, "USD".to_string())));
    sources.manual = Some((0.25f64.to_bits(), "EUR".to_string()));
    assert_eq!(cost_from_llm_event(&sources), Some((0.25f64.to_bits(), "EUR".to_string())));
    sources.estimated = Some(cost(Some(2.0)));
    assert_eq!(cost_from_llm_event(&sources), Some((2.0f64.to_bits(), "USD".to_string())));
    sources.reported = Some(cost(None));
    assert_eq!(cost_from_llm_event(&sources), None);
}

#[test]
fn an_ended_span_tells_its_cost() {
    let mut e = event(EventPhase::End, 1, None);
    e.cost.reported = Some(cost(Some(1.5)));
    assert_eq!(
        shown(&end_attributes(&e)),
        pairs(&[
            ("d", "2"),
            ("m", "3"),
            ("o", "5"),
            ("nemo_relay.llm.cost.total", "1.5"),
            ("nemo_relay.llm.cost.currency", "USD")
        ])
    );
    e.category = Some("tool".to_string());
    assert_eq!(shown(&end_attributes(&e)), pairs(&[("d", "2"), ("m", "3"), ("o", "5")]));
}

#[test]
fn a_mark_tells_its_category() {
    assert_eq!(
        shown(&mark_attributes(&event(EventPhase::Mark, 2, None))),
        pairs(&[
            ("nemo_relay.mark.uuid", "00000000-0000-0000-0000-000000000002"),
            ("nemo_relay.mark.parent_uuid", ""),
            ("a", "1"),
            ("d", "2"),
            ("m", "3"),
            ("nemo_relay.mark.category", "llm"),
            ("p", "6")
        ])
    );
}

#[test]
fn savings_are_told_in_full() {
    let mut attributes = Vec::new();
    let mut baseline = cost(Some(2.0));
    baseline.pricing_as_of = Some("2026".to_string());
    let mut actual = cost(None);
    actual.pricing_source = Some("list".to_string());
    push_optimization_attributes(
        &mut attributes,
        &LlmOptimizationSummary {
            baseline_model: Some("big".to_string()),
            effective_model: Some("small".to_string()),
            prompt_tokens_saved: Some(u64::MAX),
            total_tokens_saved: Some(3),
            baseline_cost: Some(baseline),
            actual_cost: Some(actual),
            estimated_cost_saved: Some(0.5f64.to_bits()),
            currency: Some("USD".to_string()),
            complete: true,
        },
    );
    let prefix = "nemo_relay.llm.optimization.";
    let told: Vec<(String, String)> = shown(&attributes)
        .into_iter()
        .map(|(key, value)| (key.strip_prefix(prefix).unwrap().to_string(), value))
        .collect();
    assert_eq!(
        told,
        pairs(&[
            ("baseline_model", "big"),
            ("effective_model", "small"),
            ("prompt_tokens_saved", "9223372036854775807"),
            ("total_tokens_saved", "3"),
            ("baseline_cost", "2.0"),
            ("baseline_cost_currency", "USD"),
            ("baseline_pricing_as_of", "2026"),
            ("actual_cost_currency", "USD"),
            ("actual_pricing_source", "list"),
            ("estimated_cost_saved", "0.5"),
            ("estimated_cost_saved_currency", "USD"),
            ("currency", "USD"),
            ("status", "complete"),
            ("pricing_source", "list"),
            ("pricing_as_of", "2026"),
        ])
    );
}

#[test]
fn mappings_copy_the_latest_value() {
    let mappings = vec![
        OtlpAttributeMapping::new("a", "x"),
        OtlpAttributeMapping::new("missing", "y"),
    ];
    let mut attributes = vec![text("a", "1"), text("b", "2"), text("a", "3")];
    assert_eq!(
        shown(&attribute_mapping_aliases(&attributes, &mappings)),
        pairs(&[("x", "3")])
    );
    assert_eq!(
        shown(&attribute_mapping_inputs(&attributes, &mappings)),
        pairs(&[("a", "1"), ("a", "3")])
    );
    apply_attribute_mappings(&mut attributes, &mappings);
    assert_eq!(
        shown(&attributes),
        pairs(&[("a", "1"), ("b", "2"), ("a", "3"), ("x", "3")])
    );
}

#[test]
fn times_before_the_epoch_count_backwards() {
    let offset = |seconds, nanos| {
        let o = to_system_time(Timestamp { seconds, nanos });
        (o.before, o.seconds, o.nanos)
    };
    assert_eq!(offset(3, 4), (false, 3, 4));
    assert_eq!(offset(-3, 0), (true, 3, 0));
    assert_eq!(offset(-3, 250_000_000), (true, 2, 750_000_000));
}

fn tracker(projection: MarkProjection) -> SpanTracker {
    SpanTracker::new(
        projection,
        default_mark_exclude_names(),
        vec![OtlpAttributeMapping::new("i", "copied")],
    )
}

#[test]
fn a_span_opens_and_closes() {
    let mut tracker = tracker(MarkProjection::Event);
    let start = event(EventPhase::Start, 1, None);
    let plan = tracker.process_start(&start);
    assert_eq!(plan.name, "step");
    assert!(plan.parent.is_none());
    assert!(matches!(plan.kind, SpanKind::Client));
    assert_eq!((plan.start.before, plan.start.seconds, plan.start.nanos), (false, 7, 5));
    tracker.span_opened(1, &context(11), &plan.attributes);
    assert_eq!(
        tracker.parent_context(&event(EventPhase::Start, 2, Some(1))),
        Some(local(11))
    );
    let end = tracker.process_end(&event(EventPhase::End, 1, None)).unwrap();
    assert_eq!(
        shown(&end.attributes),
        pairs(&[("d", "2"), ("m", "3"), ("o", "5"), ("copied", "4")])
    );
    assert!(tracker.process_end(&event(EventPhase::End, 1, None)).is_none());
    assert_eq!(
        tracker.parent_context(&event(EventPhase::Start, 2, Some(1))),
        Some(local(11))
    );
    tracker.process_start(&start);
    assert!(tracker.parent_context(&event(EventPhase::Start, 2, Some(1))).is_none());
    assert_eq!(local_parent_span_context(&context(3)), local(3));
}

#[test]
fn marks_join_their_open_parent() {
    let mut tracker = tracker(MarkProjection::Event);
    let plan = tracker.process_start(&event(EventPhase::Start, 1, None));
    tracker.span_opened(1, &context(11), &plan.attributes);
    match tracker.process_mark(&event(EventPhase::Mark, 2, Some(1))) {
        MarkPlan::Event {
            span,
            name,
            attributes,
            ..
        } => {
            assert_eq!(span, 1);
            assert_eq!(name, "step");
            assert_eq!(attributes.len(), 7);
        }
        _ => panic!("the parent is open"),
    }
    match tracker.process_mark(&event(EventPhase::Mark, 2, Some(3))) {
        MarkPlan::Span {
            name,
            parent,
            attributes,
            ..
        } => {
            assert_eq!(name, "mark:step");
            assert!(parent.is_none());
            assert_eq!(shown(&attributes)[7], pairs(&[("nemo_relay.mark.orphan", "true")])[0]);
        }
        _ => panic!("there is no parent"),
    }
}

#[test]
fn marks_can_be_spans() {
    let mut tracker = tracker(MarkProjection::Tool);
    let plan = tracker.process_start(&event(EventPhase::Start, 1, None));
    tracker.span_opened(1, &context(11), &plan.attributes);
    match tracker.process_mark(&event(EventPhase::Mark, 2, Some(1))) {
        MarkPlan::Span {
            parent, attributes, ..
        } => {
            assert_eq!(parent, Some(local(11)));
            assert_eq!(
                shown(&attributes)[7..],
                pairs(&[("nemo_relay.mark.projection", "tool"), ("nemo_relay.scope_type", "tool")])[..]
            );
        }
        _ => panic!("the mark is a span"),
    }
    let mut chunk = event(EventPhase::Mark, 2, Some(1));
    chunk.name = "llm.chunk".to_string();
    assert!(matches!(tracker.process_mark(&chunk), MarkPlan::Event { .. }));
}

#[test]
fn only_so_many_closed_spans_stay_known() {
    let mut tracker = tracker(MarkProjection::Event);
    let limit = COMPLETED_SPAN_CONTEXT_LIMIT as u128;
    for uuid in 0..limit + 1 {
        tracker.record_completed_span_context(uuid, local(uuid as u64));
    }
    assert_eq!(tracker.completed_order.len(), COMPLETED_SPAN_CONTEXT_LIMIT);
    assert!(tracker.parent_context(&event(EventPhase::Start, 1, Some(0))).is_none());
    assert!(tracker.parent_context(&event(EventPhase::Start, 1, Some(1))).is_some());
    assert_eq!(
        tracker.parent_context(&event(EventPhase::Start, 1, Some(limit))),
        Some(local(limit as u64))
    );
    tracker.remove_completed_span_context(limit);
    assert!(tracker.parent_context(&event(EventPhase::Start, 1, Some(limit))).is_none());
}
