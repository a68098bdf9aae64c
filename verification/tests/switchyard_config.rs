use relay_core::json::{Json, JsonObject};
use relay_core::ordered::StringMap;
use relay_core::switchyard::atof::{
    find_component, validate_switchyard_atof_configuration, AtofEndpointDefaults, PluginComponentSpec, PluginConfig,
};
use relay_core::switchyard::config::{
    default_decision_timeout_millis, default_enabled_protocols, default_max_retries, default_recent_message_count,
    default_version, validate_atof_endpoint_name, validate_config, ContextMode, ProtocolDefaults, ProtocolSet,
    RequestMaterialization, RoutingMode, SwitchyardConfig, TargetBinding, WireProtocol, SWITCHYARD_PLUGIN_KIND,
};
use relay_core::switchyard::headers::{insert_http_header, resolve_headers, resolve_json_headers};
use relay_core::switchyard::libsy::{
    default_threshold_bits, libsy_routes, validate_libsy_config, DecisionBackend, LibsyAlgorithmKind,
    LibsyBackendConfig,
};
use relay_core::switchyard::plugin::{register_switchyard_component, validate, DiagnosticLevel, PluginError};
use relay_core::switchyard::request::SwitchyardRuntime;
use relay_core::switchyard::runtime::{check_health, health_url, reports_health, HealthAnswer};

fn map(pairs: &[(&str, &str)]) -> StringMap<String> {
    let mut result: StringMap<String> = StringMap::new();
    for (key, value) in pairs {
        result.insert(key.to_string(), value.to_string());
    }
    result
}

fn object(text: &str) -> JsonObject {
    match Json::from_json(text).unwrap() {
        Json::Object(object) => object,
        _ => panic!("not an object"),
    }
}

fn target(model: &str, protocol: WireProtocol, base_url: &str) -> TargetBinding {
    TargetBinding {
        model: model.to_string(),
        protocol,
        endpoint: protocol.endpoint().to_string(),
        base_url: base_url.to_string(),
        headers: map(&[]),
        header_env: map(&[]),
    }
}

fn valid() -> SwitchyardConfig {
    let mut config = SwitchyardConfig::default();
    config.decision_profile_id = "profile".to_string();
    config.targets.insert("chat".to_string(), target("gpt", WireProtocol::OpenaiChat, "http://a/v1"));
    config.targets.insert("responses".to_string(), target("gpt", WireProtocol::OpenaiResponses, "http://a/v1"));
    config.targets.insert("messages".to_string(), target("sonata", WireProtocol::AnthropicMessages, "https://b"));
    config.default_targets = ProtocolDefaults {
        openai_chat: "chat".to_string(),
        openai_responses: "responses".to_string(),
        anthropic_messages: "messages".to_string(),
    };
    config
}

fn refusal(change: impl FnOnce(&mut SwitchyardConfig)) -> String {
    let mut config = valid();
    change(&mut config);
    validate_config(&config).unwrap_err()
}

#[test]
fn names_and_defaults_are_stable() {
    assert_eq!(SWITCHYARD_PLUGIN_KIND, "switchyard");
    assert_eq!(WireProtocol::OpenaiChat.label(), "openai_chat");
    assert_eq!(WireProtocol::OpenaiResponses.label(), "openai_responses");
    assert_eq!(WireProtocol::AnthropicMessages.label(), "anthropic_messages");
    assert_eq!(WireProtocol::OpenaiChat.endpoint(), "/v1/chat/completions");
    assert_eq!(WireProtocol::OpenaiResponses.endpoint(), "/v1/responses");
    assert_eq!(WireProtocol::AnthropicMessages.endpoint(), "/v1/messages");
    assert_eq!(RoutingMode::Enforce.label(), "enforce");
    assert_eq!(RoutingMode::ObserveOnly.label(), "observe_only");
    assert_eq!(DecisionBackend::Http.label(), "http");
    assert_eq!(DecisionBackend::Libsy.label(), "libsy");
    assert!(matches!(DecisionBackend::default(), DecisionBackend::Http));
    assert!(matches!(LibsyAlgorithmKind::default(), LibsyAlgorithmKind::LlmClassifier));
    assert_eq!(default_version(), 1);
    assert_eq!(default_decision_timeout_millis(), 25);
    assert_eq!(default_max_retries(), 3);
    assert_eq!(default_recent_message_count(), 8);
    assert!(default_enabled_protocols().contains(WireProtocol::OpenaiResponses));
    assert!(!default_enabled_protocols().is_empty());
    let config = SwitchyardConfig::default();
    assert_eq!(config.decision_api_url, "http://127.0.0.1:8080/v1/routing/decision");
    assert_eq!(config.mode, RoutingMode::Enforce);
    assert!(matches!(config.context_mode, ContextMode::PayloadOnly));
    assert!(matches!(config.request_materialization, RequestMaterialization::SummaryOnly));
    assert_eq!(config.priority, 0);
    assert!(config.atof_endpoint_name.is_none());
}

#[test]
fn a_sound_configuration_is_accepted() {
    validate_config(&valid()).unwrap();
    let config = valid();
    assert_eq!(config.default_targets.target(WireProtocol::AnthropicMessages), "messages");
}

#[test]
fn each_fault_of_a_configuration_is_named() {
    assert_eq!(refusal(|c| c.version = 2), "unsupported Switchyard config version 2");
    assert_eq!(
        refusal(|c| c.decision_profile_id = " ".to_string()),
        "decision_profile_id must be non-empty"
    );
    assert_eq!(
        refusal(|c| c.decision_timeout_millis = 0),
        "decision_timeout_millis must be greater than zero"
    );
    assert_eq!(refusal(|c| c.max_retries = 11), "max_retries must not exceed 10");
    assert_eq!(
        refusal(|c| c.recent_message_count = 0),
        "recent_message_count must be greater than zero"
    );
    assert_eq!(
        refusal(|c| c.atof_endpoint_name = Some("\t".to_string())),
        "atof_endpoint_name must be non-empty when configured"
    );
    assert_eq!(
        refusal(|c| c.atof_endpoint_name = Some("a ".to_string())),
        "atof_endpoint_name must not have leading or trailing whitespace"
    );
    assert_eq!(
        refusal(|c| c.context_mode = ContextMode::AtofRequired),
        "atof_required Switchyard profiles require atof_endpoint_name"
    );
    assert!(refusal(|c| c.decision_api_url = "no url".to_string()).starts_with("decision_api_url is invalid: "));
    assert_eq!(
        refusal(|c| c.decision_api_url = "ftp://a/b".to_string()),
        "decision_api_url must use http or https"
    );
    assert_eq!(refusal(|c| c.targets = StringMap::new()), "targets must not be empty");
    assert_eq!(
        refusal(|c| {
            c.enabled_inbound_profiles = ProtocolSet {
                openai_chat: false,
                openai_responses: false,
                anthropic_messages: false,
            }
        }),
        "enabled_inbound_profiles must not be empty"
    );
    assert_eq!(
        refusal(|c| c
            .targets
            .insert("x".to_string(), target(" ", WireProtocol::OpenaiChat, "http://x"))),
        "target IDs, models, and endpoints must be non-empty"
    );
    assert!(refusal(|c| c
        .targets
        .insert("x".to_string(), target("m", WireProtocol::OpenaiChat, "x y")))
    .starts_with("target \"x\" base_url is invalid: "));
    assert_eq!(
        refusal(|c| c
            .targets
            .insert("x".to_string(), target("m", WireProtocol::OpenaiChat, "file:///x"))),
        "target \"x\" base_url must use http or https"
    );
    assert_eq!(
        refusal(|c| {
            let mut wrong = target("m", WireProtocol::OpenaiChat, "http://x");
            wrong.endpoint = "/v1/messages".to_string();
            c.targets.insert("x".to_string(), wrong)
        }),
        "target \"x\" endpoint must be \"/v1/chat/completions\" for openai_chat"
    );
    assert_eq!(
        refusal(|c| c
            .targets
            .insert("x".to_string(), target("gpt", WireProtocol::OpenaiChat, "http://a/v1//"))),
        "target \"x\" conflicts with another exact backend binding"
    );
    assert_eq!(
        refusal(|c| c.default_targets.openai_responses = "none".to_string()),
        "default target \"none\" is not configured"
    );
    assert_eq!(
        refusal(|c| c.default_targets.anthropic_messages = "chat".to_string()),
        "default target \"chat\" must use protocol anthropic_messages"
    );
}

#[test]
fn only_enabled_protocols_need_a_fallback() {
    let mut config = valid();
    config.enabled_inbound_profiles.openai_responses = false;
    config.default_targets.openai_responses = "none".to_string();
    validate_config(&config).unwrap();
}

#[test]
fn an_endpoint_name_is_taken_as_it_is() {
    assert_eq!(validate_atof_endpoint_name(None).unwrap(), None);
    assert_eq!(validate_atof_endpoint_name(Some("history")).unwrap(), Some("history"));
}

#[test]
fn headers_come_from_the_configuration_and_the_environment() {
    let headers = resolve_headers(
        &map(&[("X-Static", "one")]),
        &map(&[("authorization", "TOKEN")]),
        &map(&[("TOKEN", "Bearer t")]),
    )
    .unwrap();
    assert_eq!(headers.len(), 2);
    assert_eq!(headers.get("x-static").unwrap(), "one");
    assert_eq!(headers.get("authorization").unwrap(), "Bearer t");

    let refused = |names: &[(&str, &str)], variables: &[(&str, &str)], environment: &[(&str, &str)]| {
        resolve_headers(&map(names), &map(variables), &map(environment)).unwrap_err()
    };
    assert_eq!(
        refused(&[("a", "1")], &[("a", "V")], &[("V", "2")]),
        "header \"a\" cannot appear in both headers and header_env"
    );
    assert_eq!(refused(&[], &[("a", "V")], &[]), "environment variable \"V\" is not set");
    assert_eq!(
        refused(&[], &[("a", "V")], &[("V", " ")]),
        "environment variable \"V\" is blank"
    );
    assert!(refused(&[("a b", "1")], &[], &[]).starts_with("invalid header name: "));
    assert!(refused(&[("a", "1\n2")], &[], &[]).starts_with("invalid header value: "));
}

#[test]
fn a_header_set_twice_has_the_later_value() {
    let mut headers = reqwest::header::HeaderMap::new();
    insert_http_header(&mut headers, "Accept", "a").unwrap();
    insert_http_header(&mut headers, "accept", "b").unwrap();
    assert_eq!(headers.len(), 1);
    assert_eq!(headers.get("accept").unwrap(), "b");
}

#[test]
fn target_headers_keep_their_names() {
    let headers = resolve_json_headers(
        &map(&[("X-Static", "one")]),
        &map(&[("Authorization", "TOKEN")]),
        &map(&[("TOKEN", "t")]),
    )
    .unwrap();
    assert_eq!(
        Json::Object(headers).to_value().to_string(),
        r#"{"Authorization":"t","X-Static":"one"}"#
    );
    let error = resolve_json_headers(&map(&[("a", "1")]), &map(&[("a", "V")]), &map(&[])).unwrap_err();
    assert_eq!(error, "target header \"a\" cannot appear in both headers and header_env");
    let error = resolve_json_headers(&map(&[]), &map(&[("a", "V")]), &map(&[])).unwrap_err();
    assert_eq!(error, "environment variable \"V\" is not set");
    let error = resolve_json_headers(&map(&[]), &map(&[("a", "V")]), &map(&[("V", "")])).unwrap_err();
    assert_eq!(error, "environment variable \"V\" is blank");
}

#[test]
fn a_runtime_is_made_of_a_valid_configuration_only() {
    let mut config = valid();
    let mut keyed = target("m", WireProtocol::OpenaiChat, "http://x");
    keyed.header_env = map(&[("authorization", "KEY")]);
    config.targets.insert("keyed".to_string(), keyed);
    let error = SwitchyardRuntime::new(config, &map(&[])).unwrap_err();
    assert_eq!(error, "environment variable \"KEY\" is not set");

    let mut config = valid();
    config.targets.insert("keyed".to_string(), target("m", WireProtocol::OpenaiChat, "http://x"));
    let runtime = SwitchyardRuntime::new(config, &map(&[])).unwrap();
    assert_eq!(runtime.target_headers.len(), 4);
    assert_eq!(runtime.target_headers.key_at(0), "chat");

    let mut config = valid();
    config.version = 3;
    assert_eq!(
        SwitchyardRuntime::decision_headers(&config, &map(&[])).unwrap_err(),
        "unsupported Switchyard config version 3"
    );
    assert_eq!(
        SwitchyardRuntime::new(config, &map(&[])).unwrap_err(),
        "unsupported Switchyard config version 3"
    );
    let mut config = valid();
    config.decision_headers = map(&[("bad name", "relay")]);
    let mut keyed = target("m", WireProtocol::OpenaiChat, "http://x");
    keyed.header_env = map(&[("authorization", "KEY")]);
    config.targets.insert("keyed".to_string(), keyed);
    assert_eq!(
        SwitchyardRuntime::new(config, &map(&[])).unwrap_err(),
        "invalid header name: invalid HTTP header name"
    );
    let mut config = valid();
    config.decision_headers = map(&[("x-team", "relay")]);
    let headers = SwitchyardRuntime::decision_headers(&config, &map(&[])).unwrap();
    assert_eq!(headers.get("x-team").unwrap(), "relay");
}

#[test]
fn the_health_report_stands_at_the_root_of_the_service() {
    assert_eq!(
        health_url("http://127.0.0.1:8080/v1/routing/decision").unwrap(),
        "http://127.0.0.1:8080/health"
    );
    assert_eq!(health_url("https://router.example/a?b").unwrap(), "https://router.example:443/health");
    assert!(health_url("router").is_none());
    assert!(reports_health(&Json::from_json(r#"{"status": "ok"}"#).unwrap()));
    assert!(!reports_health(&Json::from_json(r#"{"status": "starting"}"#).unwrap()));
    assert!(!reports_health(&Json::from_json("[]").unwrap()));
    let report = |text: &str| HealthAnswer::Report(Json::from_json(text).unwrap());
    check_health("u", report(r#"{"status": "ok"}"#)).unwrap();
    assert_eq!(
        check_health("u", report("{}")).unwrap_err(),
        "the Switchyard service is not healthy at u"
    );
    assert_eq!(
        check_health("u", HealthAnswer::Unsent("down".to_string())).unwrap_err(),
        "Switchyard health request failed: down"
    );
    assert_eq!(
        check_health("u", HealthAnswer::Unreadable("text".to_string())).unwrap_err(),
        "Switchyard health report is invalid: text"
    );
}

fn component(kind: &str, enabled: bool, config: &str) -> PluginComponentSpec {
    PluginComponentSpec {
        kind: kind.to_string(),
        enabled,
        config: object(config),
    }
}

const DEFAULTS: AtofEndpointDefaults = AtofEndpointDefaults {
    http_post: true,
    preserve: true,
};

fn atof_error(observability: &str) -> Result<(), String> {
    let mut config = valid();
    config.context_mode = ContextMode::AtofRequired;
    config.atof_endpoint_name = Some("history".to_string());
    let plugins = PluginConfig {
        components: vec![
            component("switchyard", false, "{}"),
            component("switchyard", true, "{}"),
            component("observability", true, observability),
        ],
    };
    validate_switchyard_atof_configuration(&plugins, &Ok(config), DEFAULTS)
}

#[test]
fn history_needs_exactly_one_authenticated_endpoint() {
    let sound = r#"{"type": "stream", "name": "history", "header_env": {"authorization": "KEY"}}"#;
    let sinks = |list: &str| format!(r#"{{"atof": {{"enabled": true, "sinks": [{list}]}}}}"#);
    atof_error(&sinks(sound)).unwrap();
    assert_eq!(
        atof_error(r#"{"atof": {"enabled": false, "sinks": []}}"#).unwrap_err(),
        "atof_required Switchyard profiles require an enabled ATOF endpoint"
    );
    assert_eq!(
        atof_error(&sinks(r#"{"type": "file", "name": "history"}"#)).unwrap_err(),
        "atof_required Switchyard profile requires named ATOF endpoint \"history\""
    );
    assert_eq!(
        atof_error(&sinks(&format!("{sound}, {sound}"))).unwrap_err(),
        "ATOF endpoint name \"history\" must resolve to exactly one endpoint"
    );
    assert_eq!(
        atof_error(&sinks(
            r#"{"type": "stream", "name": "history", "transport": "websocket", "header_env": {"a": "K"}}"#
        ))
        .unwrap_err(),
        "Switchyard ATOF endpoint \"history\" must use transport = http_post"
    );
    assert_eq!(
        atof_error(&sinks(
            r#"{"type": "stream", "name": "history", "field_name_policy": "snake", "header_env": {"a": "K"}}"#
        ))
        .unwrap_err(),
        "Switchyard ATOF endpoint \"history\" must use field_name_policy = preserve"
    );
    assert_eq!(
        atof_error(&sinks(
            r#"{"type": "stream", "name": "history", "transport": "http_post", "field_name_policy": "preserve", "header_env": {}}"#
        ))
        .unwrap_err(),
        "Switchyard ATOF endpoint \"history\" authentication must use at least one environment-referenced header"
    );
}

#[test]
fn history_is_asked_of_enabled_profiles_that_need_it() {
    let nothing = PluginConfig { components: vec![] };
    validate_switchyard_atof_configuration(&nothing, &Err("unread".to_string()), DEFAULTS).unwrap();
    let plugins = PluginConfig {
        components: vec![component("switchyard", true, "{}")],
    };
    validate_switchyard_atof_configuration(&plugins, &Ok(valid()), DEFAULTS).unwrap();
    let error =
        validate_switchyard_atof_configuration(&plugins, &Err("invalid config".to_string()), DEFAULTS).unwrap_err();
    assert_eq!(error, "invalid Switchyard plugin config: invalid config");
    let mut config = valid();
    config.context_mode = ContextMode::AtofRequired;
    let error = validate_switchyard_atof_configuration(&plugins, &Ok(config), DEFAULTS).unwrap_err();
    assert_eq!(error, "atof_required Switchyard profiles require atof_endpoint_name");
    let mut config = valid();
    config.context_mode = ContextMode::AtofRequired;
    config.atof_endpoint_name = Some("history".to_string());
    let error = validate_switchyard_atof_configuration(&plugins, &Ok(config), DEFAULTS).unwrap_err();
    assert_eq!(error, "atof_required Switchyard profiles require observability");
    assert!(find_component(&plugins, "switchyard").is_some());
    assert!(find_component(&plugins, "observability").is_none());
}

fn libsy(threshold: f64) -> LibsyBackendConfig {
    LibsyBackendConfig {
        algorithm: LibsyAlgorithmKind::LlmClassifier,
        classifier_target: "chat".to_string(),
        strong_target: "chat".to_string(),
        weak_target: "messages".to_string(),
        threshold_bits: threshold.to_bits(),
    }
}

#[test]
fn a_threshold_lies_between_zero_and_one() {
    let targets = valid().targets;
    assert_eq!(f64::from_bits(default_threshold_bits()), 0.5);
    for sound in [0.0, -0.0, 0.25, 1.0, f64::MIN_POSITIVE] {
        validate_libsy_config(&libsy(sound), &targets).unwrap();
    }
    for wrong in [-0.5, 1.0000001, 2.0, f64::NAN, -f64::NAN, f64::INFINITY, f64::NEG_INFINITY, -f64::MIN_POSITIVE] {
        assert_eq!(
            validate_libsy_config(&libsy(wrong), &targets).unwrap_err(),
            "libsy threshold must be within [0, 1]"
        );
    }
}

#[test]
fn the_classifier_needs_bound_targets() {
    let targets = valid().targets;
    let mut config = libsy(0.5);
    config.strong_target = String::new();
    assert_eq!(
        validate_libsy_config(&config, &targets).unwrap_err(),
        "libsy llm_classifier requires strong_target"
    );
    let mut config = libsy(0.5);
    config.weak_target = "other".to_string();
    assert_eq!(
        validate_libsy_config(&config, &targets).unwrap_err(),
        "libsy weak_target \"other\" has no target binding"
    );
    let mut config = libsy(9.0);
    config.algorithm = LibsyAlgorithmKind::Random;
    validate_libsy_config(&config, &targets).unwrap();
    assert_eq!(
        validate_libsy_config(&config, &StringMap::new()).unwrap_err(),
        "libsy random requires at least one target binding"
    );
    assert_eq!(config.routable_target_ids(&targets), vec!["chat", "messages", "responses"]);
    assert_eq!(libsy(0.5).routable_target_ids(&targets), vec!["chat", "chat", "messages"]);
}

#[test]
fn streamed_calls_are_routed_within_their_protocol() {
    let targets = valid().targets;
    let mut config = libsy(0.5);
    let chat = WireProtocol::OpenaiChat;
    assert!(libsy_routes(RoutingMode::Enforce, &config, &targets, chat, false));
    assert!(!libsy_routes(RoutingMode::ObserveOnly, &config, &targets, chat, false));
    assert!(!libsy_routes(RoutingMode::Enforce, &config, &targets, chat, true));
    config.weak_target = "chat".to_string();
    assert!(libsy_routes(RoutingMode::Enforce, &config, &targets, chat, true));
}

#[test]
fn registering_twice_is_no_failure() {
    register_switchyard_component(Ok(())).unwrap();
    let again = PluginError::RegistrationFailed("plugin kind switchyard is already registered".to_string());
    register_switchyard_component(Err(again)).unwrap();
    let refused = PluginError::RegistrationFailed("registry is closed".to_string());
    assert!(matches!(
        register_switchyard_component(Err(refused)),
        Err(PluginError::RegistrationFailed(_))
    ));
    let other = PluginError::Other("already registered".to_string());
    assert!(matches!(register_switchyard_component(Err(other)), Err(PluginError::Other(_))));
}

#[test]
fn a_refused_configuration_is_told_of() {
    assert!(validate(SwitchyardRuntime::new(valid(), &map(&[]))).is_empty());
    let mut config = valid();
    config.max_retries = 11;
    let told = validate(SwitchyardRuntime::new(config, &map(&[])));
    assert_eq!(told.len(), 1);
    assert_eq!(told[0].code, "switchyard.invalid_config");
    assert_eq!(told[0].level, DiagnosticLevel::Error);
    assert_eq!(told[0].component.as_deref(), Some("switchyard"));
    assert!(told[0].field.is_none());
    assert_eq!(told[0].message, "max_retries must not exceed 10");
    let mut config = valid();
    config.decision_header_env = map(&[("authorization", "KEY")]);
    let told = validate(SwitchyardRuntime::new(config, &map(&[])));
    assert_eq!(told[0].message, "environment variable \"KEY\" is not set");
}
