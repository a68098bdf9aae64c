use relay_core::hermes::config::{
    expected_mcp_server, install_in_config, owned_install_command, parse_yaml_object, persistent_config,
    recorded_generation, strip_owned_hooks, transparent_config, HermesProfile, MCP_SERVER_NAME,
};
use relay_core::hermes::hooks::{
    is_persistent_relay_hook_command, legacy_command_uses_relay, persistent_hook_command, persistent_hook_words,
    shell_quote_arg, transparent_hook_forward_command, Platform, DEFAULT_URL,
};
use relay_core::hermes::trust::{
    check_trust, json_string, parse_json_object, timestamp, trusted_hooks, verify_hook_definitions, verify_trust,
};
use relay_core::json::{Json, JsonObject};
use serde_json::Value;

const TEST_GENERATION_TOKEN: &str = "test-generation";
const RELAY: &str = "/tmp/x/NeMo Relay's bin/nemo-relay";
const GENERATION: &str = "/tmp/x/nemo-relay-generation";

fn profile() -> HermesProfile {
    HermesProfile {
        hook_events: vec![
            "on_session_start".to_string(),
            "on_session_end".to_string(),
            "pre_tool_call".to_string(),
            "post_tool_call".to_string(),
        ],
        generation_file_env: "NEMO_RELAY_GENERATION_FILE".to_string(),
        generation_token_env: "NEMO_RELAY_GENERATION_TOKEN".to_string(),
        platform: Platform::posix(),
    }
}

fn value(text: &str) -> Value {
    serde_json::from_str(text).unwrap()
}

fn text(s: &str) -> Value {
    Value::String(s.to_string())
}

fn to_value(object: JsonObject) -> Value {
    Json::Object(object).to_value()
}

fn to_object(value: Value) -> JsonObject {
    match Json::from_value(value) {
        Json::Object(object) => object,
        _ => panic!("not an object"),
    }
}

fn group(command: &str) -> Value {
    let mut object = serde_json::Map::new();
    object.insert("command".to_string(), text(command));
    Value::Object(object)
}

fn count_command(groups: &Value, command: &str) -> usize {
    groups
        .as_array()
        .unwrap()
        .iter()
        .filter(|group| group["command"] == text(command))
        .count()
}

#[test]
fn hook_command_round_trips_paths_and_platform_metacharacters() {
    let relay = "/tmp/NeMo $Relay`test'/bin/nemo-relay";
    let generation = "/tmp/generation";
    assert_eq!(
        persistent_hook_command(&Platform::posix(), relay, generation, TEST_GENERATION_TOKEN),
        "'/tmp/NeMo $Relay`test'\\''/bin/nemo-relay' hook-forward hermes --gateway-url http://127.0.0.1:47632 --generation-file /tmp/generation --generation-token test-generation"
    );
    assert_eq!(
        transparent_hook_forward_command(&Platform::posix(), relay, "http://127.0.0.1:1234"),
        "'/tmp/NeMo $Relay`test'\\''/bin/nemo-relay' hook-forward hermes --gateway-url http://127.0.0.1:1234 --transparent-run"
    );
    let windows_relay = r"C:\Program Files\NeMo 100%\bin\nemo-relay.exe";
    let windows_generation = r"C:\Temp\generation";
    let arguments = persistent_hook_words(windows_relay, windows_generation, TEST_GENERATION_TOKEN);
    assert_eq!(
        arguments,
        vec![
            windows_relay,
            "hook-forward",
            "hermes",
            "--gateway-url",
            DEFAULT_URL,
            "--generation-file",
            windows_generation,
            "--generation-token",
            TEST_GENERATION_TOKEN,
        ]
    );
    let mut codex = arguments.clone();
    codex[2] = "codex".to_string();
    let mut windows = Platform::windows();
    windows.learn_command(&arguments, "encoded".to_string());
    windows.learn_command(&codex, "encoded codex".to_string());
    let encoded = persistent_hook_command(&windows, windows_relay, windows_generation, TEST_GENERATION_TOKEN);
    assert_eq!(encoded, "encoded");
    assert!(is_persistent_relay_hook_command(&encoded, Some(&arguments)));
    assert!(!is_persistent_relay_hook_command("encoded codex", Some(&codex)));
}

#[test]
fn an_installation_on_windows_is_known_by_its_encoded_command() {
    let relay = r"C:\NeMo Relay\nemo-relay.exe";
    let generation = r"C:\h\generation";
    let words = persistent_hook_words(relay, generation, TEST_GENERATION_TOKEN);
    let mut profile = profile();
    profile.platform = Platform::windows();
    profile.platform.learn_command(&words, "powershell encoded".to_string());
    profile.platform.learn_argument(relay.to_string(), format!("\"{relay}\""));
    let root = parse_yaml_object(None, "Hermes config").unwrap();
    let installed = install_in_config(
        &profile,
        root,
        relay,
        "powershell encoded",
        generation,
        TEST_GENERATION_TOKEN,
        &vec![],
    )
    .unwrap();
    assert_eq!(
        recorded_generation(&profile, &installed),
        Some((generation.to_string(), TEST_GENERATION_TOKEN.to_string()))
    );
    assert_eq!(
        owned_install_command(&profile, &installed, relay, Some("c:/h/generation")).as_deref(),
        Some("powershell encoded")
    );
    assert!(legacy_command_uses_relay(
        &profile.platform,
        &format!("\"{relay}\" hook-forward hermes"),
        relay
    ));
    assert!(!legacy_command_uses_relay(&profile.platform, &format!("'{relay}' hook-forward hermes"), relay));
}

#[test]
fn a_persistent_hook_command_is_known_again() {
    let command = persistent_hook_command(&Platform::posix(), RELAY, GENERATION, TEST_GENERATION_TOKEN);
    assert!(is_persistent_relay_hook_command(&command, None));
    assert!(!is_persistent_relay_hook_command("nemo-relay hook-forward hermes", None));
    let mut arguments: Vec<String> = vec![
        "relay",
        "hook-forward",
        "hermes",
        "--gateway-url",
        DEFAULT_URL,
        "--generation-file",
        "file",
        "--generation-token",
        "",
    ]
    .into_iter()
    .map(str::to_string)
    .collect();
    assert!(!is_persistent_relay_hook_command(&command, Some(&arguments)));
    arguments.pop();
    assert!(!is_persistent_relay_hook_command(&command, Some(&arguments)));
}

#[test]
fn words_are_quoted_only_where_a_shell_would_split_them() {
    assert_eq!(shell_quote_arg("/usr/bin/nemo-relay"), "/usr/bin/nemo-relay");
    assert_eq!(shell_quote_arg(""), "''");
    assert_eq!(shell_quote_arg("a b"), "'a b'");
    assert_eq!(shell_quote_arg("it's"), "'it'\\''s'");
}

#[test]
fn legacy_commands_are_those_of_the_relay_itself() {
    assert!(legacy_command_uses_relay(&Platform::posix(), "/opt/nemo-relay hook-forward hermes", "/opt/nemo-relay"));
    assert!(legacy_command_uses_relay(
        &Platform::posix(),
        "'/opt/my relay' hook-forward hermes",
        "/opt/my relay"
    ));
    assert!(!legacy_command_uses_relay(&Platform::posix(), "/opt/other hook-forward hermes", "/opt/nemo-relay"));
}

#[test]
fn persistent_config_migrates_owned_state_and_preserves_unrelated_config() {
    let profile = profile();
    let command = persistent_hook_command(&Platform::posix(), RELAY, GENERATION, TEST_GENERATION_TOKEN);
    let legacy_command = format!("{RELAY} hook-forward hermes");
    let mut legacy_hooks = serde_json::Map::new();
    for event in &profile.hook_events {
        legacy_hooks.insert(event.clone(), Value::Array(vec![group(&legacy_command)]));
    }
    let mut custom = group("custom-hook");
    custom["timeout"] = value("9");
    let mut legacy = group(&legacy_command);
    legacy["timeout"] = value("30");
    legacy_hooks.insert("on_session_start".to_string(), Value::Array(vec![custom, legacy]));
    legacy_hooks.insert("custom_event".to_string(), Value::Array(vec![group("keep-custom")]));
    let mut root = value(
        r#"{"model": "keep-me", "mcp_servers": {"filesystem": {"command": "fs-mcp"},
            "nemo-relay": {"args": ["mcp", "--agent", "hermes"]}}}"#,
    );
    root["mcp_servers"][MCP_SERVER_NAME]["command"] = text(RELAY);
    root["hooks"] = Value::Object(legacy_hooks);
    let existing = serde_yaml::to_string(&root).unwrap();
    let environment = vec!["AWS_REGION".to_string()];
    let merged = to_value(
        persistent_config(
            &profile,
            Some(&existing),
            RELAY,
            &command,
            GENERATION,
            TEST_GENERATION_TOKEN,
            &environment,
        )
        .unwrap(),
    );

    assert_eq!(merged["model"], text("keep-me"));
    assert_eq!(merged["mcp_servers"]["filesystem"]["command"], text("fs-mcp"));
    assert_eq!(
        merged["mcp_servers"][MCP_SERVER_NAME],
        expected_mcp_server(&profile, RELAY, GENERATION, TEST_GENERATION_TOKEN, &environment).to_value()
    );
    assert_eq!(
        merged["mcp_servers"][MCP_SERVER_NAME]["env"]["AWS_REGION"],
        text("${AWS_REGION}")
    );
    assert_eq!(merged["hooks"]["on_session_start"].as_array().unwrap().len(), 2);
    assert_eq!(merged["hooks"]["on_session_start"][0]["command"], text("custom-hook"));
    assert_eq!(merged["hooks"]["on_session_start"][1]["command"], text(&command));
    assert_eq!(merged["hooks"]["custom_event"][0]["command"], text("keep-custom"));
    for event in &profile.hook_events {
        assert_eq!(count_command(&merged["hooks"][event], &command), 1, "event {event}");
    }
}

#[test]
fn persistent_config_rejects_a_foreign_server_with_the_reserved_name() {
    let command = persistent_hook_command(&Platform::posix(), RELAY, GENERATION, TEST_GENERATION_TOKEN);
    let existing = r#"
model: keep-me
mcp_servers:
  nemo-relay:
    command: foreign-mcp
    args: [serve]
"#;

    let error = persistent_config(
        &profile(),
        Some(existing),
        RELAY,
        &command,
        GENERATION,
        TEST_GENERATION_TOKEN,
        &vec![],
    )
    .unwrap_err();

    assert!(error.message().contains("not managed by Relay"), "{}", error.message());
    assert!(error.message().contains("rename or remove"), "{}", error.message());
}

#[test]
fn modern_mcp_generation_proves_ownership_independently_of_hook_completeness() {
    let profile = profile();
    let root = persistent_config(
        &profile,
        None,
        RELAY,
        &persistent_hook_command(&Platform::posix(), RELAY, GENERATION, "hook-token"),
        GENERATION,
        "mcp-token",
        &vec![],
    )
    .unwrap();
    assert_eq!(
        owned_install_command(&profile, &root, RELAY, Some(GENERATION)),
        Some(persistent_hook_command(&Platform::posix(), RELAY, GENERATION, "mcp-token"))
    );

    let mut root = to_value(root);
    root["mcp_servers"][MCP_SERVER_NAME]["command"] = text("/tmp/x/other/nemo-relay");
    assert!(owned_install_command(&profile, &to_object(root), RELAY, Some(GENERATION)).is_none());
}

#[test]
fn trusted_hooks_migrates_only_relay_approvals_and_records_every_event() {
    let profile = profile();
    let command = persistent_hook_command(&Platform::posix(), RELAY, GENERATION, TEST_GENERATION_TOKEN);
    let existing = r#"{
        "schema": 7,
        "approvals": [
            {"event": "custom", "command": "custom-hook", "approved_at": "keep"},
            {"event": "on_session_start", "command": "nemo-relay hook-forward hermes"},
            {"event": "on_session_end", "command": "/old/nemo-relay plugin-shim hook hermes"}
        ]
    }"#;
    let now = timestamp(1_700_000_000, 0).unwrap();
    let merged = to_value(
        trusted_hooks(
            Some(existing),
            &profile.hook_events,
            Some("nemo-relay hook-forward hermes"),
            &command,
            &now,
            &Some(now.clone()),
        )
        .unwrap(),
    );
    let approvals = merged["approvals"].as_array().unwrap();

    assert_eq!(merged["schema"], value("7"));
    assert!(approvals.iter().any(|entry| entry["command"] == text("custom-hook")));
    assert_eq!(approvals.len(), profile.hook_events.len() + 2);
    for event in &profile.hook_events {
        let entries: Vec<&Value> = approvals
            .iter()
            .filter(|entry| entry["event"] == text(event) && entry["command"] == text(&command))
            .collect();
        assert_eq!(entries.len(), 1, "event {event}");
        assert_eq!(entries[0]["approved_at"], text("2023-11-14T22:13:20.000000Z"));
        assert!(entries[0].get("script_mtime_at_approval").is_some());
    }
}

#[test]
fn verification_rejects_relay_handlers_and_approvals_on_unexpected_events() {
    let profile = profile();
    let command = persistent_hook_command(&Platform::posix(), RELAY, GENERATION, TEST_GENERATION_TOKEN);
    let installed = to_value(
        persistent_config(&profile, None, RELAY, &command, GENERATION, TEST_GENERATION_TOKEN, &vec![]).unwrap(),
    );
    let mut config = installed.clone();
    let mut stray = group(&command);
    stray["timeout"] = value("30");
    config["hooks"]["unexpected_event"] = Value::Array(vec![stray]);
    let error = verify_hook_definitions(&to_object(config), &profile.hook_events, &command).unwrap_err();
    assert!(error.contains("unexpected Relay hook"));
    let mut malformed = installed;
    malformed["hooks"]["unexpected_event"] = group(&command);
    let error = verify_hook_definitions(&to_object(malformed), &profile.hook_events, &command).unwrap_err();
    assert!(error.contains("must be an array"));

    let epoch = "1970-01-01T00:00:00.000000Z";
    let trusted = to_value(
        trusted_hooks(None, &profile.hook_events, None, &command, epoch, &None).unwrap(),
    );
    let mut allowlist = trusted.clone();
    let mut entry = group(&command);
    entry["event"] = text("unexpected_event");
    entry["approved_at"] = text(epoch);
    allowlist["approvals"].as_array_mut().unwrap().push(entry);
    let error = verify_trust(&allowlist.to_string(), &profile.hook_events, &command).unwrap_err();
    assert!(error.contains("unexpected Relay hook approval"));

    let mut missing_event = trusted;
    let mut entry = group(&command);
    entry["approved_at"] = text(epoch);
    missing_event["approvals"].as_array_mut().unwrap().push(entry);
    let error = verify_trust(&missing_event.to_string(), &profile.hook_events, &command).unwrap_err();
    assert!(error.contains("missing its event"));
}

#[test]
fn hermes_structure_and_trust_validation_cover_exact_failure_shapes() {
    let profile = profile();
    let command = persistent_hook_command(&Platform::posix(), RELAY, GENERATION, TEST_GENERATION_TOKEN);
    let epoch = "1970-01-01T00:00:00.000000Z";

    let error = trusted_hooks(
        Some(r#"{"approvals": {}}"#),
        &profile.hook_events,
        None,
        &command,
        epoch,
        &None,
    )
    .unwrap_err();
    assert!(error.message().contains("approvals must be an array"), "{}", error.message());

    let error = parse_json_object(Some("[]"), "test allowlist").unwrap_err();
    assert!(error.message().contains("must contain a JSON object"), "{}", error.message());

    let malformed_hooks = to_object(value(r#"{"hooks": {"on_session_start": {}}}"#));
    let error = strip_owned_hooks(malformed_hooks, Some(&command)).unwrap_err();
    assert!(
        error.message().contains("on_session_start hooks must be an array"),
        "{}",
        error.message()
    );

    let error = parse_yaml_object(Some("[]"), "test config").unwrap_err();
    assert!(error.message().contains("must contain an object"), "{}", error.message());

    let trusted = to_value(
        trusted_hooks(None, &profile.hook_events, None, &command, epoch, &None).unwrap(),
    );
    let mut missing = trusted.clone();
    missing["approvals"].as_array_mut().unwrap().remove(0);
    let error = verify_trust(&missing.to_string(), &profile.hook_events, &command).unwrap_err();
    assert!(error.contains("expected exactly one trust approval"), "{error}");

    let mut with_opaque_entry = trusted;
    with_opaque_entry["approvals"]
        .as_array_mut()
        .unwrap()
        .push(value(r#"{"metadata": "unrelated"}"#));
    verify_trust(&with_opaque_entry.to_string(), &profile.hook_events, &command).unwrap();
}

#[test]
fn transparent_config_suppresses_only_the_managed_mcp_and_uses_one_relay_hook() {
    let profile = profile();
    let command = transparent_hook_forward_command(&Platform::posix(), RELAY, "http://127.0.0.1:1234");
    let persistent_command = persistent_hook_command(&Platform::posix(), RELAY, GENERATION, TEST_GENERATION_TOKEN);
    let mut existing = to_value(
        persistent_config(
            &profile,
            None,
            RELAY,
            &persistent_command,
            GENERATION,
            TEST_GENERATION_TOKEN,
            &vec![],
        )
        .unwrap(),
    );
    existing["mcp_servers"]["filesystem"] = group("fs-mcp");
    existing["hooks"]["on_session_start"]
        .as_array_mut()
        .unwrap()
        .push(group("custom-hook"));
    let existing = serde_yaml::to_string(&existing).unwrap();
    let patched: Value = serde_yaml::from_str(
        &transparent_config(&profile, &existing, RELAY, "http://127.0.0.1:1234").unwrap(),
    )
    .unwrap();

    assert!(patched["mcp_servers"].get(MCP_SERVER_NAME).is_none());
    assert_eq!(patched["mcp_servers"]["filesystem"]["command"], text("fs-mcp"));
    for event in &profile.hook_events {
        assert_eq!(count_command(&patched["hooks"][event], &command), 1, "event {event}");
        assert_eq!(count_command(&patched["hooks"][event], &persistent_command), 0, "event {event}");
    }
    assert_eq!(count_command(&patched["hooks"]["on_session_start"], "custom-hook"), 1);
}

#[test]
fn a_transparent_run_routes_the_model_to_its_gateway() {
    let patched: Value = serde_yaml::from_str(
        &transparent_config(&profile(), "model: gpt\nother: 1\n", RELAY, "http://127.0.0.1:1234/").unwrap(),
    )
    .unwrap();
    assert_eq!(
        patched["model"],
        value(r#"{"default": "gpt", "provider": "custom", "base_url": "http://127.0.0.1:1234/v1"}"#)
    );
    assert_eq!(patched["other"], value("1"));
    let error = transparent_config(&profile(), "model: [1]\n", RELAY, "http://127.0.0.1:1234").unwrap_err();
    assert_eq!(error.message(), "Hermes model config must be a string or mapping");
    let error = transparent_config(&profile(), "hooks: 3\n", RELAY, "http://127.0.0.1:1234").unwrap_err();
    assert_eq!(error.message(), "Hermes hooks must be an object");
    let error = transparent_config(&profile(), "mcp_servers: 3\n", RELAY, "http://127.0.0.1:1234").unwrap_err();
    assert_eq!(error.message(), "Hermes mcp_servers must be an object");
}

#[test]
fn a_configuration_can_be_missing_blank_or_malformed() {
    assert_eq!(parse_yaml_object(None, "Hermes config").unwrap().len(), 0);
    assert_eq!(parse_yaml_object(Some(" \n"), "Hermes config").unwrap().len(), 0);
    assert_eq!(parse_json_object(Some("\t"), "allowlist").unwrap().len(), 0);
    let error = parse_yaml_object(Some("a: [1"), "Hermes config").unwrap_err();
    assert!(error.message().starts_with("invalid Hermes config: "), "{}", error.message());
    let error = parse_json_object(Some("{"), "allowlist").unwrap_err();
    assert!(error.message().starts_with("invalid allowlist: "), "{}", error.message());
}

#[test]
fn an_allowlist_is_printed_as_json_with_a_line_end() {
    let object = to_object(value(r#"{"b": 1, "a": ["x"]}"#));
    assert_eq!(json_string(object).unwrap(), "{\n  \"a\": [\n    \"x\"\n  ],\n  \"b\": 1\n}\n");
}

#[test]
fn times_are_given_with_microseconds() {
    assert_eq!(timestamp(0, 0).unwrap(), "1970-01-01T00:00:00.000000Z");
    assert_eq!(timestamp(1_700_000_000, 123_456_789).unwrap(), "2023-11-14T22:13:20.123456Z");
    assert!(timestamp(i64::MAX, 0).is_none());
}

#[test]
fn a_missing_approval_list_is_reported() {
    let error = check_trust(&to_object(value("{}")), &profile().hook_events, "x").unwrap_err();
    assert_eq!(error, "Hermes shell-hook approvals are missing");
    let error = verify_hook_definitions(&to_object(value("{}")), &profile().hook_events, "x").unwrap_err();
    assert_eq!(error, "Hermes hook on_session_start is missing");
}
