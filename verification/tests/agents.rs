use relay_core::commands::diagnostics::{agents_to_check, doctor_output, with_schema};
use relay_core::commands::plugins::{
    ConfigurationScope, PluginsAddCommand, PluginsEnableCommand, PluginsInspectCommand, PluginsListCommand,
    PluginsScopeArgs, PluginsSubcommand, PluginsValidateCommand,
};
use relay_core::commands::run::{configured_reset, easy_path, needs_setup, CodingAgent, ConfigScope, RunCommand};
use relay_core::hermes::alignment::{
    alias_for_child_session, augment_subagent_metadata, child_session_id_for_subagent_event, context_from_values,
    explicit_subagent_alias, llm_owner_metadata, subagent_context, subagent_start_event, AgentKind, SessionEvent,
    SubagentEvent,
};
use relay_core::hermes::launch::{links_entry, prepare, use_overlay, PreparedAgentLaunch};
use relay_core::json::Json;
use relay_core::json_paths::json_string_at;
use serde_json::Value;

fn json(text: &str) -> Json {
    Json::from_json(text).unwrap()
}

fn value(text: &str) -> Value {
    serde_json::from_str(text).unwrap()
}

fn session(kind: AgentKind, id: &str, payload: &str) -> SessionEvent {
    SessionEvent {
        session_id: id.to_string(),
        agent_kind: kind,
        event_name: "on_session_start".to_string(),
        payload: json(payload),
        metadata: json(r#"{"kept": 1}"#),
    }
}

fn subagent(kind: AgentKind, id: &str, payload: &str) -> SubagentEvent {
    SubagentEvent {
        session_id: id.to_string(),
        agent_kind: kind,
        event_name: "subagent_start".to_string(),
        subagent_id: "sub".to_string(),
        payload: json(payload),
        metadata: json(r#"{"kept": 1}"#),
    }
}

#[test]
fn a_context_is_found_under_many_names() {
    let context = context_from_values("parent", &json(r#"{"childSessionId": "child"}"#), &Json::Null).unwrap();
    assert_eq!(context.parent_session_id, "parent");
    assert_eq!(context.child_session_id, "child");
    assert_eq!(context.subagent_id, "child");
    let context = context_from_values(
        "parent",
        &json(r#"{"extra": {"subagent_session_id": "child", "parent": {"session_id": "p2"}, "child_role": "r"}}"#),
        &json(r#"{"agent_id": "a", "parent_turn_id": "t", "child_role": "other"}"#),
    )
    .unwrap();
    assert_eq!(context.parent_session_id, "p2");
    assert_eq!(context.subagent_id, "a");
    assert_eq!(context.parent_turn_id.as_deref(), Some("t"));
    assert_eq!(context.child_role.as_deref(), Some("r"));
    assert!(context.child_goal.is_none());
    assert!(context_from_values("parent", &json("{}"), &json("{}")).is_none());
}

#[test]
fn a_session_of_another_is_a_subagent() {
    let payload = r#"{"child_session_id": "child", "parent_session_id": "parent"}"#;
    let event = session(AgentKind::Hermes, "child", payload);
    let context = subagent_context(&event).unwrap();
    assert_eq!(context.parent_session_id, "parent");
    assert!(subagent_context(&session(AgentKind::Hermes, "parent", payload)).is_none());
    assert!(subagent_context(&session(AgentKind::Codex, "child", payload)).is_none());
    let started = subagent_start_event(&event, &context);
    assert_eq!(started.session_id, "parent");
    assert_eq!(started.subagent_id, "child");
    assert_eq!(started.event_name, "on_session_start");
    assert_eq!(
        started.metadata.to_value(),
        value(
            r#"{"kept": 1, "thread_source": "subagent", "subagent_id": "child", "subagent_session_id": "child",
                "hermes_parent_session_id": "parent", "hermes_subagent_session_id": "child",
                "hermes_child_subagent_id": "child", "session_id": "child"}"#
        )
    );
    assert_eq!(
        augment_subagent_metadata(&event.metadata, &context).to_value(),
        started.metadata.to_value()
    );
    let alias = alias_for_child_session(&context);
    assert_eq!(alias.parent_session_id, "parent");
    assert_eq!(alias.subagent_id, "child");
    assert!(alias.metadata.get("session_id").is_none());
}

#[test]
fn a_parent_names_the_session_of_its_subagent() {
    let payload = r#"{"child_session_id": "child", "child_subagent_id": "sub", "child_goal": "g"}"#;
    let alias = explicit_subagent_alias(&subagent(AgentKind::Hermes, "parent", payload)).unwrap();
    assert_eq!(alias.child_session_id, "child");
    assert_eq!(alias.alias.parent_session_id, "parent");
    assert_eq!(alias.alias.subagent_id, "sub");
    assert_eq!(alias.alias.metadata.text_at("child_goal"), Some("g"));
    assert_eq!(alias.scope_metadata.text_at("session_id"), Some("child"));
    assert!(explicit_subagent_alias(&subagent(AgentKind::Hermes, "child", payload)).is_none());
    assert!(explicit_subagent_alias(&subagent(AgentKind::Other, "parent", payload)).is_none());
    assert_eq!(
        child_session_id_for_subagent_event(&subagent(AgentKind::Hermes, "x", payload)).as_deref(),
        Some("child")
    );
    assert!(child_session_id_for_subagent_event(&subagent(AgentKind::Codex, "x", payload)).is_none());
}

#[test]
fn model_calls_carry_what_names_their_subagent() {
    let scope = json(r#"{"subagent_id": "s", "child_role": null, "kept": 1, "child_goal": "g"}"#);
    assert_eq!(
        llm_owner_metadata(Some(&scope)).to_value(),
        value(r#"{"subagent_id": "s", "child_goal": "g"}"#)
    );
    assert!(llm_owner_metadata(Some(&json(r#"{"kept": 1}"#))).to_value().is_null());
    assert!(llm_owner_metadata(Some(&json("3"))).to_value().is_null());
    assert!(llm_owner_metadata(None).to_value().is_null());
}

#[test]
fn the_first_path_to_a_text_counts() {
    let found = json(r#"{"a": {"b": "x"}, "c": "y", "d": ""}"#);
    assert_eq!(json_string_at(&found, &vec![vec!["z"], vec!["a", "b"], vec!["c"]]), Some("x"));
    assert_eq!(json_string_at(&found, &vec![vec!["a"], vec!["c"]]), Some("y"));
    assert_eq!(json_string_at(&found, &vec![vec!["c", "b"]]), None);
}

fn launch() -> PreparedAgentLaunch {
    PreparedAgentLaunch {
        env: vec![
            ("OTHER".to_string(), "x".to_string()),
            ("NEMO_RELAY_GATEWAY_URL".to_string(), "http://127.0.0.1:9/".to_string()),
        ],
        notes: vec![],
        temp_dirs: vec![],
    }
}

#[test]
fn a_dry_run_only_tells_what_it_would_do() {
    let mut prepared = launch();
    let plan = prepare(&mut prepared, "/h/config.yaml", Some("/h"), "NEMO_RELAY_GATEWAY_URL", true).unwrap();
    assert!(plan.is_none());
    assert_eq!(
        prepared.env[2..],
        [
            ("HERMES_ACCEPT_HOOKS".to_string(), "1".to_string()),
            ("OPENAI_BASE_URL".to_string(), "http://127.0.0.1:9/v1".to_string())
        ]
    );
    assert_eq!(
        prepared.notes,
        vec!["would create an isolated Hermes config overlay for /h/config.yaml"]
    );
}

#[test]
fn a_run_uses_an_overlay_of_the_home() {
    let mut prepared = launch();
    let plan = prepare(&mut prepared, "/h/config.yaml", Some("/h"), "NEMO_RELAY_GATEWAY_URL", false)
        .unwrap()
        .unwrap();
    assert_eq!(plan.source_home, "/h");
    assert_eq!(plan.gateway_url, "http://127.0.0.1:9/");
    use_overlay(&mut prepared, "/h/config.yaml", "/tmp/overlay");
    assert_eq!(prepared.env[4], ("HERMES_HOME".to_string(), "/tmp/overlay".to_string()));
    assert_eq!(
        prepared.notes,
        vec!["using an isolated Hermes config overlay for /h/config.yaml"]
    );
    assert_eq!(prepared.temp_dirs, vec!["/tmp/overlay"]);
    let error = prepare(&mut launch(), "/", None, "NEMO_RELAY_GATEWAY_URL", false).unwrap_err();
    assert_eq!(error.message(), "Hermes config path / has no parent directory");
}

#[test]
fn an_overlay_links_the_state_of_the_home() {
    assert!(links_entry(false, "sessions", "/h/sessions", "/overlay"));
    assert!(!links_entry(false, "config.yaml", "/h/config.yaml", "/overlay"));
    assert!(!links_entry(false, "shell-hooks-allowlist.json", "/h/shell-hooks-allowlist.json", "/overlay"));
    assert!(!links_entry(false, "tmp", "/h/tmp", "/h/tmp/overlay"));
    assert!(!links_entry(true, "tmp", r"C:\h\tmp", r"c:\h\tmp\overlay"));
    assert!(links_entry(true, "tmp", r"C:\h\tmp", r"C:\overlay"));
}

fn scope(user: bool, project: bool, global: bool) -> PluginsScopeArgs {
    PluginsScopeArgs { user, project, global }
}

#[test]
fn at_most_one_scope_is_named() {
    assert!(matches!(scope(false, false, false).into_scope(), ConfigurationScope::Unnamed));
    assert!(matches!(scope(true, false, false).into_scope(), ConfigurationScope::User));
    assert!(matches!(scope(false, true, false).into_scope(), ConfigurationScope::Project));
    assert!(matches!(scope(false, false, true).into_scope(), ConfigurationScope::Global));
    assert!(matches!(scope(true, false, true).into_scope(), ConfigurationScope::Invalid));
    let request = PluginsAddCommand {
        scope: scope(true, false, false),
        path: "p".to_string(),
    }
    .into_runtime();
    assert_eq!(request.path, "p");
    assert!(matches!(request.scope, ConfigurationScope::User));
}

#[test]
fn commands_that_print_json_say_which_they_are() {
    let list = |json| PluginsSubcommand::List(PluginsListCommand { all: false, json });
    assert_eq!(list(true).json_context().unwrap().command, "plugins list");
    assert!(list(true).json_context().unwrap().target.is_none());
    assert!(list(false).json_context().is_none());
    let validate = PluginsSubcommand::Validate(PluginsValidateCommand {
        target: "t".to_string(),
        json: true,
    });
    let context = validate.json_context().unwrap();
    assert_eq!((context.command, context.target), ("plugins validate", Some("t")));
    let inspect = PluginsSubcommand::Inspect(PluginsInspectCommand {
        id: "i".to_string(),
        json: true,
    });
    let context = inspect.json_context().unwrap();
    assert_eq!((context.command, context.target), ("plugins inspect", Some("i")));
    let enable = PluginsSubcommand::Enable(PluginsEnableCommand { id: "i".to_string() });
    assert!(enable.json_context().is_none());
}

#[test]
fn a_run_takes_what_the_command_says() {
    let request = RunCommand {
        agent: Some(CodingAgent::Codex),
        config: Some("c".to_string()),
        openai_base_url: None,
        anthropic_base_url: Some("a".to_string()),
        session_metadata: None,
        plugin_config_path: None,
        dry_run: true,
        print: false,
        command: vec!["x".to_string()],
    }
    .into_runtime();
    assert!(matches!(request.agent, Some(CodingAgent::Codex)));
    assert_eq!(request.config.as_deref(), Some("c"));
    assert_eq!(request.anthropic_base_url.as_deref(), Some("a"));
    assert!(request.dry_run && !request.print);
    assert_eq!(request.command, vec!["x"]);
    let request = easy_path(CodingAgent::Hermes, vec!["y".to_string()], Some("c"));
    assert!(matches!(request.agent, Some(CodingAgent::Hermes)));
    assert_eq!(request.config.as_deref(), Some("c"));
    assert!(!request.dry_run && !request.print);
    assert!(needs_setup(None, false));
    assert!(!needs_setup(Some("c"), false));
    assert!(!needs_setup(None, true));
}

#[test]
fn a_reset_is_of_the_project_unless_named() {
    assert!(configured_reset(false, Some(ConfigScope::User)).is_none());
    assert!(matches!(configured_reset(true, None), Some(ConfigScope::Project)));
    assert!(matches!(
        configured_reset(true, Some(ConfigScope::Global)),
        Some(ConfigScope::Global)
    ));
}

#[test]
fn reports_are_ready_where_all_are() {
    let (output, ready) = doctor_output(vec![json(r#"{"ok": true}"#)]);
    assert_eq!(output.to_value(), value(r#"{"ok": true, "schema_version": 1}"#));
    assert!(ready);
    let (output, ready) = doctor_output(vec![json(r#"{"ok": true}"#), json(r#"{"ok": 1}"#)]);
    assert_eq!(
        output.to_value(),
        value(r#"{"schema_version": 1, "plugins": [{"ok": true}, {"ok": 1}]}"#)
    );
    assert!(!ready);
    assert!(with_schema(Json::Null).to_value().is_null());
}

#[test]
fn agents_are_checked_as_asked() {
    let names = "One, Two, or Three";
    let candidates = || vec![CodingAgent::Codex, CodingAgent::Hermes];
    let checked = agents_to_check(candidates(), false, vec![], names).unwrap();
    assert_eq!(checked.len(), 2);
    let checked = agents_to_check(candidates(), true, vec![CodingAgent::Hermes], names).unwrap();
    assert!(matches!(checked[..], [CodingAgent::Hermes]));
    let error = agents_to_check(candidates(), true, vec![], names).unwrap_err();
    assert_eq!(
        error.message(),
        "no installed One, Two, or Three integration state was found"
    );
}
