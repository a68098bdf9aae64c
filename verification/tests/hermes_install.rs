use relay_core::error::CliError;
use relay_core::hermes::config::{persistent_config, expected_mcp_server, HermesProfile, MCP_SERVER_NAME};
use relay_core::hermes::generation::{
    after_acquire, after_invalidate, after_restore, after_stop, finish_generation_mutation, generation_end,
    GenerationEnd, RetirementStep,
};
use relay_core::hermes::hooks::{persistent_hook_command, Platform};
use relay_core::hermes::integration::{
    configured_relay_executable, diagnose_persistent, owned_command_from_config, persistent_paths_have_managed_state,
    read_optional_utf8, relay_executable_from_config, require_executable,
    require_installable, verify_uninstall, FileText, Installation,
};
use relay_core::hermes::paths::PersistentPaths;
use relay_core::hermes::plan::{
    plan_fresh_install, plan_install, plan_uninstall, verify_install, ApprovalTime, InstallPlan, UninstallPlan,
};
use relay_core::hermes::transaction::{
    advance_transaction, affected_files, begin_transaction, install_changes, rollback_error, uninstall_changes,
    FileChange, TransactionAction,
};
use relay_core::hermes::trust::verify_hook_definitions;
use relay_core::json::{Json, JsonObject};
use serde_json::Value;
use std::collections::BTreeMap;

const RELAY: &str = "/tmp/x/NeMo Relay's bin/nemo-relay";

fn profile() -> HermesProfile {
    HermesProfile {
        hook_events: vec![
            "on_session_start".to_string(),
            "on_session_end".to_string(),
            "pre_tool_call".to_string(),
        ],
        generation_file_env: "NEMO_RELAY_GENERATION_FILE".to_string(),
        generation_token_env: "NEMO_RELAY_GENERATION_TOKEN".to_string(),
        platform: Platform::posix(),
    }
}

fn paths(home: &str) -> PersistentPaths {
    PersistentPaths::for_config(false, &format!("{home}/config.yaml"), Some(home), "nemo-relay-generation").unwrap()
}

fn epoch() -> ApprovalTime {
    ApprovalTime {
        approved_at: "1970-01-01T00:00:00.000000Z".to_string(),
        script_mtime: None,
    }
}

fn text(s: &str) -> Value {
    Value::String(s.to_string())
}

fn value(text: &str) -> Value {
    serde_json::from_str(text).unwrap()
}

fn to_object(value: Value) -> JsonObject {
    match Json::from_value(value) {
        Json::Object(object) => object,
        _ => panic!("not an object"),
    }
}

type Files = BTreeMap<String, String>;

fn file(files: &Files, path: &str) -> FileText {
    match files.get(path) {
        Some(text) => FileText::Text(text.clone()),
        None => FileText::Missing,
    }
}

fn read(files: &Files, path: &str) -> Result<String, String> {
    files.get(path).cloned().ok_or_else(|| "no such file".to_string())
}

fn yaml(files: &Files, path: &str) -> Value {
    serde_yaml::from_str(&files[path]).unwrap()
}

/// Applies changes to files as a transaction; `fault` may fail a write or replace what is written.
fn change_files(
    files: &mut Files,
    paths: &PersistentPaths,
    operation: &str,
    changes: Vec<FileChange>,
    fault: &mut dyn FnMut(usize, &str, &str) -> Result<Option<String>, String>,
    check: &dyn Fn(&Files) -> Result<(), String>,
) -> Result<(), CliError> {
    let all = paths.all();
    let snapshots: Vec<Option<String>> = all.iter().map(|path| files.get(path).cloned()).collect();
    let mut writes = 0;
    let (mut state, mut action) = begin_transaction(changes.len());
    loop {
        let outcome = match &action {
            TransactionAction::Change(i) => {
                let change = &changes[*i];
                match &change.text {
                    Some(text) => {
                        writes += 1;
                        fault(writes, &change.path, text).map(|other| {
                            files.insert(change.path.clone(), other.unwrap_or_else(|| text.clone()));
                        })
                    }
                    None => {
                        files.remove(&change.path);
                        Ok(())
                    }
                }
            }
            TransactionAction::Check => check(files),
            TransactionAction::Restore(i) => {
                match &snapshots[*i] {
                    Some(text) => {
                        files.insert(all[*i].clone(), text.clone());
                    }
                    None => {
                        files.remove(&all[*i]);
                    }
                }
                Ok(())
            }
            TransactionAction::Done => return Ok(()),
            TransactionAction::Failed(_) => {
                return match action {
                    TransactionAction::Failed(error) => Err(error),
                    _ => unreachable!(),
                }
            }
        };
        let (next, then) =
            advance_transaction(operation, changes.len(), snapshots.len(), state.unwrap(), outcome);
        state = next;
        action = then;
    }
}

fn token_in(files: &Files, paths: &PersistentPaths) -> Result<String, String> {
    read(files, &paths.generation).map(|text| text.trim().to_string())
}

fn install_with(
    files: &mut Files,
    paths: &PersistentPaths,
    environment: &Vec<String>,
    fault: &mut dyn FnMut(usize, &str, &str) -> Result<Option<String>, String>,
) -> Result<(), CliError> {
    let profile = profile();
    let plan: InstallPlan = plan_fresh_install(
        &profile,
        paths,
        RELAY,
        environment,
        files.get(&paths.config).map(String::as_str),
        files.get(&paths.allowlist).map(String::as_str),
        &epoch(),
    )?;
    let changes = install_changes(paths, &plan);
    change_files(files, paths, "install", changes, fault, &|files| {
        verify_install(
            &profile,
            paths,
            RELAY,
            &plan.command,
            environment,
            &plan.token,
            &read(files, &paths.config),
            &read(files, &paths.allowlist),
            &token_in(files, paths),
        )
    })
}

fn install(files: &mut Files, paths: &PersistentPaths, environment: &Vec<String>) -> Result<(), CliError> {
    install_with(files, paths, environment, &mut |_, _, _| Ok(None))
}

fn uninstall_with(
    files: &mut Files,
    paths: &PersistentPaths,
    fault: &mut dyn FnMut(usize, &str, &str) -> Result<Option<String>, String>,
) -> Result<Vec<String>, CliError> {
    let profile = profile();
    let affected = affected_files(
        paths,
        files.contains_key(&paths.config),
        files.contains_key(&paths.allowlist),
        files.contains_key(&paths.generation),
    );
    let plan: UninstallPlan = plan_uninstall(
        &profile,
        paths,
        files.get(&paths.config).map(String::as_str),
        files.get(&paths.allowlist).map(String::as_str),
    )?;
    let changes = uninstall_changes(paths, &plan);
    change_files(files, paths, "uninstall", changes, fault, &|files| {
        verify_uninstall(
            &profile,
            paths,
            files.contains_key(&paths.generation),
            &file(files, &paths.config),
            &file(files, &paths.allowlist),
            plan.owned.as_deref(),
            &vec![],
        )
    })?;
    Ok(affected)
}

fn uninstall(files: &mut Files, paths: &PersistentPaths) -> Result<Vec<String>, CliError> {
    uninstall_with(files, paths, &mut |_, _, _| Ok(None))
}

/// Uninstalls what is managed; leaves everything else alone.
fn uninstall_persistent(files: &mut Files, paths: &PersistentPaths) -> Result<Vec<String>, CliError> {
    if !managed(files, paths) {
        return Ok(Vec::new());
    }
    uninstall(files, paths)
}

fn managed(files: &Files, paths: &PersistentPaths) -> bool {
    persistent_paths_have_managed_state(
        &profile(),
        paths,
        files.contains_key(&paths.generation),
        &file(files, &paths.config),
        &file(files, &paths.allowlist),
        &vec![],
    )
    .unwrap()
}

fn diagnose(files: &Files, paths: &PersistentPaths, executable: bool, environment: Vec<String>) -> Result<String, String> {
    let config = to_object(yaml(files, &paths.config));
    diagnose_persistent(
        &profile(),
        paths,
        &Installation {
            config: &config,
            executable,
            token: token_in(files, paths),
            allowlist: read(files, &paths.allowlist),
            environment: Ok(environment),
        },
    )
}

#[test]
fn install_is_verified_idempotent_and_rotates_the_generation() {
    let paths = paths("/tmp/x/hermes");
    let environment = vec!["OTEL_SERVICE_NAME".to_string()];
    let mut files = Files::new();

    install(&mut files, &paths, &environment).unwrap();
    let mut written: Vec<String> = files.keys().cloned().collect();
    let mut all = paths.all();
    written.sort();
    all.sort();
    assert_eq!(written, all);
    let first_generation = token_in(&files, &paths).unwrap();
    let first_config = yaml(&files, &paths.config);
    let first_command = first_config["hooks"]["on_session_start"][0]["command"]
        .as_str()
        .unwrap()
        .to_string();
    assert_eq!(
        first_config["mcp_servers"][MCP_SERVER_NAME]["env"]["NEMO_RELAY_GENERATION_TOKEN"],
        text(&first_generation)
    );
    assert!(first_command.ends_with(&format!("--generation-token {first_generation}")));

    install(&mut files, &paths, &environment).unwrap();
    let second_generation = token_in(&files, &paths).unwrap();
    assert_ne!(first_generation, second_generation);

    let config = yaml(&files, &paths.config);
    let second_command = persistent_hook_command(&Platform::posix(), RELAY, &paths.generation, &second_generation);
    let count = |command: &str| {
        config["hooks"]["on_session_start"]
            .as_array()
            .unwrap()
            .iter()
            .filter(|group| group["command"] == text(command))
            .count()
    };
    assert_eq!(count(&second_command), 1);
    assert_eq!(count(&first_command), 0);
    let env = &config["mcp_servers"][MCP_SERVER_NAME]["env"];
    assert_eq!(env["NEMO_RELAY_GENERATION_FILE"], text(&paths.generation));
    assert_eq!(env["NEMO_RELAY_GENERATION_TOKEN"], text(&second_generation));
    assert_ne!(
        first_config["mcp_servers"][MCP_SERVER_NAME]["env"]["NEMO_RELAY_GENERATION_TOKEN"],
        env["NEMO_RELAY_GENERATION_TOKEN"]
    );
    assert!(!first_command.ends_with(&format!("--generation-token {second_generation}")));
    assert_eq!(env["OTEL_SERVICE_NAME"], text("${OTEL_SERVICE_NAME}"));
    assert_eq!(
        value(&files[&paths.allowlist])["approvals"].as_array().unwrap().len(),
        profile().hook_events.len()
    );
}

#[test]
fn a_plan_with_a_given_token_is_exact() {
    let paths = paths("/h");
    let plan = plan_install(
        &profile(),
        &paths,
        "/relay",
        &vec![],
        None,
        None,
        "tok".to_string(),
        &epoch(),
    )
    .unwrap();
    assert_eq!(plan.generation, "tok\n");
    assert_eq!(
        plan.command,
        "/relay hook-forward hermes --gateway-url http://127.0.0.1:47632 --generation-file /h/nemo-relay-generation --generation-token tok"
    );
    let config: Value = serde_yaml::from_str(&plan.config).unwrap();
    assert_eq!(
        config["mcp_servers"][MCP_SERVER_NAME],
        value(
            r#"{"command": "/relay", "args": ["mcp"], "env": {
                "NEMO_RELAY_GATEWAY_BIND": "127.0.0.1:47632",
                "NEMO_RELAY_GENERATION_FILE": "/h/nemo-relay-generation",
                "NEMO_RELAY_GENERATION_TOKEN": "tok"}}"#
        )
    );
    assert_eq!(config["hooks"]["on_session_end"][0]["timeout"], value("30"));
    let changes = install_changes(&paths, &plan);
    let order: Vec<&str> = changes.iter().map(|change| change.path.as_str()).collect();
    assert_eq!(
        order,
        vec!["/h/nemo-relay-generation", "/h/shell-hooks-allowlist.json", "/h/config.yaml"]
    );
}

#[test]
fn fresh_tokens_are_version_seven_uuids() {
    let plan = plan_fresh_install(&profile(), &paths("/h"), "/relay", &vec![], None, None, &epoch()).unwrap();
    let token = plan.token;
    assert_eq!(token.len(), 36);
    assert_eq!(&token[14..15], "7");
    for i in [8, 13, 18, 23] {
        assert_eq!(&token[i..i + 1], "-");
    }
}

#[test]
fn manual_same_named_mcp_and_hooks_are_never_claimed() {
    let profile = profile();
    let generation = "/tmp/x/nemo-relay-generation";
    let command = persistent_hook_command(&Platform::posix(), RELAY, generation, "test-generation");
    let mut root = value(
        r#"{"mcp_servers": {"nemo-relay": {"args": ["mcp"], "env": {"CUSTOM": "keep"}}},
            "hooks": {"on_session_start": [{}]}}"#,
    );
    root["mcp_servers"][MCP_SERVER_NAME]["command"] = text(RELAY);
    root["hooks"]["on_session_start"][0]["command"] = text(&format!("{RELAY} hook-forward hermes"));
    let manual = serde_yaml::to_string(&root).unwrap();

    let error = persistent_config(
        &profile,
        Some(&manual),
        RELAY,
        &command,
        generation,
        "test-generation",
        &vec![],
    )
    .unwrap_err();
    assert!(error.message().contains("not managed by Relay"), "{}", error.message());

    let paths = paths("/tmp/x/hermes");
    let mut files = Files::new();
    files.insert(paths.config.clone(), manual.clone());
    let mut allowlist = value(r#"{"approvals": [{"event": "on_session_start"}]}"#);
    allowlist["approvals"][0]["command"] = text(&format!("{RELAY} hook-forward hermes"));
    files.insert(paths.allowlist.clone(), allowlist.to_string());
    files.insert(paths.generation.clone(), "orphaned-relay-state\n".to_string());

    uninstall(&mut files, &paths).unwrap();
    assert_eq!(files[&paths.config], manual);
    assert_eq!(value(&files[&paths.allowlist])["approvals"].as_array().unwrap().len(), 1);
}

#[test]
fn foreign_reserved_server_aborts_install_before_any_file_changes() {
    let paths = paths("/tmp/x/hermes");
    let config = "# preserve\nmcp_servers:\n  nemo-relay:\n    command: foreign-mcp\n    args: [serve]\n";
    let allowlist = "{\"approvals\":[{\"event\":\"custom\",\"command\":\"custom-hook\"}]}\n";
    let mut files = Files::new();
    files.insert(paths.config.clone(), config.to_string());
    files.insert(paths.allowlist.clone(), allowlist.to_string());

    let error = install(&mut files, &paths, &vec![]).unwrap_err();

    assert!(error.message().contains("not managed by Relay"), "{}", error.message());
    assert_eq!(files[&paths.config], config);
    assert_eq!(files[&paths.allowlist], allowlist);
    assert!(!files.contains_key(&paths.generation));
}

#[test]
fn reinstall_verifies_generation_through_the_existing_retirement_transaction() {
    let paths = paths("/tmp/x/hermes");
    let mut files = Files::new();
    install(&mut files, &paths, &vec![]).unwrap();
    let first_token = token_in(&files, &paths).unwrap();
    assert!(matches!(after_acquire(Ok(true)), RetirementStep::Invalidate));

    let result = install(&mut files, &paths, &vec![]);
    assert_eq!(generation_end(result.is_ok(), true), GenerationEnd::Commit);
    finish_generation_mutation(result, None, "install").unwrap();

    assert_ne!(first_token, token_in(&files, &paths).unwrap());
}

#[test]
fn composed_install_rollback_restores_the_visible_preexisting_generation() {
    let paths = paths("/tmp/x/hermes");
    let mut files = Files::new();
    install(&mut files, &paths, &vec![]).unwrap();
    let previous = token_in(&files, &paths).unwrap();

    let result = install_with(&mut files, &paths, &vec![], &mut |write, _, _| {
        if write == 3 {
            return Err("injected composed install failure".to_string());
        }
        Ok(None)
    });
    assert_eq!(generation_end(result.is_ok(), true), GenerationEnd::Restore);
    let error = finish_generation_mutation(result, Some(Ok(())), "install").unwrap_err();

    assert!(error.message().contains("injected composed install failure"), "{}", error.message());
    assert_eq!(token_in(&files, &paths).unwrap(), previous);
}

#[test]
fn composed_uninstall_rollback_restores_the_visible_preexisting_generation() {
    let paths = paths("/tmp/x/hermes");
    let mut files = Files::new();
    files.insert(paths.config.clone(), "model: keep\n".to_string());
    files.insert(paths.allowlist.clone(), "{\"owner\":\"keep\"}\n".to_string());
    install(&mut files, &paths, &vec![]).unwrap();
    let previous = token_in(&files, &paths).unwrap();

    let result = uninstall_with(&mut files, &paths, &mut |write, _, _| {
        if write == 2 {
            return Err("injected composed uninstall failure".to_string());
        }
        Ok(None)
    });
    let error = finish_generation_mutation(result, Some(Ok(())), "uninstall").unwrap_err();

    assert!(error.message().contains("injected composed uninstall failure"), "{}", error.message());
    assert_eq!(token_in(&files, &paths).unwrap(), previous);
}

#[test]
fn diagnosis_rejects_a_stale_mcp_generation_identity() {
    let paths = paths("/tmp/x/hermes");
    let mut files = Files::new();
    install(&mut files, &paths, &vec![]).unwrap();
    let mut config = yaml(&files, &paths.config);
    config["mcp_servers"][MCP_SERVER_NAME]["env"]["NEMO_RELAY_GENERATION_TOKEN"] = text("stale-generation");
    files.insert(paths.config.clone(), serde_yaml::to_string(&config).unwrap());

    let error = diagnose(&files, &paths, true, vec![]).unwrap_err();

    assert!(error.contains("expected generation identity is stale"), "{error}");
}

#[test]
fn install_rolls_back_config_allowlist_and_generation_after_write_failure() {
    let paths = paths("/tmp/x/hermes");
    let mut files = Files::new();
    files.insert(paths.config.clone(), "model: original\n".to_string());
    files.insert(
        paths.allowlist.clone(),
        "{\"approvals\":[{\"event\":\"x\",\"command\":\"custom\"}]}\n".to_string(),
    );
    files.insert(paths.generation.clone(), "original-generation\n".to_string());
    let before = files.clone();

    let error = install_with(&mut files, &paths, &vec![], &mut |write, _, _| {
        if write == 3 {
            return Err("injected config write failure".to_string());
        }
        Ok(None)
    })
    .unwrap_err();

    assert!(error.message().contains("injected config write failure"), "{}", error.message());
    assert_eq!(files, before);
}

#[test]
fn install_rolls_back_after_post_write_verification_failure() {
    let paths = paths("/tmp/x/hermes");
    let mut files = Files::new();
    files.insert(paths.config.clone(), "model: original\n".to_string());
    files.insert(paths.allowlist.clone(), "{\"approvals\":[]}\n".to_string());
    files.insert(paths.generation.clone(), "old\n".to_string());
    let before = files.clone();
    let config = paths.config.clone();

    let error = install_with(&mut files, &paths, &vec![], &mut |_, path, _| {
        if path == config {
            return Ok(Some("hooks: invalid-shape\n".to_string()));
        }
        Ok(None)
    })
    .unwrap_err();

    assert!(
        error.message().contains("Hermes MCP server did not persist exactly"),
        "{}",
        error.message()
    );
    assert_eq!(files, before);
}

#[test]
fn uninstall_removes_only_relay_owned_hermes_state() {
    let paths = paths("/tmp/x/hermes");
    let mut files = Files::new();
    files.insert(
        paths.config.clone(),
        "model: keep\nmcp_servers:\n  filesystem:\n    command: fs-mcp\nhooks:\n  custom_event:\n  - command: custom-hook\n"
            .to_string(),
    );
    files.insert(
        paths.allowlist.clone(),
        "{\"owner\":\"user\",\"approvals\":[{\"event\":\"custom_event\",\"command\":\"custom-hook\"}]}\n".to_string(),
    );
    let original = yaml(&files, &paths.config);
    install(&mut files, &paths, &vec![]).unwrap();

    let removed = uninstall(&mut files, &paths).unwrap();

    assert_eq!(removed, paths.all());
    assert!(!files.contains_key(&paths.generation));
    let config = yaml(&files, &paths.config);
    assert_eq!(config, original);
    assert_eq!(config["model"], text("keep"));
    assert_eq!(config["mcp_servers"]["filesystem"]["command"], text("fs-mcp"));
    assert!(config["mcp_servers"].get(MCP_SERVER_NAME).is_none());
    assert_eq!(config["hooks"]["custom_event"][0]["command"], text("custom-hook"));
    let allowlist = value(&files[&paths.allowlist]);
    assert_eq!(allowlist["owner"], text("user"));
    assert_eq!(allowlist["approvals"].as_array().unwrap().len(), 1);
    assert_eq!(allowlist["approvals"][0]["command"], text("custom-hook"));
}

#[test]
fn uninstall_removes_files_that_hold_nothing_else() {
    let paths = paths("/tmp/x/hermes");
    let mut files = Files::new();
    install(&mut files, &paths, &vec![]).unwrap();
    assert_eq!(files.len(), 3);
    uninstall(&mut files, &paths).unwrap();
    assert!(files.is_empty());
}

#[test]
fn uninstall_rolls_back_every_file_when_commit_fails() {
    let paths = paths("/tmp/x/hermes");
    let mut files = Files::new();
    files.insert(paths.config.clone(), "model: keep\n".to_string());
    files.insert(paths.allowlist.clone(), "{\"owner\":\"keep\"}\n".to_string());
    install(&mut files, &paths, &vec![]).unwrap();
    let before = files.clone();

    let error = uninstall_with(&mut files, &paths, &mut |write, _, _| {
        if write == 2 {
            return Err("injected uninstall config failure".to_string());
        }
        Ok(None)
    })
    .unwrap_err();

    assert!(
        error.message().contains("injected uninstall config failure"),
        "{}",
        error.message()
    );
    assert_eq!(files, before);
}

#[test]
fn unrelated_hermes_files_are_not_owned_or_rewritten_by_uninstall() {
    let paths = paths("/tmp/x/hermes");
    let config = "# preserve this exact formatting\nmodel: custom\nmcp_servers:\n  nemo-relay:\n    command: foreign-mcp\n    args: [serve]\n";
    let allowlist = "{ \"approvals\": [{\"event\":\"custom\",\"command\":\"custom-hook\"}] }\n";
    let mut files = Files::new();
    files.insert(paths.config.clone(), config.to_string());
    files.insert(paths.allowlist.clone(), allowlist.to_string());

    assert!(!managed(&files, &paths));
    assert!(uninstall_persistent(&mut files, &paths).unwrap().is_empty());
    assert_eq!(files[&paths.config], config);
    assert_eq!(files[&paths.allowlist], allowlist);
    assert!(!files.contains_key(&paths.generation));
}

#[test]
fn uninstall_noops_without_creating_a_hermes_home() {
    let paths = paths("/tmp/x/missing-hermes-home");
    let mut files = Files::new();

    assert!(uninstall_persistent(&mut files, &paths).unwrap().is_empty());
    assert!(files.is_empty());
}

#[test]
fn persistent_state_detection_recognizes_each_relay_owned_surface() {
    let roots: Vec<PersistentPaths> = ["generation", "mcp", "hook", "approval"]
        .iter()
        .map(|name| paths(&format!("/tmp/x/{name}")))
        .collect();
    let mut files = Files::new();
    files.insert(roots[0].generation.clone(), "active\n".to_string());
    let mut config = value(r#"{"mcp_servers": {}}"#);
    config["mcp_servers"][MCP_SERVER_NAME] =
        expected_mcp_server(&profile(), RELAY, &roots[1].generation, "test-generation", &vec![]).to_value();
    files.insert(roots[1].config.clone(), serde_yaml::to_string(&config).unwrap());
    let mut config = value(r#"{"hooks": {"on_session_start": [{}]}}"#);
    config["hooks"]["on_session_start"][0]["command"] =
        text(&persistent_hook_command(&Platform::posix(), RELAY, &roots[2].generation, "test-generation"));
    files.insert(roots[2].config.clone(), serde_yaml::to_string(&config).unwrap());
    let mut allowlist = value(r#"{"approvals": [{"event": "on_session_start"}]}"#);
    allowlist["approvals"][0]["command"] =
        text(&persistent_hook_command(&Platform::posix(), RELAY, &roots[3].generation, "test-generation"));
    files.insert(roots[3].allowlist.clone(), allowlist.to_string());

    for paths in [&roots[0], &roots[1], &roots[3]] {
        assert!(managed(&files, paths), "managed state at {} was not detected", paths.config);
    }
    assert!(!managed(&files, &roots[2]));
}

#[test]
fn unreadable_files_keep_managed_state_from_being_known() {
    let paths = paths("/h");
    let broken = FileText::Unreadable("is a directory".to_string());
    let error = persistent_paths_have_managed_state(&profile(), &paths, false, &broken, &FileText::Missing, &vec![])
        .unwrap_err();
    assert_eq!(error.message(), "failed to read /h/config.yaml: is a directory");
    let known = persistent_paths_have_managed_state(&profile(), &paths, true, &broken, &FileText::Missing, &vec![]);
    assert_eq!(known.unwrap(), true);
    assert_eq!(read_optional_utf8(&FileText::Missing, "/h/x").unwrap(), None);
}

#[test]
fn encoded_commands_are_told_by_their_arguments() {
    let paths = paths("/h");
    let allowlist = FileText::Text(r#"{"approvals": [{"command": "powershell -enc AAAA"}]}"#.to_string());
    let arguments: Vec<String> = [
        "relay",
        "hook-forward",
        "hermes",
        "--gateway-url",
        "http://127.0.0.1:47632",
        "--generation-file",
        "f",
        "--generation-token",
        "t",
    ]
    .iter()
    .map(|s| s.to_string())
    .collect();
    let decoded = vec![("powershell -enc AAAA".to_string(), arguments)];
    let known =
        persistent_paths_have_managed_state(&profile(), &paths, false, &FileText::Missing, &allowlist, &decoded);
    assert_eq!(known.unwrap(), true);
    let known =
        persistent_paths_have_managed_state(&profile(), &paths, false, &FileText::Missing, &allowlist, &vec![]);
    assert_eq!(known.unwrap(), false);
}

#[test]
fn malformed_user_files_fail_before_any_state_is_replaced() {
    let paths = paths("/tmp/x/hermes");
    let mut files = Files::new();
    files.insert(paths.config.clone(), "hooks: [not-an-object]\n".to_string());
    files.insert(paths.allowlist.clone(), "{\"approvals\":[]}".to_string());
    files.insert(paths.generation.clone(), "old\n".to_string());
    let before = files.clone();

    assert!(install(&mut files, &paths, &vec![]).is_err());
    assert_eq!(files, before);
}

#[test]
fn hermes_entrypoints_reject_missing_or_foreign_relay_binaries() {
    let error = require_installable("/tmp/x/missing/nemo-relay".to_string(), false).unwrap_err();
    assert!(error.message().contains("missing or not executable"), "{}", error.message());
    let error = require_executable("/tmp/x/missing/nemo-relay".to_string(), false).unwrap_err();
    assert_eq!(
        error,
        "configured nemo-relay executable is missing or not executable at /tmp/x/missing/nemo-relay"
    );
    assert_eq!(require_installable(RELAY.to_string(), true).unwrap(), RELAY);

    let raw = format!(
        "mcp_servers:\n  {MCP_SERVER_NAME}:\n    command: {}\n    args: [mcp]\n",
        "/tmp/x/missing/nemo-relay"
    );
    let error = configured_relay_executable(&profile(), &raw).unwrap_err();
    assert!(error.contains("not a managed Relay MCP client"), "{error}");

    let foreign = to_object(value(
        r#"{"mcp_servers": {"nemo-relay": {"command": "foreign-mcp", "args": ["serve"]}}}"#,
    ));
    let error = relay_executable_from_config(&profile(), &foreign).unwrap_err();
    assert!(error.contains("not a managed Relay MCP client"), "{error}");
    let error = relay_executable_from_config(&profile(), &to_object(value("{}"))).unwrap_err();
    assert_eq!(error, "Hermes MCP server `nemo-relay` is missing");
    let bare = to_object(value(r#"{"mcp_servers": {"nemo-relay": {}}}"#));
    let error = relay_executable_from_config(&profile(), &bare).unwrap_err();
    assert_eq!(error, "Hermes Relay MCP command is missing");
}

#[test]
fn hermes_diagnosis_validates_binary_bind_generation_and_environment() {
    let paths = paths("/tmp/x/hermes");
    let environment = vec!["OPENAI_API_KEY".to_string(), "AWS_REGION".to_string()];
    let mut files = Files::new();
    install(&mut files, &paths, &environment).unwrap();
    assert_eq!(
        diagnose(&files, &paths, true, environment.clone()).unwrap(),
        "MCP lifecycle and 3 hooks trusted at /tmp/x/hermes/config.yaml"
    );

    let original = yaml(&files, &paths.config);
    let error = diagnose(&files, &paths, false, environment.clone()).unwrap_err();
    assert!(error.contains("missing or not executable"), "{error}");

    let mut wrong_bind = original.clone();
    wrong_bind["mcp_servers"][MCP_SERVER_NAME]["env"]["NEMO_RELAY_GATEWAY_BIND"] = text("127.0.0.1:1");
    files.insert(paths.config.clone(), serde_yaml::to_string(&wrong_bind).unwrap());
    let error = diagnose(&files, &paths, true, environment.clone()).unwrap_err();
    assert!(error.contains("not a managed Relay MCP client"), "{error}");

    let mut wrong_generation = original.clone();
    wrong_generation["mcp_servers"][MCP_SERVER_NAME]["env"]["NEMO_RELAY_GENERATION_FILE"] =
        text("/tmp/x/wrong-generation");
    files.insert(paths.config.clone(), serde_yaml::to_string(&wrong_generation).unwrap());
    let error = diagnose(&files, &paths, true, environment.clone()).unwrap_err();
    assert!(error.contains("generation fence points at the wrong file"), "{error}");

    let mut missing_environment = original;
    assert!(missing_environment["mcp_servers"][MCP_SERVER_NAME]["env"]
        .as_object_mut()
        .unwrap()
        .remove("OPENAI_API_KEY")
        .is_some());
    files.insert(paths.config.clone(), serde_yaml::to_string(&missing_environment).unwrap());
    let error = diagnose(&files, &paths, true, environment).unwrap_err();
    assert!(error.contains("missing environment names"), "{error}");
    assert!(error.contains("OPENAI_API_KEY"), "{error}");
    assert!(!error.contains("AWS_REGION"), "{error}");
    assert!(error.contains("install hermes --force"), "{error}");
}

#[test]
fn hermes_generation_finish_preserves_primary_errors_and_reports_restore_failures() {
    let primary = CliError::Install("primary failure".to_string());
    let error = finish_generation_mutation::<()>(Err(primary), None, "install").unwrap_err();
    assert!(error.message().contains("primary failure"), "{}", error.message());

    let error = finish_generation_mutation::<()>(
        Err(CliError::Install("mutation failed".to_string())),
        Some(Err("token changed".to_string())),
        "install",
    )
    .unwrap_err();
    assert_eq!(
        error.message(),
        "mutation failed; additionally failed to restore the Hermes MCP generation after install: token changed"
    );
    assert_eq!(finish_generation_mutation(Ok(3), None, "install").unwrap(), 3);
    assert_eq!(generation_end(true, true), GenerationEnd::Commit);
    assert_eq!(generation_end(false, true), GenerationEnd::Restore);
    assert_eq!(generation_end(false, false), GenerationEnd::Nothing);
}

#[test]
fn a_gateway_that_does_not_stop_brings_the_generation_back() {
    assert!(matches!(after_acquire(Ok(true)), RetirementStep::Invalidate));
    assert!(matches!(
        after_acquire(Ok(false)),
        RetirementStep::StopGateway { held: false }
    ));
    assert!(matches!(after_acquire(Err("busy".to_string())), RetirementStep::Failed(_)));
    assert!(matches!(
        after_invalidate(Ok(())),
        RetirementStep::StopGateway { held: true }
    ));
    assert!(matches!(after_invalidate(Err("io".to_string())), RetirementStep::Failed(_)));
    assert!(matches!(after_stop(true, Ok(())), RetirementStep::Retired { held: true }));
    assert!(matches!(
        after_stop(false, Err("still up".to_string())),
        RetirementStep::Failed(_)
    ));
    match after_stop(true, Err("still up".to_string())) {
        RetirementStep::Restore { error } => {
            assert_eq!(after_restore(error.clone(), Ok(())).message(), "still up");
            assert_eq!(
                after_restore(error, Err("gone".to_string())).message(),
                "still up; additionally failed to restore the Hermes MCP generation: gone"
            );
        }
        _ => panic!("the generation has to come back"),
    }
}

#[test]
fn hermes_uninstall_and_verification_reject_malformed_or_residual_state() {
    let hermes_paths = paths("/tmp/x/hermes");
    let environment = vec!["OPENAI_API_KEY".to_string()];
    let mut files = Files::new();
    install(&mut files, &hermes_paths, &environment).unwrap();
    let config = yaml(&files, &hermes_paths.config);
    let command = config["hooks"]["on_session_start"][0]["command"]
        .as_str()
        .unwrap()
        .to_string();
    let token = token_in(&files, &hermes_paths).unwrap();

    let mut duplicate_hook = config.clone();
    let mut again = value("{}");
    again["command"] = text(&command);
    duplicate_hook["hooks"]["on_session_start"]
        .as_array_mut()
        .unwrap()
        .push(again);
    let error =
        verify_hook_definitions(&to_object(duplicate_hook), &profile().hook_events, &command).unwrap_err();
    assert!(error.contains("exactly one trusted Relay handler"), "{error}");

    let mut harmless_missing_command = config.clone();
    harmless_missing_command["hooks"]
        .as_object_mut()
        .unwrap()
        .insert("custom".to_string(), value(r#"[{"timeout": 1}]"#));
    verify_hook_definitions(&to_object(harmless_missing_command), &profile().hook_events, &command).unwrap();

    let verify = |files: &Files, command: &str, token: &str| {
        verify_install(
            &profile(),
            &hermes_paths,
            RELAY,
            command,
            &environment,
            token,
            &read(files, &hermes_paths.config),
            &read(files, &hermes_paths.allowlist),
            &token_in(files, &hermes_paths),
        )
    };
    verify(&files, &command, &token).unwrap();

    let mut mismatched_environment = config;
    mismatched_environment["mcp_servers"][MCP_SERVER_NAME]["env"]["OPENAI_API_KEY"] = text("unexpected-value");
    files.insert(
        hermes_paths.config.clone(),
        serde_yaml::to_string(&mismatched_environment).unwrap(),
    );
    let error = diagnose(&files, &hermes_paths, true, environment.clone()).unwrap_err();
    assert!(error.contains("OPENAI_API_KEY"), "{error}");

    install(&mut files, &hermes_paths, &environment).unwrap();
    let config = yaml(&files, &hermes_paths.config);
    let command = config["hooks"]["on_session_start"][0]["command"]
        .as_str()
        .unwrap()
        .to_string();
    let expected_token = token_in(&files, &hermes_paths).unwrap();
    files.insert(hermes_paths.generation.clone(), "another\n".to_string());
    let error = verify(&files, &command, &expected_token).unwrap_err();
    assert!(error.contains("generation did not persist exactly"), "{error}");
    files.remove(&hermes_paths.config);
    let error = verify(&files, &command, &expected_token).unwrap_err();
    assert_eq!(error, "failed to verify /tmp/x/hermes/config.yaml: no such file");

    let malformed_paths = paths("/tmp/x/malformed");
    let mut malformed = Files::new();
    malformed.insert(malformed_paths.allowlist.clone(), r#"{"approvals":{}}"#.to_string());
    let error = uninstall(&mut malformed, &malformed_paths).unwrap_err();
    assert!(error.message().contains("approvals must be an array"), "{}", error.message());
}

#[test]
fn hermes_uninstall_verifier_identifies_each_residual_owned_surface() {
    let paths = paths("/tmp/x/hermes");
    let mut files = Files::new();
    install(&mut files, &paths, &vec![]).unwrap();

    let command = owned_command_from_config(
        &profile(),
        &to_object(yaml(&files, &paths.config)),
        Some(&paths.generation),
    );
    let verify = |files: &Files| {
        verify_uninstall(
            &profile(),
            &paths,
            files.contains_key(&paths.generation),
            &file(files, &paths.config),
            &file(files, &paths.allowlist),
            command.as_deref(),
            &vec![],
        )
    };
    let error = verify(&files).unwrap_err();
    assert!(error.contains("generation fence still exists"), "{error}");

    files.remove(&paths.generation);
    let error = verify(&files).unwrap_err();
    assert!(error.contains("managed Hermes Relay config still exists"), "{error}");

    files.remove(&paths.config);
    let error = verify(&files).unwrap_err();
    assert!(error.contains("managed Hermes Relay trust approval still exists"), "{error}");

    files.remove(&paths.allowlist);
    verify(&files).unwrap();
}

#[test]
fn hermes_rollback_reports_both_primary_and_snapshot_restore_errors() {
    let error = rollback_error("install", "primary failure", &vec!["restore failure".to_string()]);
    assert!(error.message().contains("primary failure"), "{}", error.message());
    assert!(
        error.message().contains("rollback also failed: restore failure"),
        "{}",
        error.message()
    );
    assert_eq!(
        rollback_error("uninstall", "e", &vec!["a".to_string(), "b".to_string()]).message(),
        "failed to uninstall Hermes MCP integration: e; rollback also failed: a; b"
    );
    assert_eq!(
        rollback_error("install", "e", &vec![]).message(),
        "failed to install Hermes MCP integration: e"
    );
}

#[test]
fn a_failed_transaction_puts_every_file_back() {
    let (state, action) = begin_transaction(3);
    assert!(matches!(action, TransactionAction::Change(0)));
    let (state, action) = advance_transaction("install", 3, 3, state.unwrap(), Ok(()));
    assert!(matches!(action, TransactionAction::Change(1)));
    let (state, action) = advance_transaction("install", 3, 3, state.unwrap(), Err("full".to_string()));
    assert!(matches!(action, TransactionAction::Restore(2)));
    let (state, action) = advance_transaction("install", 3, 3, state.unwrap(), Err("gone".to_string()));
    assert!(matches!(action, TransactionAction::Restore(1)));
    let (state, action) = advance_transaction("install", 3, 3, state.unwrap(), Ok(()));
    assert!(matches!(action, TransactionAction::Restore(0)));
    let (state, action) = advance_transaction("install", 3, 3, state.unwrap(), Ok(()));
    assert!(state.is_none());
    match action {
        TransactionAction::Failed(error) => assert_eq!(
            error.message(),
            "failed to install Hermes MCP integration: full; rollback also failed: gone"
        ),
        _ => panic!("the transaction has to fail"),
    }
}

#[test]
fn hermes_uninstall_preserves_an_ambiguous_manual_allowlist() {
    let paths = paths("/tmp/x/hermes");
    let mut files = Files::new();
    files.insert(
        paths.allowlist.clone(),
        r#"{"approvals": [{"event": "on_session_start", "command": "nemo-relay hook-forward hermes"}]}"#.to_string(),
    );

    let affected = uninstall(&mut files, &paths).unwrap();

    assert_eq!(affected, vec![paths.allowlist.clone()]);
    assert!(files.contains_key(&paths.allowlist));
    assert_eq!(value(&files[&paths.allowlist])["approvals"].as_array().unwrap().len(), 1);
}
