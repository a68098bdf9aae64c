use relay_core::bootstrap::{
    after_owner, after_probe, after_shutdown_probe, after_shutdown_request, lock_name, lock_path, owner_path,
    publish_owner, recovery_path, removes_record, state_dir, OwnerRecord, RelayHealth, ServingProcess, StopStep,
    BOOTSTRAP_SHUTDOWN_TOKEN_ENV, BOOTSTRAP_STATE_DIR_ENV, SHUTDOWN_POLL_MILLIS,
};
use relay_core::error::CliError;
use relay_core::gateway::{
    build_llm_gateway_start, prepare_gateway_request, request_json, without_client_token, GatewayIdentity,
    RequestBody,
};
use relay_core::json::{Json, JsonObject};
use relay_core::locks::{
    after_gateway_attempt, after_install_attempt, LockAttempt, LockStep, ALLOWLIST_CONTENTION,
    GATEWAY_LOCK_RETRY_NANOS, INSTALL_CONTENTION, INSTALL_LOCK_RETRY_NANOS,
};
use relay_core::sessions::{
    sessions_to_restore, subagents_to_clear, summarize_sweep, sweep_result, ClosedTurn, ShutdownOutcome,
};
use reqwest::header::{HeaderMap, HeaderName, HeaderValue};
use relay_core::snapshots::{backup_path, makes_backup};

const URL: &str = "http://127.0.0.1:47632";

fn record(token: &str, fingerprint: Option<&str>) -> OwnerRecord {
    OwnerRecord::new("0.1.0", 2, 77, URL, token, fingerprint)
}

#[test]
fn a_record_names_its_gateway() {
    let owner = record("token", Some("print"));
    assert_eq!(owner.service, "nemo-relay");
    assert_eq!(owner.pid, 77);
    assert!(owner.valid_for(URL, 2));
    assert!(!owner.valid_for(URL, 3));
    assert!(!owner.valid_for("http://127.0.0.1:1", 2));
    assert!(!record("", Some("print")).valid_for(URL, 2));
    assert!(!record("token", Some("")).valid_for(URL, 2));
    assert!(!record("token", None).valid_for(URL, 2));
    let mut foreign = record("token", Some("print"));
    foreign.service = "other".to_string();
    assert!(!foreign.valid_for(URL, 2));
}

#[test]
fn a_record_is_removed_only_where_it_is_unchanged() {
    let owner = record("token", Some("print"));
    assert!(owner.same_as(&record("token", Some("print"))));
    assert!(!owner.same_as(&record("token", None)));
    assert!(removes_record(Some(&record("token", Some("print"))), &owner));
    assert!(!removes_record(Some(&record("other", Some("print"))), &owner));
    assert!(!removes_record(None, &owner));
}

#[test]
fn files_are_named_after_the_endpoint() {
    assert_eq!(lock_name(URL), "127.0.0.1-47632");
    assert_eq!(lock_name("https://relay.example/x"), "relay.example-443");
    assert_eq!(lock_name("http://[::1]:8080"), "___1_-8080");
    assert_eq!(lock_name("not a url"), "not_a_url");
    assert_eq!(lock_name(""), "unknown");
    assert_eq!(owner_path(false, "/state", URL), "/state/sidecar-127.0.0.1-47632.owner.json");
    assert_eq!(lock_path(false, "/state", URL), "/state/gateway-127.0.0.1-47632.lock");
    assert_eq!(recovery_path(false, "/state", URL), "/state/gateway-127.0.0.1-47632.recovery.json");
    assert_eq!(lock_path(true, r"C:\state", URL), r"C:\state\gateway-127.0.0.1-47632.lock");
    // A name is its own name, and what else a URL holds does not count.
    assert_eq!(lock_name("127.0.0.1-47632"), "127.0.0.1-47632");
    assert_eq!(lock_name("unknown"), "unknown");
    assert_eq!(lock_name(&lock_name("not a url: /x")), lock_name("not a url: /x"));
    assert_eq!(lock_name("http://127.0.0.1:47632/a?b=1"), "127.0.0.1-47632");
}

#[test]
fn state_stands_in_the_directory_of_the_user() {
    assert_eq!(state_dir(false, Some("/home/u/.config/nemo-relay")).unwrap(), "/home/u/.config/nemo-relay/bootstrap");
    assert_eq!(
        state_dir(false, None).unwrap_err(),
        "cannot determine the per-user NeMo Relay bootstrap state directory; set HOME or USERPROFILE"
    );
}

fn process<'a>() -> ServingProcess<'a> {
    ServingProcess {
        windows: false,
        state: Some("/state"),
        state_is_absolute: true,
        shutdown_token: Some("token"),
        address: "127.0.0.1:47632",
        address_is_loopback: true,
        fingerprint: Some("print"),
        version: "0.1.0",
        protocol: 2,
        pid: 77,
    }
}

#[test]
fn an_owner_is_published_for_a_managed_gateway() {
    let (path, owner) = publish_owner(&process()).unwrap().unwrap();
    assert_eq!(path, "/state/sidecar-127.0.0.1-47632.owner.json");
    assert!(owner.same_as(&record("token", Some("print"))));
    match after_owner(Some(&owner), URL, &path, 2) {
        StopStep::Probe { fingerprint } => assert_eq!(fingerprint, "print"),
        step => panic!("{step:?}"),
    }
    let mut unmanaged = process();
    unmanaged.state = None;
    unmanaged.shutdown_token = None;
    assert!(publish_owner(&unmanaged).unwrap().is_none());
    let mut blank = process();
    blank.fingerprint = Some("");
    assert!(publish_owner(&blank).unwrap().unwrap().1.bootstrap_fingerprint.is_none());
}

#[test]
fn a_half_managed_gateway_is_refused() {
    let mut wrong = process();
    wrong.state = None;
    assert_eq!(
        publish_owner(&wrong).unwrap_err(),
        format!("{BOOTSTRAP_STATE_DIR_ENV} is required for managed bootstrap")
    );
    let mut wrong = process();
    wrong.state = Some("state");
    wrong.state_is_absolute = false;
    assert_eq!(
        publish_owner(&wrong).unwrap_err(),
        format!("{BOOTSTRAP_STATE_DIR_ENV} must be an absolute path, got state")
    );
    for token in [None, Some("")] {
        let mut wrong = process();
        wrong.shutdown_token = token;
        assert_eq!(
            publish_owner(&wrong).unwrap_err(),
            format!("{BOOTSTRAP_SHUTDOWN_TOKEN_ENV} is required for managed bootstrap")
        );
    }
    let mut wrong = process();
    wrong.address = "10.0.0.1:1";
    wrong.address_is_loopback = false;
    assert_eq!(
        publish_owner(&wrong).unwrap_err(),
        "managed bootstrap ownership requires a loopback address, got 10.0.0.1:1"
    );
}

fn failure(step: StopStep) -> String {
    match step {
        StopStep::Failed(error) => error,
        step => panic!("{step:?}"),
    }
}

#[test]
fn only_an_owned_gateway_is_stopped() {
    assert!(matches!(after_owner(None, URL, "/p", 2), StopStep::Finished));
    assert_eq!(
        failure(after_owner(Some(&record("", None)), URL, "/p", 2)),
        "refusing to stop gateway from invalid ownership record /p"
    );
    let owner = record("token", Some("print"));
    assert!(matches!(after_probe(&owner, RelayHealth::Unavailable, URL), StopStep::RemoveRecord));
    match after_probe(&owner, RelayHealth::Compatible, URL) {
        StopStep::RequestShutdown { fingerprint, token } => {
            assert_eq!(fingerprint, "print");
            assert_eq!(token, "token");
        }
        step => panic!("{step:?}"),
    }
    for health in [RelayHealth::Incompatible, RelayHealth::Foreign] {
        assert_eq!(
            failure(after_probe(&owner, health, URL)),
            "refusing to stop an unverified process at managed gateway URL http://127.0.0.1:47632"
        );
    }
}

#[test]
fn a_stopping_gateway_is_awaited() {
    let owner = record("token", Some("print"));
    let watched = |step| match step {
        StopStep::Watch { millis, fingerprint } => (millis, fingerprint),
        step => panic!("{step:?}"),
    };
    assert_eq!(failure(after_shutdown_request(&owner, Err("denied".to_string()))), "denied");
    assert_eq!(watched(after_shutdown_request(&owner, Ok(()))), (0, "print".to_string()));
    assert!(matches!(
        after_shutdown_probe(&owner, RelayHealth::Unavailable, false, URL),
        StopStep::RemoveRecord
    ));
    assert_eq!(
        watched(after_shutdown_probe(&owner, RelayHealth::Compatible, true, URL)),
        (SHUTDOWN_POLL_MILLIS, "print".to_string())
    );
    assert_eq!(
        failure(after_shutdown_probe(&owner, RelayHealth::Compatible, false, URL)),
        "managed Relay gateway at http://127.0.0.1:47632 did not stop"
    );
    assert_eq!(
        failure(after_shutdown_probe(&owner, RelayHealth::Foreign, true, URL)),
        "a different process replaced the managed Relay gateway at http://127.0.0.1:47632 during shutdown"
    );
}

#[test]
fn install_lock_serializes_concurrent_hermes_config_updates() {
    match after_install_attempt(Ok(LockAttempt::Contended), 0, "/h/.nemo-relay-operation.lock", INSTALL_CONTENTION) {
        LockStep::Failed(error) => assert!(error.contains("another Hermes integration update"), "{error}"),
        step => panic!("{step:?}"),
    }
}

#[test]
fn locks_are_tried_until_the_time_is_up() {
    let wait = |remaining| match after_install_attempt(Ok(LockAttempt::Contended), remaining, "/l", ALLOWLIST_CONTENTION) {
        LockStep::Wait(nanos) => nanos,
        step => panic!("{step:?}"),
    };
    assert_eq!(wait(INSTALL_LOCK_RETRY_NANOS * 9), INSTALL_LOCK_RETRY_NANOS);
    assert_eq!(wait(3), 3);
    match after_install_attempt(Ok(LockAttempt::Contended), 0, "/l", ALLOWLIST_CONTENTION) {
        LockStep::Failed(error) => assert_eq!(
            error,
            "timed out waiting for a Hermes shell-hook approval update at /l; wait for it to finish and retry"
        ),
        step => panic!("{step:?}"),
    }
    match after_install_attempt(Err("io".to_string()), 5, "/l", INSTALL_CONTENTION) {
        LockStep::Failed(error) => assert_eq!(error, "failed to lock Hermes integration state /l: io"),
        step => panic!("{step:?}"),
    }
    assert!(matches!(
        after_install_attempt(Ok(LockAttempt::Acquired), 0, "/l", INSTALL_CONTENTION),
        LockStep::Held
    ));
    assert!(matches!(
        after_gateway_attempt(Ok(LockAttempt::Contended), true, "/l"),
        LockStep::Wait(GATEWAY_LOCK_RETRY_NANOS)
    ));
    match after_gateway_attempt(Ok(LockAttempt::Contended), false, "/l") {
        LockStep::Failed(error) => assert_eq!(error, "timed out waiting for gateway startup lock /l"),
        step => panic!("{step:?}"),
    }
    match after_gateway_attempt(Err("io".to_string()), true, "/l") {
        LockStep::Failed(error) => assert_eq!(error, "failed to acquire gateway startup lock /l: io"),
        step => panic!("{step:?}"),
    }
}

fn strings(list: &[&str]) -> Vec<String> {
    list.iter().map(|s| s.to_string()).collect()
}

fn turn(session: &str, result: Result<&[&str], &str>, empty: bool) -> ClosedTurn<String> {
    ClosedTurn {
        session_id: session.to_string(),
        result: result.map(strings).map_err(str::to_string),
        empty,
    }
}

#[test]
fn a_sweep_closes_what_is_idle_and_keeps_the_rest() {
    let sweep = summarize_sweep(vec![
        turn("a", Ok(&["s1", "s2"]), true),
        turn("b", Err("first"), false),
        turn("c", Ok(&["s3"]), false),
        turn("d", Err("second"), true),
    ]);
    assert_eq!(sweep.closed_turns, 2);
    assert_eq!(
        sweep.closed_subagents,
        vec![
            ("a".to_string(), "s1".to_string()),
            ("a".to_string(), "s2".to_string()),
            ("c".to_string(), "s3".to_string())
        ]
    );
    assert_eq!(sweep.retained, strings(&["b", "c"]));
    let restored = sessions_to_restore(&sweep.retained, &strings(&["c"]));
    assert_eq!(restored, strings(&["b"]));
    let cleared = subagents_to_clear(&sweep.closed_subagents, &restored, &strings(&["c", "b"]));
    assert_eq!(
        cleared,
        vec![("a".to_string(), "s1".to_string()), ("a".to_string(), "s2".to_string())]
    );
    assert_eq!(sweep_result(sweep.closed_turns, sweep.first_error).unwrap_err(), "first");
    assert_eq!(sweep_result::<String>(2, None).unwrap(), 2);
}

#[test]
fn a_shutdown_tells_its_first_failure() {
    let mut outcome: ShutdownOutcome<String> = ShutdownOutcome::new();
    outcome.closed(Ok(()));
    outcome.closed(Err("first".to_string()));
    outcome.closed(Err("second".to_string()));
    assert_eq!(outcome.finish().unwrap_err(), "first");
    let mut outcome: ShutdownOutcome<String> = ShutdownOutcome::new();
    outcome.closed(Ok(()));
    outcome.finish().unwrap();
}

fn headers(pairs: &[(&str, &str)]) -> HeaderMap {
    let mut map = HeaderMap::new();
    for (name, value) in pairs {
        map.append(HeaderName::from_bytes(name.as_bytes()).unwrap(), HeaderValue::from_str(value).unwrap());
    }
    map
}

#[test]
fn the_proof_of_a_client_is_not_passed_on() {
    let sent = headers(&[("x-token", "proof"), ("x-token", "again"), ("accept", "a"), ("accept", "b")]);
    let kept = without_client_token(sent.clone(), "X-Token");
    assert_eq!(kept, headers(&[("accept", "a"), ("accept", "b")]));
    assert_eq!(without_client_token(sent.clone(), "no header"), sent);
    let body = RequestBody::Bytes(b"{}".to_vec());
    let request = prepare_gateway_request("/v1/messages", true, sent, "x-token", body, None, "u").unwrap();
    assert_eq!(request.headers, kept);
}

#[test]
fn a_request_is_prepared_for_its_provider() {
    let body = br#"{"model": "gpt", "stream": true, "conversation": {"id": "c"}, "requestId": "r"}"#.to_vec();
    let request = prepare_gateway_request(
        "/v1/responses",
        true,
        headers(&[]),
        "x-token",
        RequestBody::Bytes(body.clone()),
        None,
        "https://provider/v1/responses?x",
    )
    .unwrap();
    assert_eq!(request.upstream_url, "https://provider/v1/responses?x");
    assert_eq!(request.body, body);
    assert!(request.streaming);
    let identity = GatewayIdentity {
        session_id: Some("s".to_string()),
        subagent_id: None,
        conversation_header: None,
        generation_header: Some("g".to_string()),
        request_header: None,
        plain_request_header: Some("p".to_string()),
    };
    let mut seen = JsonObject::new();
    seen.insert("accept".to_string(), Json::Text("a".to_string()));
    let start = build_llm_gateway_start(&request, "openai.responses", &identity, seen);
    assert_eq!(start.provider, "openai.responses");
    assert_eq!(start.session_id.as_deref(), Some("s"));
    assert_eq!(start.model_name.as_deref(), Some("gpt"));
    assert!(start.subagent_id.is_none());
    assert_eq!(start.conversation_id.as_deref(), Some("c"));
    assert_eq!(start.generation_id.as_deref(), Some("g"));
    assert_eq!(start.request_id.as_deref(), Some("r"));
    assert!(start.streaming);
    assert_eq!(start.headers.len(), 1);
    assert_eq!(start.metadata.to_value().to_string(), r#"{"gateway_path":"/v1/responses"}"#);
    assert_eq!(start.content.text_at("model"), Some("gpt"));
}

#[test]
fn a_request_that_is_no_json_is_passed_on() {
    let request = prepare_gateway_request(
        "/v1/messages",
        true,
        headers(&[]),
        "x-token",
        RequestBody::Bytes(b"plain".to_vec()),
        Some("http://override".to_string()),
        "http://provider",
    )
    .unwrap();
    assert_eq!(request.upstream_url, "http://override");
    assert!(request.request_json.to_value().is_null());
    assert!(!request.streaming);
    assert!(!request_json(&b"[1]".to_vec()).to_value().is_null());
    let identity = GatewayIdentity {
        session_id: None,
        subagent_id: None,
        conversation_header: None,
        generation_header: None,
        request_header: None,
        plain_request_header: Some("p".to_string()),
    };
    assert_eq!(
        build_llm_gateway_start(&request, "anthropic", &identity, JsonObject::new()).request_id.as_deref(),
        Some("p")
    );
}

#[test]
fn requests_that_cannot_be_served_are_refused() {
    let error = |supported, body| {
        prepare_gateway_request("/x", supported, headers(&[]), "x-token", body, None, "u").unwrap_err()
    };
    assert_eq!(
        error(false, RequestBody::Bytes(vec![])),
        CliError::InvalidPayload("unsupported gateway path /x".to_string())
    );
    assert_eq!(
        error(true, RequestBody::TooLong("long".to_string())),
        CliError::PayloadTooLarge("long".to_string())
    );
    assert_eq!(
        error(true, RequestBody::Broken("broken".to_string())),
        CliError::InvalidPayload("broken".to_string())
    );
}

#[test]
fn a_backup_stands_beside_its_file() {
    assert_eq!(backup_path(false, "/h/config.yaml"), "/h/config.yaml.nemo-relay.bak");
    assert_eq!(backup_path(false, "/h/config"), "/h/config.nemo-relay.bak");
    assert_eq!(backup_path(false, "/h/.config"), "/h/.config.nemo-relay.bak");
    assert_eq!(backup_path(false, "/h/a.tar.gz"), "/h/a.tar.gz.nemo-relay.bak");
    assert_eq!(backup_path(false, "/h/a."), "/h/a.nemo-relay.bak");
    assert_eq!(backup_path(false, "/"), "/");
    assert_eq!(backup_path(false, ".."), "..");
    assert_eq!(backup_path(true, r"C:\h\config.yaml"), r"C:\h\config.yaml.nemo-relay.bak");
    assert_eq!(backup_path(true, r"C:\h/config\"), r"C:\h/config.nemo-relay.bak");
    assert_eq!(backup_path(true, "C:config"), "C:config.nemo-relay.bak");
    assert_eq!(backup_path(true, "C:"), "C:");
    assert_eq!(backup_path(true, r"\\server\share\"), r"\\server\share\");
    assert_eq!(backup_path(true, r"\\server\share\a"), r"\\server\share\a.nemo-relay.bak");
    assert_eq!(backup_path(true, r"\\?\C:\a.b\c/d.e"), r"\\?\C:\a.b\c/d.e.nemo-relay.bak");
    assert_eq!(backup_path(true, r"\\?\C:\a\."), r"\\?\C:\a\.");
    assert_eq!(backup_path(true, r"\\?\C:/"), r"\\?\C:/");
    assert_eq!(backup_path(false, r"a\b"), r"a\b.nemo-relay.bak");
    assert!(makes_backup(false, true));
    assert!(!makes_backup(true, true));
    assert!(!makes_backup(false, false));
}
