//! What records of gateways, sweeps of sessions, backups and reports come to.

use crate::bootstrap::{
    lock_name_of, ownership_error, owns, published, sanitized, OwnerView, ServingProcess,
        BOOTSTRAP_SHUTDOWN_TOKEN_ENV,
    BOOTSTRAP_STATE_DIR_ENV, SHUTDOWN_POLL_MILLIS, SHUTDOWN_TIMEOUT_SECONDS,
};
use crate::commands::diagnostics::{doctor_json, is_ok, with_schema_of};
use crate::commands::plugins::{json_context_of, scope_of, ConfigurationScope, PluginsScopeArgs, PluginsSubcommand};
use crate::hermes::config::MCP_SERVER_NAME;
use crate::hermes::hooks::{DEFAULT_BIND, DEFAULT_URL};
use crate::hermes::launch::{env_value, routed_launch, LaunchView};
use crate::hermes::paths::{body_start, root_is_written, ALLOWLIST_FILE_NAME, INSTALL_LOCK_FILE_NAME};
use crate::json::{an_object_tells_its_pairs, keys_differ, JsonView};
use crate::locks::{GATEWAY_LOCK_RETRY_NANOS, INSTALL_LOCK_RETRY_NANOS, INSTALL_LOCK_TIMEOUT_SECONDS};
use crate::ordered::{lookup_inserted, sorted};
use crate::otel::spans::COMPLETED_SPAN_CONTEXT_LIMIT;
use crate::sessions::{
    closed_count, ended_subagents, first_turn_error, left_sessions, not_among, to_clear, with_session, ClosedTurn,
    AGENT_IDLE_SWEEP_INTERVAL_SECONDS, AGENT_IDLE_TIMEOUT_SECONDS,
};
use crate::snapshots::{
    backup_name, backup_of, bare_end, behind_last, behind_separator, file_name, name_start,
};
use crate::switchyard::marks::ROUTING_MARK_SCHEMA;
use crate::switchyard::request::{
    INTERNAL_DISPATCH_ROUTE_HEADER, INTERNAL_DISPATCH_URL_HEADER, INTERNAL_RETRY_AWARE_HEADER,
};
use crate::text::{decimal, texts, trim_end_char};
use crate::url::UrlView;
use vstd::prelude::*;
use vstd::string::*;

verus! {

/// A gateway can be stopped by a record exactly where the record is one of the relay, of this protocol and of this URL,
/// and has a shutdown token and a fingerprint, neither of them empty.
pub proof fn only_a_whole_record_owns_a_gateway(record: OwnerView, url: Seq<char>, protocol: u64)
    ensures
        owns(record, url, protocol) <==> {
            &&& record.service == "nemo-relay"@
            &&& record.bootstrap_protocol == protocol
            &&& record.url == url
            &&& record.shutdown_token.len() > 0
            &&& record.bootstrap_fingerprint is Some
            &&& record.bootstrap_fingerprint->Some_0.len() > 0
        },
{
}

/// The record that a process publishes of itself is one that the gateway at its address can be stopped by, where the
/// process may own the gateway and has a fingerprint; it tells the process and its version.
pub proof fn a_published_record_owns_its_gateway(process: ServingProcess)
    requires
        ownership_error(process) is None,
    ensures
        owns(published(process), "http://"@ + process.address@, process.protocol) <==> process.fingerprint is Some
            && process.fingerprint->Some_0@.len() > 0,
        process.fingerprint is Some && process.fingerprint->Some_0@.len() > 0
            ==> published(process).bootstrap_fingerprint == Some(process.fingerprint->Some_0@),
        published(process).shutdown_token == process.shutdown_token->Some_0@,
        published(process).pid == process.pid,
        published(process).version == process.version@,
{
}

/// A process may own the gateway that it serves exactly where it has a state directory, by an absolute path, a shutdown
/// token that is not empty, and an address that only this machine can reach.
pub proof fn a_local_process_with_a_token_owns_its_gateway(process: ServingProcess)
    ensures
        ownership_error(process) is None <==> {
            &&& process.state is Some
            &&& process.state_is_absolute
            &&& process.shutdown_token is Some
            &&& process.shutdown_token->Some_0@.len() > 0
            &&& process.address_is_loopback
        },
{
}

/// In the name of a file every letter, digit, dot, hyphen and underscore stands as it is, and every other character is
/// written as an underscore.
pub proof fn a_file_name_keeps_plain_characters(s: Seq<char>, i: int)
    requires
        0 <= i < s.len(),
    ensures
        sanitized(s).len() == s.len(),
        ('a' <= s[i] <= 'z' || 'A' <= s[i] <= 'Z' || '0' <= s[i] <= '9' || s[i] == '.' || s[i] == '-' || s[i] == '_')
            ==> sanitized(s)[i] == s[i],
        !('a' <= s[i] <= 'z' || 'A' <= s[i] <= 'Z' || '0' <= s[i] <= '9' || s[i] == '.' || s[i] == '-' || s[i] == '_')
            ==> sanitized(s)[i] == '_',
{
}

/// The files of a gateway are named by its host and port alone, so that any two URLs of it share them; a URL that has
/// none of these stands for itself.
pub proof fn a_gateway_is_named_by_host_and_port(parts: UrlView, url: Seq<char>)
    ensures
        parts.host is Some && parts.port is Some ==> lock_name_of(Ok(parts), url) == sanitized(
            parts.host->Some_0 + "-"@ + decimal(parts.port->Some_0 as nat),
        ),
        (parts.host is None || parts.port is None) && url.len() > 0 ==> lock_name_of(Ok(parts), url)
            == sanitized(url),
        url.len() > 0 ==> forall|error: Seq<char>| #[trigger] lock_name_of(Err(error), url) == sanitized(url),
        url.len() == 0 ==> forall|error: Seq<char>| #[trigger] lock_name_of(Err(error), url) == "unknown"@,
{
    reveal_strlit("-");
    if parts.host is Some && parts.port is Some {
        let name = parts.host->Some_0 + "-"@ + decimal(parts.port->Some_0 as nat);
        assert(sanitized(name).len() == name.len());
        assert(name.len() > 0);
    }
    assert(sanitized(url).len() == url.len());
}

/// A sweep counts the turns that were closed.
pub proof fn a_sweep_counts_closed_turns<E>(turns: Seq<ClosedTurn<E>>, n: int)
    requires
        0 <= n <= turns.len(),
    ensures
        closed_count(turns, n) == turns.take(n).filter(|turn: ClosedTurn<E>| turn.result is Ok).len(),
    decreases n,
{
    reveal(Seq::filter);
    if n > 0 {
        a_sweep_counts_closed_turns(turns, n - 1);
        assert(turns.take(n).drop_last() =~= turns.take(n - 1));
        assert(turns.take(n).last() == turns[n - 1]);
    } else {
        assert(turns.take(0) =~= Seq::empty());
    }
}

/// A sweep keeps exactly the sessions of which something is left, whether or not their turn was closed.
pub proof fn a_sweep_keeps_what_is_left<E>(turns: Seq<ClosedTurn<E>>, n: int, id: Seq<char>)
    requires
        0 <= n <= turns.len(),
    ensures
        left_sessions(turns, n).contains(id) <==> exists|i: int|
            0 <= i < n && (#[trigger] turns[i]).session_id@ == id && !turns[i].empty,
        left_sessions(turns, n).len() == turns.take(n).filter(|turn: ClosedTurn<E>| !turn.empty).len(),
    decreases n,
{
    reveal(Seq::filter);
    if n > 0 {
        a_sweep_keeps_what_is_left(turns, n - 1, id);
        assert(turns.take(n).drop_last() =~= turns.take(n - 1));
        assert(turns.take(n).last() == turns[n - 1]);
        let before = left_sessions(turns, n - 1);
        let now = left_sessions(turns, n);
        if before.contains(id) {
            let i = choose|i: int| 0 <= i < before.len() && before[i] == id;
            assert(now[i] == id);
        }
        if !turns[n - 1].empty {
            assert(now[now.len() - 1] == turns[n - 1].session_id@);
        }
        if now.contains(id) && !before.contains(id) {
            let i = choose|i: int| 0 <= i < now.len() && now[i] == id;
            if i < before.len() {
                assert(before[i] == id);
            }
            assert(turns[n - 1].session_id@ == id && !turns[n - 1].empty);
        }
    } else {
        assert(turns.take(0) =~= Seq::empty());
    }
}

/// A sweep tells a subagent as ended exactly where the turn of its session was closed and the subagent ended with it.
pub proof fn a_sweep_tells_ended_subagents<E>(turns: Seq<ClosedTurn<E>>, n: int, session: Seq<char>,
    subagent: Seq<char>)
    requires
        0 <= n <= turns.len(),
    ensures
        ended_subagents(turns, n).contains((session, subagent)) <==> exists|i: int|
            0 <= i < n && (#[trigger] turns[i]).session_id@ == session && turns[i].result is Ok && texts(
                turns[i].result->Ok_0@,
            ).contains(subagent),
    decreases n,
{
    if n > 0 {
        a_sweep_tells_ended_subagents(turns, n - 1, session, subagent);
        let pair = (session, subagent);
        let before = ended_subagents(turns, n - 1);
        let now = ended_subagents(turns, n);
        let turn = turns[n - 1];
        let own = match turn.result {
            Ok(subagents) => with_session(turn.session_id@, texts(subagents@)),
            Err(_) => Seq::empty(),
        };
        assert(now == before + own);
        if before.contains(pair) {
            let i = choose|i: int| 0 <= i < before.len() && before[i] == pair;
            assert(now[i] == pair);
        }
        if turn.result is Ok && turn.session_id@ == session && texts(turn.result->Ok_0@).contains(subagent) {
            let all = texts(turn.result->Ok_0@);
            let k = choose|k: int| 0 <= k < all.len() && all[k] == subagent;
            assert(own[k] == pair);
            assert(now[before.len() + k] == pair);
        }
        if now.contains(pair) && !before.contains(pair) {
            let i = choose|i: int| 0 <= i < now.len() && now[i] == pair;
            if i < before.len() {
                assert(before[i] == pair);
            }
            let k = i - before.len();
            assert(own[k] == pair);
            assert(texts(turn.result->Ok_0@)[k] == subagent);
            assert(turns[n - 1].session_id@ == session);
        }
    }
}

/// A sweep tells the error of the first turn that could not be closed.
pub proof fn a_sweep_tells_its_first_error<E>(turns: Seq<ClosedTurn<E>>, from: int)
    requires
        0 <= from,
    ensures
        match first_turn_error(turns, from) {
            Some(error) => exists|i: int|
                from <= i < turns.len() && (#[trigger] turns[i]).result is Err && turns[i].result->Err_0 == error
                    && forall|j: int| from <= j < i ==> (#[trigger] turns[j]).result is Ok,
            None => forall|j: int| from <= j < turns.len() ==> (#[trigger] turns[j]).result is Ok,
        },
    decreases turns.len() - from,
{
    if from < turns.len() && turns[from].result is Ok {
        a_sweep_tells_its_first_error(turns, from + 1);
    }
}

/// Of the sessions that are kept those go back into the table, in their order, whose place is free.
pub proof fn sessions_go_back_where_their_place_is_free(list: Seq<Seq<char>>, present: Seq<Seq<char>>, n: int)
    requires
        0 <= n <= list.len(),
    ensures
        not_among(list, present, n) == list.take(n).filter(|id: Seq<char>| !present.contains(id)),
    decreases n,
{
    reveal(Seq::filter);
    if n > 0 {
        sessions_go_back_where_their_place_is_free(list, present, n - 1);
        assert(list.take(n).drop_last() =~= list.take(n - 1));
        assert(list.take(n).last() == list[n - 1]);
    } else {
        assert(list.take(0) =~= Seq::empty());
    }
}

/// The traces of a subagent are cleared where its session went back into the table or is in it no more.
pub proof fn traces_of_kept_sessions_are_cleared(
    subagents: Seq<(Seq<char>, Seq<char>)>,
    restored: Seq<Seq<char>>,
    present: Seq<Seq<char>>,
    n: int,
)
    requires
        0 <= n <= subagents.len(),
    ensures
        to_clear(subagents, restored, present, n) == subagents.take(n).filter(
            |pair: (Seq<char>, Seq<char>)| restored.contains(pair.0) || !present.contains(pair.0),
        ),
    decreases n,
{
    reveal(Seq::filter);
    if n > 0 {
        traces_of_kept_sessions_are_cleared(subagents, restored, present, n - 1);
        assert(subagents.take(n).drop_last() =~= subagents.take(n - 1));
        assert(subagents.take(n).last() == subagents[n - 1]);
    } else {
        assert(subagents.take(0) =~= Seq::empty());
    }
}

/// The backup of a name is the name with a suffix behind it. A dot that the name ends with is not doubled, unless it is
/// all that the name is.
pub proof fn a_backup_has_the_suffix_behind_the_name(name: Seq<char>)
    requires
        name.len() > 0,
    ensures
        name.last() != '.' || name.len() == 1 ==> backup_name(name) == name + ".nemo-relay.bak"@,
        name.last() == '.' && name.len() > 1 ==> backup_name(name) == name.drop_last() + ".nemo-relay.bak"@,
{
    last_is_found(name, '.', name.len() as int);
    if name.last() == '.' && name.len() > 1 {
        assert(name.take(name.len() - 1) =~= name.drop_last());
    }
}

proof fn last_is_found(s: Seq<char>, c: char, n: int)
    requires
        0 <= n <= s.len(),
    ensures
        0 <= behind_last(s, c, n) <= n,
        behind_last(s, c, n) > 0 ==> s[behind_last(s, c, n) - 1] == c,
        forall|i: int| behind_last(s, c, n) <= i < n ==> #[trigger] s[i] != c,
    decreases n,
{
    if n > 0 {
        last_is_found(s, c, n - 1);
    }
}

/// On a POSIX system the backup of a file in a directory stands in that directory, under the name of the backup; that of
/// a name alone stands beside it.
pub proof fn a_backup_stands_in_the_same_directory(directory: Seq<char>, name: Seq<char>)
    requires
        file_name(name),
        forall|i: int| 0 <= i < name.len() ==> #[trigger] name[i] != '/',
    ensures
        backup_of(false, directory + seq!['/'] + name) == directory + seq!['/'] + backup_name(name),
        backup_of(false, name) == backup_name(name),
{
    let path = directory + seq!['/'] + name;
    let from = body_start(false, path);
    let whole = path.len() as int;
    assert(path.skip(0) =~= path);
    assert(0 <= from <= 1);
    assert(path.subrange(directory.len() as int + 1, whole) =~= name);
    names_end_with_the_path(path, from, directory.len() as int + 1, name);
    assert(path.take(directory.len() as int + 1) =~= directory + seq!['/']);
    assert(name_start(false, path) == directory.len() + 1);
    assert(backup_of(false, path) =~= directory + seq!['/'] + backup_name(name));
    assert(name.skip(0) =~= name);
    assert(!root_is_written(false, name)) by {
        assert(name[0] != '/');
    }
    assert(name.subrange(0, name.len() as int) =~= name);
    names_end_with_the_path(name, 0, 0, name);
    assert(backup_of(false, name) =~= backup_name(name));
}

proof fn names_end_with_the_path(path: Seq<char>, from: int, start: int, name: Seq<char>)
    requires
        0 <= from <= start,
        start + name.len() == path.len(),
        file_name(name),
        path.subrange(start, path.len() as int) == name,
        start > from ==> path[start - 1] == '/',
        start == from || start > 0,
        forall|i: int| 0 <= i < name.len() ==> #[trigger] name[i] != '/',
    ensures
        bare_end(false, false, path, from, path.len() as int) == path.len(),
        behind_separator(false, false, path, from, path.len() as int) == start,
{
    let n = path.len() as int;
    assert(path[n - 1] == name[name.len() - 1]);
    reveal_strlit(".");
    if name.len() == 1 {
        if name[0] == '.' {
            assert(name =~= "."@);
        }
    } else {
        assert(path[n - 2] == name[name.len() - 2]);
    }
    start_is_found(path, from, start, n, name);
}

proof fn start_is_found(path: Seq<char>, from: int, start: int, n: int, name: Seq<char>)
    requires
        0 <= from <= start <= n <= path.len(),
        start + name.len() == path.len(),
        path.subrange(start, path.len() as int) == name,
        start > from ==> path[start - 1] == '/',
        forall|i: int| 0 <= i < name.len() ==> #[trigger] name[i] != '/',
    ensures
        behind_separator(false, false, path, from, n) == start,
    decreases n,
{
    if n > start {
        assert(path[n - 1] == name[n - 1 - start]);
        start_is_found(path, from, start, n - 1, name);
    }
}

/// A report says that all is well only by the boolean true.
pub proof fn only_true_says_that_all_is_well(report: JsonView)
    ensures
        is_ok(report) <==> report.get("ok"@) == Some(JsonView::Bool(true)),
{
}

/// A report with its version says what it said before, and the version.
pub proof fn a_version_is_added_to_a_report(report: JsonView, key: Seq<char>)
    requires
        report matches JsonView::Object(members) ==> sorted(members),
    ensures
        report is Object ==> with_schema_of(report).get("schema_version"@) == Some(JsonView::Unsigned(1)),
        key != "schema_version"@ ==> with_schema_of(report).get(key) == report.get(key),
        !(report is Object) ==> with_schema_of(report) == report,
{
    if let JsonView::Object(members) = report {
        lookup_inserted(members, "schema_version"@, JsonView::Unsigned(1), "schema_version"@);
        lookup_inserted(members, "schema_version"@, JsonView::Unsigned(1), key);
    }
}

/// The doctor prints one report as it is, with its version, and several, all of them, in a list beside the version.
pub proof fn the_doctor_prints_every_report(reports: Seq<JsonView>)
    requires
        reports.len() > 0,
    ensures
        reports.len() == 1 ==> doctor_json(reports) == with_schema_of(reports[0]),
        reports.len() > 1 ==> doctor_json(reports).get("schema_version"@) == Some(JsonView::Unsigned(1))
            && doctor_json(reports).get("plugins"@) == Some(JsonView::Array(reports)),
{
    reveal_strlit("schema_version");
    reveal_strlit("plugins");
    assert("schema_version"@.len() == 14 && "plugins"@.len() == 7);
    let pairs = seq![("schema_version"@, JsonView::Unsigned(1)), ("plugins"@, JsonView::Array(reports))];
    assert(keys_differ(pairs));
    an_object_tells_its_pairs(pairs);
    assert(pairs[0].0 == "schema_version"@ && pairs[1].0 == "plugins"@);
}

/// The scope of a command is the one that is named, where just one is; naming none names no scope, and naming several is
/// wrong.
pub proof fn a_scope_is_named_once(args: PluginsScopeArgs)
    ensures
        args.user && !args.project && !args.global ==> scope_of(args) == ConfigurationScope::User,
        !args.user && args.project && !args.global ==> scope_of(args) == ConfigurationScope::Project,
        !args.user && !args.project && args.global ==> scope_of(args) == ConfigurationScope::Global,
        !args.user && !args.project && !args.global ==> scope_of(args) == ConfigurationScope::Unnamed,
        (args.user && args.project) || (args.user && args.global) || (args.project && args.global) ==> scope_of(args)
            == ConfigurationScope::Invalid,
{
}

/// The value of a variable is the first that is set under its name.
pub proof fn the_first_setting_counts(env: Seq<(Seq<char>, Seq<char>)>, name: Seq<char>, from: int)
    requires
        0 <= from,
    ensures
        match env_value(env, name, from) {
            Some(value) => exists|i: int|
                from <= i < env.len() && #[trigger] env[i] == (name, value) && forall|j: int|
                    from <= j < i ==> (#[trigger] env[j]).0 != name,
            None => forall|j: int| from <= j < env.len() ==> (#[trigger] env[j]).0 != name,
        },
    decreases env.len() - from,
{
    if from < env.len() {
        if env[from].0 == name {
            assert(env[from] == (name, env[from].1));
        } else {
            the_first_setting_counts(env, name, from + 1);
        }
    }
}

/// A launch through a gateway keeps all that was set before, and sets behind it that the agent accepts its hooks and that
/// it calls its models at the gateway, under `/v1`.
pub proof fn a_routed_launch_calls_the_gateway(launch: LaunchView, gateway_url: Seq<char>)
    ensures
        ({
            let routed = routed_launch(launch, gateway_url);
            let n = launch.env.len() as int;
            &&& routed.env.len() == n + 2
            &&& routed.env.take(n) == launch.env
            &&& routed.env[n] == ("HERMES_ACCEPT_HOOKS"@, "1"@)
            &&& routed.env[n + 1] == ("OPENAI_BASE_URL"@, trim_end_char(gateway_url, '/') + "/v1"@)
            &&& routed.notes == launch.notes
            &&& routed.temp_dirs == launch.temp_dirs
        }),
{
    let routed = routed_launch(launch, gateway_url);
    assert(routed.env.take(launch.env.len() as int) =~= launch.env);
}

/// Of the commands on plugins those that validate, list and inspect can print JSON, and do where they are asked to; the
/// output names the command and the plugin that it is of, where it is of one.
pub proof fn only_commands_that_look_print_json(command: PluginsSubcommand)
    ensures
        match command {
            PluginsSubcommand::Validate(own) => json_context_of(command) == (if own.json {
                Some(("plugins validate"@, Some(own.target@)))
            } else {
                None
            }),
            PluginsSubcommand::List(own) => json_context_of(command) == (if own.json {
                Some(("plugins list"@, None::<Seq<char>>))
            } else {
                None
            }),
            PluginsSubcommand::Inspect(own) => json_context_of(command) == (if own.json {
                Some(("plugins inspect"@, Some(own.id@)))
            } else {
                None
            }),
            _ => json_context_of(command) is None,
        },
{
}

/// The times that the relay keeps: a session is idle after half a minute and looked at every five seconds; a gateway has
/// five seconds to stop and is looked at every fifty milliseconds; an update waits five seconds for a lock, which it tries
/// at least every 25 milliseconds, and a start tries its lock every fifty.
pub proof fn the_relay_keeps_these_times()
    ensures
        AGENT_IDLE_TIMEOUT_SECONDS == 6 * AGENT_IDLE_SWEEP_INTERVAL_SECONDS,
        AGENT_IDLE_SWEEP_INTERVAL_SECONDS == 5,
        SHUTDOWN_TIMEOUT_SECONDS * 1000 == 100 * SHUTDOWN_POLL_MILLIS,
        SHUTDOWN_POLL_MILLIS == 50,
        INSTALL_LOCK_TIMEOUT_SECONDS * 1_000_000_000 == 200 * INSTALL_LOCK_RETRY_NANOS,
        INSTALL_LOCK_RETRY_NANOS == 25_000_000,
        GATEWAY_LOCK_RETRY_NANOS == SHUTDOWN_POLL_MILLIS * 1_000_000,
{
}

/// The files and variables of the relay have the names that the agent and its tools know them by.
pub proof fn the_relays_files_and_variables_have_these_names()
    ensures
        ALLOWLIST_FILE_NAME@ == "shell-hooks-allowlist.json"@,
        INSTALL_LOCK_FILE_NAME@ == ".nemo-relay-operation.lock"@,
        MCP_SERVER_NAME@ == "nemo-relay"@,
        BOOTSTRAP_STATE_DIR_ENV@ == "NEMO_RELAY_BOOTSTRAP_STATE_DIR"@,
        BOOTSTRAP_SHUTDOWN_TOKEN_ENV@ == "NEMO_RELAY_BOOTSTRAP_SHUTDOWN_TOKEN"@,
        DEFAULT_BIND@ == "127.0.0.1:47632"@,
        DEFAULT_URL@ == "http://"@ + DEFAULT_BIND@,
        INTERNAL_DISPATCH_URL_HEADER@ == "x-nemo-relay-internal-dispatch-url"@,
        INTERNAL_DISPATCH_ROUTE_HEADER@ == "x-nemo-relay-internal-dispatch-route"@,
        INTERNAL_RETRY_AWARE_HEADER@ == "x-nemo-relay-internal-retry-aware"@,
        ROUTING_MARK_SCHEMA@ == "switchyard.routing_mark"@,
        COMPLETED_SPAN_CONTEXT_LIMIT == 4096,
{
    reveal_strlit("127.0.0.1:47632");
    reveal_strlit("http://");
    reveal_strlit("http://127.0.0.1:47632");
    assert("http://"@ + "127.0.0.1:47632"@ =~= "http://127.0.0.1:47632"@);
}

} // verus!
