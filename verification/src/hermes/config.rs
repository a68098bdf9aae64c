//! The part of a Hermes configuration that belongs to the relay: what it is, how it is told, and how it is
//! put in and taken out.

use crate::error::{CliError, Failure};
use crate::hermes::hooks::{
    legacy_command, legacy_command_uses_relay, persistent_command, persistent_hook_command, transparent_command,
    transparent_hook_forward_command, Platform, DEFAULT_BIND,
};
use crate::hermes::paths::{same_path, same_place};
use crate::json::{
    array_holds, array_view, json_object, members_of, members_of_sorted, object_of, pairs_view, text_json,
    texts_json, yaml_document, yaml_text, Json, JsonObject, JsonView, Members,
};
use crate::ordered::{inserted, lookup, removed, sorted, text_less};
use crate::text::{blank, is_blank, opt_str, same_text, texts, trim_end_char, without_end_char};
use vstd::prelude::*;
use vstd::string::*;

verus! {

/// The name of the relay's MCP server.
pub const MCP_SERVER_NAME: &'static str = "nemo-relay";

/// What the relay and the agent agree on.
#[derive(Debug, Clone)]
pub struct HermesProfile {
    /// The events that have a hook.
    pub hook_events: Vec<String>,
    /// The variable that names the file of the generation.
    pub generation_file_env: String,
    /// The variable that holds the token of the generation.
    pub generation_token_env: String,
    /// How hooks and paths are written.
    pub platform: Platform,
}

/// The relay's MCP server in a configuration.
pub open spec fn relay_server(root: Members) -> Option<JsonView> {
    match lookup(root, "mcp_servers"@) {
        Some(servers) => servers.get(MCP_SERVER_NAME@),
        None => None,
    }
}

pub fn find_relay_server(root: &JsonObject) -> (r: Option<&Json>)
    ensures
        match r {
            Some(server) => relay_server(root.view()) == Some(server@),
            None => relay_server(root.view()) is None,
        },
{
    match root.get("mcp_servers") {
        Some(servers) => servers.get(MCP_SERVER_NAME),
        None => None,
    }
}

/// Whether `value` is an array of these texts.
fn is_text_array(value: Option<&Json>, expected: &Vec<&str>) -> (r: bool)
    ensures
        r == (match value {
            Some(v) => Some(v@),
            None => None,
        } == Some(texts_json(crate::hermes::hooks::words_view(expected@)))),
{
    let ghost wanted = crate::hermes::hooks::words_view(expected@);
    match value {
        Some(Json::Array(items)) => {
            proof {
                array_holds(*items);
            }
            let ghost have = array_view(items@);
            let ghost want = texts_json(wanted)->Array_0;
            if items.len() != expected.len() {
                assert(have.len() != want.len());
                return false;
            }
            let mut i: usize = 0;
            while i < items.len()
                invariant
                    i <= items.len(),
                    items.len() == expected.len(),
                    have == array_view(items@),
                    wanted == crate::hermes::hooks::words_view(expected@),
                    want == texts_json(wanted)->Array_0,
                    value == Some(&Json::Array(*items)),
                    Json::Array(*items)@ == JsonView::Array(have),
                    forall|j: int| 0 <= j < i ==> #[trigger] have[j] == want[j],
                decreases items.len() - i,
            {
                if !items[i].is_text(expected[i]) {
                    assert(have[i as int] != want[i as int]);
                    return false;
                }
                assert(have[i as int] == want[i as int]);
                i += 1;
            }
            assert(have =~= want);
            true
        },
        _ => false,
    }
}

/// The environment of a server.
pub open spec fn server_env(server: JsonView) -> Members {
    match server.get("env"@) {
        Some(JsonView::Object(env)) => env,
        _ => Members::empty(),
    }
}

/// The text that the environment of a server has at `name`.
pub open spec fn env_text(server: JsonView, name: Seq<char>) -> Option<Seq<char>> {
    match lookup(server_env(server), name) {
        Some(value) => value.text(),
        None => None,
    }
}

fn find_env_text<'a>(server: &'a Json, name: &str) -> (r: Option<&'a str>)
    ensures
        match r {
            Some(s) => env_text(server@, name@) == Some(s@),
            None => env_text(server@, name@) is None,
        },
{
    match server.get("env") {
        Some(Json::Object(env)) => match env.get(name) {
            Some(value) => value.as_text(),
            None => None,
        },
        _ => None,
    }
}

/// The generation file and token of a server that an installation wrote.
pub open spec fn server_generation(profile: HermesProfile, server: JsonView) -> Option<(Seq<char>, Seq<char>)> {
    if server.get("args"@) == Some(texts_json(seq!["mcp"@])) && env_text(server, "NEMO_RELAY_GATEWAY_BIND"@) == Some(
        DEFAULT_BIND@,
    ) {
        match env_text(server, profile.generation_file_env@) {
            Some(file) => match env_text(server, profile.generation_token_env@) {
                Some(token) => if token.len() > 0 {
                    Some((file, token))
                } else {
                    None
                },
                None => None,
            },
            None => None,
        }
    } else {
        None
    }
}

fn find_server_generation<'a>(profile: &HermesProfile, server: &'a Json) -> (r: Option<(&'a str, &'a str)>)
    ensures
        match r {
            Some(g) => server_generation(*profile, server@) == Some((g.0@, g.1@)),
            None => server_generation(*profile, server@) is None,
        },
{
    let args: Vec<&str> = vec!["mcp"];
    assert(crate::hermes::hooks::words_view(args@) =~= seq!["mcp"@]);
    if !is_text_array(server.get("args"), &args) {
        return None;
    }
    match find_env_text(server, "NEMO_RELAY_GATEWAY_BIND") {
        Some(bind) => {
            if !same_text(bind, DEFAULT_BIND) {
                return None;
            }
        },
        None => {
            return None;
        },
    }
    match (
        find_env_text(server, profile.generation_file_env.as_str()),
        find_env_text(server, profile.generation_token_env.as_str()),
    ) {
        (Some(file), Some(token)) => {
            if token.is_empty() {
                None
            } else {
                Some((file, token))
            }
        },
        _ => None,
    }
}

/// The generation file and token of the relay's server in a configuration, where an installation wrote it.
pub fn recorded_generation(profile: &HermesProfile, root: &JsonObject) -> (r: Option<(String, String)>)
    ensures
        match r {
            Some(g) => relay_server(root.view()) is Some && server_generation(
                *profile,
                relay_server(root.view())->Some_0,
            ) == Some((g.0@, g.1@)),
            None => relay_server(root.view()) is None || server_generation(
                *profile,
                relay_server(root.view())->Some_0,
            ) is None,
        },
{
    match find_relay_server(root) {
        Some(server) => match find_server_generation(profile, server) {
            Some((file, token)) => Some((file.to_owned(), token.to_owned())),
            None => None,
        },
        None => None,
    }
}

/// The old hook commands of the relay among the first `n` groups of an event.
pub open spec fn legacy_commands(platform: Platform, groups: Seq<JsonView>, relay: Seq<char>, n: int) -> Seq<Seq<char>>
    decreases n,
{
    if n <= 0 {
        Seq::empty()
    } else {
        let before = legacy_commands(platform, groups, relay, n - 1);
        match groups[n - 1].text_at("command"@) {
            Some(command) => if legacy_command(platform, command, relay) {
                before.push(command)
            } else {
                before
            },
            None => before,
        }
    }
}

/// The groups of an event.
pub open spec fn event_groups(hooks: Members, event: Seq<char>) -> Seq<JsonView> {
    match lookup(hooks, event) {
        Some(JsonView::Array(groups)) => groups,
        _ => Seq::empty(),
    }
}

/// The one old hook command that each of the first `n` events has exactly once: none where there is none, or
/// where there are no events.
pub open spec fn common_legacy(
    platform: Platform,
    hooks: Members,
    events: Seq<Seq<char>>,
    relay: Seq<char>,
    n: int,
) -> Option<Option<Seq<char>>>
    decreases n,
{
    if n <= 0 {
        Some(None)
    } else {
        match common_legacy(platform, hooks, events, relay, n - 1) {
            None => None,
            Some(common) => {
                let groups = event_groups(hooks, events[n - 1]);
                let commands = legacy_commands(platform, groups, relay, groups.len() as int);
                if commands.len() != 1 || (common is Some && common->Some_0 != commands[0]) {
                    None
                } else {
                    Some(Some(commands[0]))
                }
            },
        }
    }
}

/// The hook command of an old installation of the relay at `relay`.
pub open spec fn legacy_owned(profile: HermesProfile, root: Members, relay: Seq<char>) -> Option<Seq<char>> {
    match relay_server(root) {
        Some(server) => if server.get("args"@) == Some(texts_json(seq!["mcp"@, "--agent"@, "hermes"@])) {
            match lookup(root, "hooks"@) {
                Some(JsonView::Object(hooks)) => {
                    let events = texts(profile.hook_events@);
                    match common_legacy(profile.platform, hooks, events, relay, events.len() as int) {
                        Some(common) => common,
                        None => None,
                    }
                },
                _ => None,
            }
        } else {
            None
        },
        None => None,
    }
}

/// The hook command of the installation of the relay at `relay` that a configuration holds. An installation
/// is told by its server alone: the relay's command, the shared gateway and a generation, that of
/// `expected` where one is expected. An old one is told by its server and by one hook on every event.
pub open spec fn owned_command(
    profile: HermesProfile,
    root: Members,
    relay: Seq<char>,
    expected: Option<Seq<char>>,
) -> Option<Seq<char>> {
    match relay_server(root) {
        None => None,
        Some(server) => if server.get("command"@) != Some(JsonView::Text(relay)) {
            None
        } else {
            match server_generation(profile, server) {
                Some(generation) => if expected is None || same_place(profile.platform.windows, generation.0, expected->Some_0) {
                    Some(persistent_command(profile.platform, relay, generation.0, generation.1))
                } else {
                    legacy_owned(profile, root, relay)
                },
                None => legacy_owned(profile, root, relay),
            }
        },
    }
}

/// The place of the only old hook command of the relay among `groups`.
fn find_legacy<'a>(platform: &Platform, groups: &'a Vec<Json>, relay: &str) -> (r: Option<&'a str>)
    ensures
        ({
            let commands = legacy_commands(*platform, array_view(groups@), relay@, groups@.len() as int);
            match r {
                Some(command) => commands == seq![command@],
                None => commands.len() != 1,
            }
        }),
{
    let mut found: Option<&'a str> = None;
    let mut twice = false;
    let mut i: usize = 0;
    while i < groups.len()
        invariant
            i <= groups.len(),
            ({
                let commands = legacy_commands(*platform, array_view(groups@), relay@, i as int);
                &&& found is None <==> commands.len() == 0
                &&& twice <==> commands.len() > 1
                &&& !twice && found is Some ==> commands == seq![found->Some_0@]
            }),
        decreases groups.len() - i,
    {
        assert(array_view(groups@)[i as int] == groups@[i as int]@);
        if let Some(command) = groups[i].text_at("command") {
            if legacy_command_uses_relay(platform, command, relay) {
                if found.is_some() {
                    twice = true;
                } else {
                    found = Some(command);
                    assert(legacy_commands(*platform, array_view(groups@), relay@, i as int) =~= Seq::empty());
                    assert(legacy_commands(*platform, array_view(groups@), relay@, i + 1) =~= seq![command@]);
                }
            }
        }
        i += 1;
    }
    if twice {
        None
    } else {
        found
    }
}

proof fn no_common_stays(
    platform: Platform,
    hooks: Members,
    events: Seq<Seq<char>>,
    relay: Seq<char>,
    n: int,
    m: int,
)
    requires
        n <= m,
        common_legacy(platform, hooks, events, relay, n) is None,
    ensures
        common_legacy(platform, hooks, events, relay, m) is None,
    decreases m - n,
{
    if n < m {
        no_common_stays(platform, hooks, events, relay, n, m - 1);
    }
}

fn legacy_owned_command(profile: &HermesProfile, root: &JsonObject, relay: &str) -> (r: Option<String>)
    ensures
        match r {
            Some(command) => legacy_owned(*profile, root.view(), relay@) == Some(command@),
            None => legacy_owned(*profile, root.view(), relay@) is None,
        },
{
    let args: Vec<&str> = vec!["mcp", "--agent", "hermes"];
    assert(crate::hermes::hooks::words_view(args@) =~= seq!["mcp"@, "--agent"@, "hermes"@]);
    match find_relay_server(root) {
        Some(server) => {
            if !is_text_array(server.get("args"), &args) {
                return None;
            }
        },
        None => {
            return None;
        },
    }
    let hooks = match root.get("hooks") {
        Some(Json::Object(hooks)) => hooks,
        _ => {
            return None;
        },
    };
    let ghost events = texts(profile.hook_events@);
    let mut common: Option<&str> = None;
    let mut i: usize = 0;
    while i < profile.hook_events.len()
        invariant
            i <= profile.hook_events.len(),
            events == texts(profile.hook_events@),
            legacy_owned(*profile, root.view(), relay@) == (match common_legacy(
                profile.platform,
                hooks.view(),
                events,
                relay@,
                events.len() as int,
            ) {
                Some(c) => c,
                None => None,
            }),
            common_legacy(profile.platform, hooks.view(), events, relay@, i as int) == Some(
                match common {
                    Some(c) => Some(c@),
                    None => None,
                },
            ),
        decreases profile.hook_events.len() - i,
    {
        let event = profile.hook_events[i].as_str();
        assert(events[i as int] == event@);
        let one: Option<&str> = match hooks.get(event) {
            Some(Json::Array(groups)) => {
                proof {
                    array_holds(*groups);
                }
                find_legacy(&profile.platform, groups, relay)
            },
            _ => {
                assert(legacy_commands(profile.platform, event_groups(hooks.view(), event@), relay@, 0).len() == 0);
                None
            },
        };
        match one {
            None => {
                proof {
                    assert(common_legacy(profile.platform, hooks.view(), events, relay@, i + 1) is None);
                    no_common_stays(profile.platform, hooks.view(), events, relay@, i + 1, events.len() as int);
                }
                return None;
            },
            Some(command) => {
                if let Some(before) = common {
                    if !same_text(before, command) {
                        proof {
                            assert(common_legacy(profile.platform, hooks.view(), events, relay@, i + 1) is None);
                            no_common_stays(profile.platform, hooks.view(), events, relay@, i + 1, events.len() as int);
                        }
                        return None;
                    }
                }
                common = Some(command);
            },
        }
        i += 1;
    }
    match common {
        Some(command) => Some(command.to_owned()),
        None => None,
    }
}

/// The hook command of the installation of the relay at `relay` that a configuration holds.
pub fn owned_install_command(
    profile: &HermesProfile,
    root: &JsonObject,
    relay: &str,
    expected_generation: Option<&str>,
) -> (r: Option<String>)
    ensures
        ({
            let expected = opt_str(expected_generation);
            match r {
                Some(command) => owned_command(*profile, root.view(), relay@, expected) == Some(command@),
                None => owned_command(*profile, root.view(), relay@, expected) is None,
            }
        }),
{
    let server = match find_relay_server(root) {
        None => {
            return None;
        },
        Some(server) => server,
    };
    match server.get("command") {
        Some(command) => {
            if !command.is_text(relay) {
                return None;
            }
        },
        None => {
            return None;
        },
    }
    if let Some((generation, token)) = find_server_generation(profile, server) {
        let right = match expected_generation {
            Some(expected) => same_path(profile.platform.windows, generation, expected),
            None => true,
        };
        if right {
            return Some(persistent_hook_command(&profile.platform, relay, generation, token));
        }
    }
    legacy_owned_command(profile, root, relay)
}

/// A hook group with the command `owned`.
pub open spec fn is_owned(group: JsonView, owned: Option<Seq<char>>) -> bool {
    owned is Some && group.text_at("command"@) == owned
}

/// The first `n` groups without those that have the command `owned`.
pub open spec fn kept_groups(groups: Seq<JsonView>, owned: Option<Seq<char>>, n: int) -> Seq<JsonView>
    decreases n,
{
    if n <= 0 {
        Seq::empty()
    } else if is_owned(groups[n - 1], owned) {
        kept_groups(groups, owned, n - 1)
    } else {
        kept_groups(groups, owned, n - 1).push(groups[n - 1])
    }
}

/// Whether the command of a group is `owned`.
fn group_is_owned(group: &Json, owned: Option<&str>) -> (r: bool)
    ensures
        r == is_owned(
            group@,
            opt_str(owned),
        ),
{
    match (group.text_at("command"), owned) {
        (Some(command), Some(own)) => same_text(command, own),
        _ => false,
    }
}

/// The groups without those that have the command `owned`.
pub fn keep_groups(groups: &Vec<Json>, owned: Option<&str>) -> (r: Vec<Json>)
    ensures
        array_view(r@) == kept_groups(
            array_view(groups@),
            opt_str(owned),
            groups@.len() as int,
        ),
{
    let ghost own = opt_str(owned);
    let mut r: Vec<Json> = Vec::new();
    let mut i: usize = 0;
    assert(array_view(r@) =~= Seq::empty());
    while i < groups.len()
        invariant
            i <= groups.len(),
            own == (opt_str(owned)),
            array_view(r@) == kept_groups(array_view(groups@), own, i as int),
        decreases groups.len() - i,
    {
        assert(array_view(groups@)[i as int] == groups@[i as int]@);
        if !group_is_owned(&groups[i], owned) {
            let ghost before = r@;
            r.push(groups[i].clone());
            assert(array_view(r@) =~= array_view(before).push(groups@[i as int]@));
        }
        i += 1;
    }
    r
}

/// The first `n` events without the groups that have the command `owned`, and without those that then have
/// none; or the first event that has no groups at all.
pub open spec fn kept_hooks(hooks: Members, owned: Option<Seq<char>>, n: int) -> Result<Members, Seq<char>>
    decreases n,
{
    if n <= 0 {
        Ok(Members::empty())
    } else {
        match kept_hooks(hooks, owned, n - 1) {
            Err(error) => Err(error),
            Ok(done) => match hooks[n - 1].1 {
                JsonView::Array(groups) => {
                    let kept = kept_groups(groups, owned, groups.len() as int);
                    if kept.len() == 0 {
                        Ok(done)
                    } else {
                        Ok(done.push((hooks[n - 1].0, JsonView::Array(kept))))
                    }
                },
                _ => Err("Hermes "@ + hooks[n - 1].0 + " hooks must be an array"@),
            },
        }
    }
}

/// Kept events stand in the order of the events.
pub proof fn kept_hooks_are_sorted(hooks: Members, owned: Option<Seq<char>>, n: int)
    requires
        sorted(hooks),
        0 <= n <= hooks.len(),
    ensures
        kept_hooks(hooks, owned, n) matches Ok(kept) ==> sorted(kept) && forall|j: int|
            0 <= j < kept.len() ==> exists|k: int| 0 <= k < n && (#[trigger] kept[j]).0 == (#[trigger] hooks[k]).0,
    decreases n,
{
    if n > 0 {
        kept_hooks_are_sorted(hooks, owned, n - 1);
        if let Ok(kept) = kept_hooks(hooks, owned, n) {
            let done = kept_hooks(hooks, owned, n - 1)->Ok_0;
            assert forall|i: int, j: int| 0 <= i < j < kept.len() implies text_less(
                #[trigger] kept[i].0,
                #[trigger] kept[j].0,
            ) by {
                if j < done.len() {
                    assert(text_less(done[i].0, done[j].0));
                } else {
                    assert(done[i] == kept[i]);
                    let k = choose|k: int| 0 <= k < n - 1 && (#[trigger] done[i]).0 == (#[trigger] hooks[k]).0;
                    assert(text_less(hooks[k].0, hooks[n - 1].0));
                }
            }
            assert forall|j: int| 0 <= j < kept.len() implies exists|k: int|
                0 <= k < n && (#[trigger] kept[j]).0 == (#[trigger] hooks[k]).0 by {
                if j < done.len() {
                    let k = choose|k: int| 0 <= k < n - 1 && (#[trigger] done[j]).0 == (#[trigger] hooks[k]).0;
                    assert(kept[j].0 == hooks[k].0);
                } else {
                    assert(kept[j].0 == hooks[n - 1].0);
                }
            }
        }
    }
}

proof fn kept_hooks_stop(hooks: Members, owned: Option<Seq<char>>, n: int, m: int)
    requires
        n <= m,
        kept_hooks(hooks, owned, n) is Err,
    ensures
        kept_hooks(hooks, owned, m) == kept_hooks(hooks, owned, n),
    decreases m - n,
{
    if n < m {
        kept_hooks_stop(hooks, owned, n, m - 1);
    }
}

/// A configuration without the hooks that have the command `owned`.
pub open spec fn stripped(root: Members, owned: Option<Seq<char>>) -> Result<Members, Seq<char>> {
    match lookup(root, "hooks"@) {
        None => Ok(root),
        Some(JsonView::Object(hooks)) => match kept_hooks(hooks, owned, hooks.len() as int) {
            Err(error) => Err(error),
            Ok(kept) => if kept.len() == 0 {
                Ok(removed(root, "hooks"@))
            } else {
                Ok(inserted(removed(root, "hooks"@), "hooks"@, JsonView::Object(kept)))
            },
        },
        Some(_) => Err("Hermes hooks must be an object"@),
    }
}

fn strip_hooks(hooks: &JsonObject, owned: Option<&str>) -> (r: Result<JsonObject, CliError>)
    ensures
        ({
            let own = opt_str(owned);
            let kept = kept_hooks(hooks.view(), own, hooks.view().len() as int);
            match r {
                Ok(object) => kept == Ok::<Members, Seq<char>>(object.view()),
                Err(error) => kept is Err && error.view() == Failure::Install(kept->Err_0),
            }
        }),
{
    let ghost own = opt_str(owned);
    let ghost all = hooks.view();
    let mut kept = JsonObject::new();
    let count: usize = hooks.len();
    let mut i: usize = 0;
    proof {
        members_of_sorted(Members::empty());
    }
    while i < count
        invariant
            i <= count,
            count == all.len(),
            all == hooks.view(),
            sorted(all),
            own == (opt_str(owned)),
            kept_hooks(all, own, i as int) == Ok::<Members, Seq<char>>(kept.view()),
        decreases count - i,
    {
        let event = hooks.key_at(i);
        match hooks.value_at(i) {
            Json::Array(groups) => {
                proof {
                    array_holds(*groups);
                }
                let left = keep_groups(groups, owned);
                if left.len() > 0 {
                    let ghost before = kept.view();
                    let ghost group_view = array_view(left@);
                    proof {
                        array_holds(left);
                        kept_hooks_are_sorted(all, own, i + 1);
                        assert(kept_hooks(all, own, i + 1) == Ok::<Members, Seq<char>>(
                            before.push((event@, JsonView::Array(group_view))),
                        ));
                        members_of_sorted(before.push((event@, JsonView::Array(group_view))));
                        kept_hooks_are_sorted(all, own, i as int);
                        members_of_sorted(before);
                        assert(before.push((event@, JsonView::Array(group_view))).drop_last() =~= before);
                    }
                    kept.insert(event.to_owned(), Json::Array(left));
                } else {
                    assert(array_view(left@).len() == 0);
                }
            },
            _ => {
                proof {
                    kept_hooks_stop(all, own, i + 1, all.len() as int);
                }
                return Err(
                    CliError::Install("Hermes ".to_owned().concat(event).concat(" hooks must be an array")),
                );
            },
        }
        i += 1;
    }
    Ok(kept)
}

/// Takes the hooks that have the command `owned` out of a configuration, and with them the events that then
/// have none.
pub fn strip_owned_hooks(root: JsonObject, owned_command: Option<&str>) -> (r: Result<JsonObject, CliError>)
    ensures
        ({
            let result = stripped(
                root.view(),
                opt_str(owned_command),
            );
            match r {
                Ok(object) => result == Ok::<Members, Seq<char>>(object.view()),
                Err(error) => result is Err && error.view() == Failure::Install(result->Err_0),
            }
        }),
{
    let mut root = root;
    let ghost before = root.view();
    match root.take("hooks") {
        None => {
            proof {
                crate::ordered::removed_absent(before, "hooks"@);
            }
            Ok(root)
        },
        Some(Json::Object(hooks)) => match strip_hooks(&hooks, owned_command) {
            Err(error) => Err(error),
            Ok(kept) => {
                if kept.len() > 0 {
                    root.insert("hooks".to_owned(), Json::Object(kept));
                }
                Ok(root)
            },
        },
        Some(_) => Err(CliError::Install("Hermes hooks must be an object".to_owned())),
    }
}

/// A configuration without the relay's server, where it is `owned`, and without servers where there are none.
pub open spec fn without_server(root: Members, owned: bool) -> Result<Members, Seq<char>> {
    match lookup(root, "mcp_servers"@) {
        None => Ok(root),
        Some(JsonView::Object(servers)) => {
            let left = if owned {
                removed(servers, MCP_SERVER_NAME@)
            } else {
                servers
            };
            if left.len() == 0 {
                Ok(removed(root, "mcp_servers"@))
            } else {
                Ok(inserted(removed(root, "mcp_servers"@), "mcp_servers"@, JsonView::Object(left)))
            }
        },
        Some(_) => Err("Hermes mcp_servers must be an object"@),
    }
}

/// Takes the relay's server, where it is `owned`, out of a configuration.
pub fn remove_owned_mcp(root: JsonObject, owned: bool) -> (r: Result<JsonObject, CliError>)
    ensures
        match r {
            Ok(object) => without_server(root.view(), owned) == Ok::<Members, Seq<char>>(object.view()),
            Err(error) => without_server(root.view(), owned) is Err && error.view() == Failure::Install(
                without_server(root.view(), owned)->Err_0,
            ),
        },
{
    let mut root = root;
    let ghost before = root.view();
    match root.take("mcp_servers") {
        None => {
            proof {
                crate::ordered::removed_absent(before, "mcp_servers"@);
            }
            Ok(root)
        },
        Some(Json::Object(servers)) => {
            let mut servers = servers;
            if owned {
                let _ = servers.take(MCP_SERVER_NAME);
            }
            if servers.len() > 0 {
                root.insert("mcp_servers".to_owned(), Json::Object(servers));
            }
            Ok(root)
        },
        Some(_) => Err(CliError::Install("Hermes mcp_servers must be an object".to_owned())),
    }
}

/// A hook group with the command `command`.
pub open spec fn hook_group(command: Seq<char>) -> JsonView {
    object_of(seq![("command"@, JsonView::Text(command)), ("timeout"@, JsonView::Unsigned(30))])
}

fn make_hook_group(command: &str) -> (r: Json)
    ensures
        r@ == hook_group(command@),
{
    let pairs: Vec<(&str, Json)> = vec![("command", text_json(command)), ("timeout", Json::Unsigned(30))];
    assert(pairs_view(pairs@) =~= seq![
        ("command"@, JsonView::Text(command@)),
        ("timeout"@, JsonView::Unsigned(30)),
    ]);
    json_object(pairs)
}

/// Hooks with one more group on each of the first `n` events, or the first of these that has no groups.
pub open spec fn added_hooks(hooks: Members, events: Seq<Seq<char>>, command: Seq<char>, n: int) -> Result<
    Members,
    Seq<char>,
>
    decreases n,
{
    if n <= 0 {
        Ok(hooks)
    } else {
        match added_hooks(hooks, events, command, n - 1) {
            Err(error) => Err(error),
            Ok(done) => match lookup(done, events[n - 1]) {
                None => Ok(inserted(done, events[n - 1], JsonView::Array(seq![hook_group(command)]))),
                Some(JsonView::Array(groups)) => Ok(
                    inserted(done, events[n - 1], JsonView::Array(groups.push(hook_group(command)))),
                ),
                Some(_) => Err("Hermes "@ + events[n - 1] + " hooks must be an array"@),
            },
        }
    }
}

proof fn added_hooks_stop(hooks: Members, events: Seq<Seq<char>>, command: Seq<char>, n: int, m: int)
    requires
        n <= m,
        added_hooks(hooks, events, command, n) is Err,
    ensures
        added_hooks(hooks, events, command, m) == added_hooks(hooks, events, command, n),
    decreases m - n,
{
    if n < m {
        added_hooks_stop(hooks, events, command, n, m - 1);
    }
}

/// A configuration whose hooks have one more group on each event.
pub open spec fn hooked(root: Members, events: Seq<Seq<char>>, command: Seq<char>) -> Result<Members, Seq<char>> {
    match lookup(root, "hooks"@) {
        Some(JsonView::Object(hooks)) => match added_hooks(hooks, events, command, events.len() as int) {
            Err(error) => Err(error),
            Ok(done) => Ok(inserted(removed(root, "hooks"@), "hooks"@, JsonView::Object(done))),
        },
        None => match added_hooks(Members::empty(), events, command, events.len() as int) {
            Err(error) => Err(error),
            Ok(done) => Ok(inserted(removed(root, "hooks"@), "hooks"@, JsonView::Object(done))),
        },
        Some(_) => Err("Hermes hooks must be an object"@),
    }
}

fn add_hooks(hooks: JsonObject, events: &Vec<String>, command: &str) -> (r: Result<JsonObject, CliError>)
    ensures
        ({
            let added = added_hooks(hooks.view(), texts(events@), command@, events@.len() as int);
            match r {
                Ok(object) => added == Ok::<Members, Seq<char>>(object.view()),
                Err(error) => added is Err && error.view() == Failure::Install(added->Err_0),
            }
        }),
{
    let ghost all = hooks.view();
    let ghost names = texts(events@);
    let mut done = hooks;
    let mut i: usize = 0;
    while i < events.len()
        invariant
            i <= events.len(),
            all == hooks.view(),
            names == texts(events@),
            added_hooks(all, names, command@, i as int) == Ok::<Members, Seq<char>>(done.view()),
        decreases events.len() - i,
    {
        let event = events[i].as_str();
        assert(names[i as int] == event@);
        let ghost before = done.view();
        let found: Option<Vec<Json>> = match done.get(event) {
            None => Some(Vec::new()),
            Some(Json::Array(groups)) => {
                proof {
                    array_holds(*groups);
                }
                let copied = keep_groups(groups, None);
                proof {
                    kept_without_owner(array_view(groups@), groups@.len() as int);
                    assert(array_view(groups@).take(groups@.len() as int) =~= array_view(groups@));
                }
                Some(copied)
            },
            Some(_) => None,
        };
        match found {
            None => {
                proof {
                    added_hooks_stop(all, names, command@, i + 1, names.len() as int);
                }
                return Err(
                    CliError::Install("Hermes ".to_owned().concat(event).concat(" hooks must be an array")),
                );
            },
            Some(groups) => {
                let mut groups = groups;
                let ghost old_groups = array_view(groups@);
                groups.push(make_hook_group(command));
                proof {
                    array_holds(groups);
                    assert(array_view(groups@) =~= old_groups.push(hook_group(command@)));
                    assert(Seq::<JsonView>::empty().push(hook_group(command@)) =~= seq![hook_group(command@)]);
                    if lookup(before, event@) is None {
                        assert(old_groups =~= Seq::empty());
                    }
                }
                done.insert(event.to_owned(), Json::Array(groups));
            },
        }
        i += 1;
    }
    Ok(done)
}

/// Where nothing is owned, everything is kept.
pub proof fn kept_without_owner(groups: Seq<JsonView>, n: int)
    requires
        0 <= n <= groups.len(),
    ensures
        kept_groups(groups, None, n) == groups.take(n),
    decreases n,
{
    if n > 0 {
        kept_without_owner(groups, n - 1);
        assert(groups.take(n) =~= groups.take(n - 1).push(groups[n - 1]));
    } else {
        assert(groups.take(0) =~= Seq::empty());
    }
}

/// Adds a hook group with the command `command` to each of `events`, behind the groups that are there.
pub fn merge_hooks(root: JsonObject, events: &Vec<String>, command: &str) -> (r: Result<JsonObject, CliError>)
    ensures
        ({
            let result = hooked(root.view(), texts(events@), command@);
            match r {
                Ok(object) => result == Ok::<Members, Seq<char>>(object.view()),
                Err(error) => result is Err && error.view() == Failure::Install(result->Err_0),
            }
        }),
{
    let mut root = root;
    let hooks = match root.take("hooks") {
        None => JsonObject::new(),
        Some(Json::Object(hooks)) => hooks,
        Some(_) => {
            return Err(CliError::Install("Hermes hooks must be an object".to_owned()));
        },
    };
    match add_hooks(hooks, events, command) {
        Err(error) => Err(error),
        Ok(done) => {
            root.insert("hooks".to_owned(), Json::Object(done));
            Ok(root)
        },
    }
}

/// The environment of the relay's server: the gateway, the generation, and the forwarded variables.
pub open spec fn server_environment(
    profile: HermesProfile,
    generation: Seq<char>,
    token: Seq<char>,
    environment: Seq<Seq<char>>,
    n: int,
) -> Members
    decreases n,
{
    if n <= 0 {
        members_of(
            seq![
                ("NEMO_RELAY_GATEWAY_BIND"@, JsonView::Text(DEFAULT_BIND@)),
                (profile.generation_file_env@, JsonView::Text(generation)),
                (profile.generation_token_env@, JsonView::Text(token)),
            ],
        )
    } else {
        inserted(
            server_environment(profile, generation, token, environment, n - 1),
            environment[n - 1],
            JsonView::Text("${"@ + environment[n - 1] + "}"@),
        )
    }
}

/// The relay's server.
pub open spec fn expected_server(
    profile: HermesProfile,
    relay: Seq<char>,
    generation: Seq<char>,
    token: Seq<char>,
    environment: Seq<Seq<char>>,
) -> JsonView {
    object_of(
        seq![
            ("command"@, JsonView::Text(relay)),
            ("args"@, texts_json(seq!["mcp"@])),
            (
                "env"@,
                JsonView::Object(
                    server_environment(profile, generation, token, environment, environment.len() as int),
                ),
            ),
        ],
    )
}

/// The environment of the relay's server.
pub fn make_server_environment(
    profile: &HermesProfile,
    generation: &str,
    generation_token: &str,
    environment: &Vec<String>,
) -> (r: JsonObject)
    ensures
        r.view() == server_environment(
            *profile,
            generation@,
            generation_token@,
            texts(environment@),
            environment@.len() as int,
        ),
{
    let mut env = JsonObject::new();
    let ghost names = texts(environment@);
    let ghost first = seq![
        ("NEMO_RELAY_GATEWAY_BIND"@, JsonView::Text(DEFAULT_BIND@)),
        (profile.generation_file_env@, JsonView::Text(generation@)),
        (profile.generation_token_env@, JsonView::Text(generation_token@)),
    ];
    env.insert("NEMO_RELAY_GATEWAY_BIND".to_owned(), text_json(DEFAULT_BIND));
    env.insert(profile.generation_file_env.clone(), text_json(generation));
    env.insert(profile.generation_token_env.clone(), text_json(generation_token));
    proof {
        reveal_with_fuel(members_of, 4);
        assert(first.drop_last().drop_last().drop_last() =~= Members::empty());
        assert(first.drop_last().drop_last().last() == first[0]);
        assert(first.drop_last().last() == first[1]);
        assert(first.last() == first[2]);
    }
    let mut i: usize = 0;
    while i < environment.len()
        invariant
            i <= environment.len(),
            names == texts(environment@),
            env.view() == server_environment(*profile, generation@, generation_token@, names, i as int),
        decreases environment.len() - i,
    {
        let name = environment[i].as_str();
        assert(names[i as int] == name@);
        env.insert(name.to_owned(), Json::Text("${".to_owned().concat(name).concat("}")));
        i += 1;
    }
    env
}

/// The relay's server, with the forwarded variables `environment`.
pub fn expected_mcp_server(
    profile: &HermesProfile,
    relay: &str,
    generation: &str,
    generation_token: &str,
    environment: &Vec<String>,
) -> (r: Json)
    ensures
        r@ == expected_server(*profile, relay@, generation@, generation_token@, texts(environment@)),
{
    let env = make_server_environment(profile, generation, generation_token, environment);
    let args: Vec<Json> = vec![text_json("mcp")];
    proof {
        array_holds(args);
        assert(array_view(args@) =~= texts_json(seq!["mcp"@])->Array_0);
    }
    let pairs: Vec<(&str, Json)> = vec![
        ("command", text_json(relay)),
        ("args", Json::Array(args)),
        ("env", Json::Object(env)),
    ];
    assert(pairs_view(pairs@) =~= seq![
        ("command"@, JsonView::Text(relay@)),
        ("args"@, texts_json(seq!["mcp"@])),
        (
            "env"@,
            JsonView::Object(
                server_environment(
                    *profile,
                    generation@,
                    generation_token@,
                    texts(environment@),
                    environment@.len() as int,
                ),
            ),
        ),
    ]);
    json_object(pairs)
}

/// A configuration with the relay's server.
pub open spec fn served(root: Members, server: JsonView) -> Result<Members, Seq<char>> {
    match lookup(root, "mcp_servers"@) {
        Some(JsonView::Object(servers)) => Ok(
            inserted(
                removed(root, "mcp_servers"@),
                "mcp_servers"@,
                JsonView::Object(inserted(servers, MCP_SERVER_NAME@, server)),
            ),
        ),
        None => Ok(
            inserted(
                removed(root, "mcp_servers"@),
                "mcp_servers"@,
                JsonView::Object(inserted(Members::empty(), MCP_SERVER_NAME@, server)),
            ),
        ),
        Some(_) => Err("Hermes mcp_servers must be an object"@),
    }
}

fn put_server(root: JsonObject, server: Json) -> (r: Result<JsonObject, CliError>)
    ensures
        match r {
            Ok(object) => served(root.view(), server@) == Ok::<Members, Seq<char>>(object.view()),
            Err(error) => served(root.view(), server@) is Err && error.view() == Failure::Install(
                served(root.view(), server@)->Err_0,
            ),
        },
{
    let mut root = root;
    let mut servers = match root.take("mcp_servers") {
        None => JsonObject::new(),
        Some(Json::Object(servers)) => servers,
        Some(_) => {
            return Err(CliError::Install("Hermes mcp_servers must be an object".to_owned()));
        },
    };
    servers.insert(MCP_SERVER_NAME.to_owned(), server);
    root.insert("mcp_servers".to_owned(), Json::Object(servers));
    Ok(root)
}

/// What says that the name of the relay's server is taken.
pub open spec fn name_taken() -> Seq<char> {
    "Hermes MCP server `nemo-relay` already exists and is not managed by Relay; rename or remove it before installing the Relay integration"@
}

/// A configuration with the relay installed: without the hooks of the installation that it held, with a hook
/// on every event and the relay's server. A server of that name that is not the relay's is left alone.
pub open spec fn installed(
    profile: HermesProfile,
    root: Members,
    relay: Seq<char>,
    command: Seq<char>,
    generation: Seq<char>,
    token: Seq<char>,
    environment: Seq<Seq<char>>,
) -> Result<Members, Seq<char>> {
    let owned = owned_command(profile, root, relay, Some(generation));
    if relay_server(root) is Some && owned is None {
        Err(name_taken())
    } else {
        match stripped(root, owned) {
            Err(error) => Err(error),
            Ok(bare) => match hooked(bare, texts(profile.hook_events@), command) {
                Err(error) => Err(error),
                Ok(with_hooks) => served(
                    with_hooks,
                    expected_server(profile, relay, generation, token, environment),
                ),
            },
        }
    }
}

/// Installs the relay in a configuration.
pub fn install_in_config(
    profile: &HermesProfile,
    root: JsonObject,
    relay: &str,
    command: &str,
    generation: &str,
    generation_token: &str,
    environment: &Vec<String>,
) -> (r: Result<JsonObject, CliError>)
    ensures
        ({
            let result = installed(
                *profile,
                root.view(),
                relay@,
                command@,
                generation@,
                generation_token@,
                texts(environment@),
            );
            match r {
                Ok(object) => result == Ok::<Members, Seq<char>>(object.view()),
                Err(error) => result is Err && error.view() == Failure::Install(result->Err_0),
            }
        }),
{
    let owned = owned_install_command(profile, &root, relay, Some(generation));
    if find_relay_server(&root).is_some() && owned.is_none() {
        return Err(
            CliError::Install(
                "Hermes MCP server `nemo-relay` already exists and is not managed by Relay; rename or remove it before installing the Relay integration".to_owned(),
            ),
        );
    }
    let own: Option<&str> = match &owned {
        Some(s) => Some(s.as_str()),
        None => None,
    };
    let bare = match strip_owned_hooks(root, own) {
        Err(error) => {
            return Err(error);
        },
        Ok(bare) => bare,
    };
    let with_hooks = match merge_hooks(bare, &profile.hook_events, command) {
        Err(error) => {
            return Err(error);
        },
        Ok(with_hooks) => with_hooks,
    };
    put_server(with_hooks, expected_mcp_server(profile, relay, generation, generation_token, environment))
}

/// What a document holds: an object, or nothing where it is missing or blank.
pub open spec fn document_object(
    document: Option<Result<JsonView, Seq<char>>>,
    description: Seq<char>,
    what: Seq<char>,
) -> Result<Members, Seq<char>> {
    match document {
        None => Ok(Members::empty()),
        Some(Err(error)) => Err("invalid "@ + description + ": "@ + error),
        Some(Ok(JsonView::Object(members))) => Ok(members),
        Some(Ok(_)) => Err(description + " must contain "@ + what),
    }
}

/// The object that a document holds, once it is read. `what` says what it has to hold.
pub fn object_from_document(document: Option<Result<Json, String>>, description: &str, what: &str) -> (r: Result<
    JsonObject,
    CliError,
>)
    ensures
        ({
            let result = document_object(
                match document {
                    Some(Ok(json)) => Some(Ok(json@)),
                    Some(Err(error)) => Some(Err(error@)),
                    None => None,
                },
                description@,
                what@,
            );
            match r {
                Ok(object) => result == Ok::<Members, Seq<char>>(object.view()),
                Err(error) => result is Err && error.view() == Failure::Install(result->Err_0),
            }
        }),
{
    match document {
        None => Ok(JsonObject::new()),
        Some(Err(error)) => Err(
            CliError::Install("invalid ".to_owned().concat(description).concat(": ").concat(error.as_str())),
        ),
        Some(Ok(Json::Object(object))) => Ok(object),
        Some(Ok(_)) => Err(CliError::Install(description.to_owned().concat(" must contain ").concat(what))),
    }
}

/// What a YAML text holds: an object, or nothing where it is missing or blank.
pub open spec fn yaml_object(raw: Option<Seq<char>>, description: Seq<char>) -> Result<Members, Seq<char>> {
    document_object(
        match raw {
            Some(text) => if blank(text) {
                None
            } else {
                Some(yaml_document(text))
            },
            None => None,
        },
        description,
        "an object"@,
    )
}

/// The object that a YAML text holds.
pub fn parse_yaml_object(raw: Option<&str>, description: &str) -> (r: Result<JsonObject, CliError>)
    ensures
        ({
            let result = yaml_object(
                opt_str(raw),
                description@,
            );
            match r {
                Ok(object) => result == Ok::<Members, Seq<char>>(object.view()),
                Err(error) => result is Err && error.view() == Failure::Install(result->Err_0),
            }
        }),
{
    let document = match raw {
        Some(text) => {
            if is_blank(text) {
                None
            } else {
                Some(Json::from_yaml(text))
            }
        },
        None => None,
    };
    object_from_document(document, description, "an object")
}

/// Installs the relay in the configuration that a text holds.
pub fn persistent_config(
    profile: &HermesProfile,
    existing: Option<&str>,
    relay: &str,
    command: &str,
    generation: &str,
    generation_token: &str,
    environment: &Vec<String>,
) -> (r: Result<JsonObject, CliError>)
    ensures
        ({
            let root = yaml_object(
                opt_str(existing),
                "Hermes config"@,
            );
            match root {
                Err(error) => r is Err && r->Err_0.view() == Failure::Install(error),
                Ok(members) => {
                    let result = installed(
                        *profile,
                        members,
                        relay@,
                        command@,
                        generation@,
                        generation_token@,
                        texts(environment@),
                    );
                    match r {
                        Ok(object) => result == Ok::<Members, Seq<char>>(object.view()),
                        Err(error) => result is Err && error.view() == Failure::Install(result->Err_0),
                    }
                },
            }
        }),
{
    match parse_yaml_object(existing, "Hermes config") {
        Err(error) => Err(error),
        Ok(root) => install_in_config(profile, root, relay, command, generation, generation_token, environment),
    }
}

/// The model of a configuration that a transparent run routes to its gateway: what it names stays, the
/// provider and its URL are the gateway's.
pub open spec fn routed_model(model: Option<JsonView>, gateway_url: Seq<char>) -> Result<Members, Seq<char>> {
    let own = match model {
        None => Ok(Members::empty()),
        Some(JsonView::Null) => Ok(Members::empty()),
        Some(JsonView::Object(members)) => Ok(members),
        Some(JsonView::Text(name)) => Ok(members_of(seq![("default"@, JsonView::Text(name))])),
        Some(_) => Err("Hermes model config must be a string or mapping"@),
    };
    match own {
        Err(error) => Err(error),
        Ok(members) => Ok(
            inserted(
                inserted(members, "provider"@, JsonView::Text("custom"@)),
                "base_url"@,
                JsonView::Text(trim_end_char(gateway_url, '/') + "/v1"@),
            ),
        ),
    }
}

fn route_model(model: Option<Json>, gateway_url: &str) -> (r: Result<JsonObject, CliError>)
    ensures
        ({
            let result = routed_model(
                match model {
                    Some(json) => Some(json@),
                    None => None,
                },
                gateway_url@,
            );
            match r {
                Ok(object) => result == Ok::<Members, Seq<char>>(object.view()),
                Err(error) => result is Err && error.view() == Failure::Launch(result->Err_0),
            }
        }),
{
    let mut own = match model {
        None => JsonObject::new(),
        Some(Json::Null) => JsonObject::new(),
        Some(Json::Object(members)) => members,
        Some(Json::Text(name)) => {
            let mut named = JsonObject::new();
            let ghost text = name@;
            named.insert("default".to_owned(), Json::Text(name));
            proof {
                let pairs = seq![("default"@, JsonView::Text(text))];
                reveal_with_fuel(members_of, 2);
                assert(pairs.drop_last() =~= Members::empty());
            }
            named
        },
        Some(_) => {
            return Err(CliError::Launch("Hermes model config must be a string or mapping".to_owned()));
        },
    };
    own.insert("provider".to_owned(), text_json("custom"));
    own.insert(
        "base_url".to_owned(),
        Json::Text(without_end_char(gateway_url, '/').to_owned().concat("/v1")),
    );
    Ok(own)
}

/// The configuration of a transparent run: without the persistent installation, with a hook on every event
/// that forwards to the gateway of the run, and the model routed to that gateway.
pub open spec fn transparent(
    profile: HermesProfile,
    root: Members,
    relay: Seq<char>,
    gateway_url: Seq<char>,
) -> Result<Members, Failure> {
    let owned = owned_command(profile, root, relay, None);
    match stripped(root, owned) {
        Err(error) => Err(Failure::Install(error)),
        Ok(bare) => match without_server(bare, owned is Some) {
            Err(error) => Err(Failure::Install(error)),
            Ok(alone) => match hooked(
                alone,
                texts(profile.hook_events@),
                transparent_command(profile.platform, relay, gateway_url),
            ) {
                Err(error) => Err(Failure::Install(error)),
                Ok(with_hooks) => match routed_model(lookup(with_hooks, "model"@), gateway_url) {
                    Err(error) => Err(Failure::Launch(error)),
                    Ok(model) => Ok(
                        inserted(removed(with_hooks, "model"@), "model"@, JsonView::Object(model)),
                    ),
                },
            },
        },
    }
}

/// The configuration of a transparent run.
pub fn make_transparent(profile: &HermesProfile, root: JsonObject, relay: &str, gateway_url: &str) -> (r: Result<
    JsonObject,
    CliError,
>)
    ensures
        match r {
            Ok(object) => transparent(*profile, root.view(), relay@, gateway_url@) == Ok::<Members, Failure>(
                object.view(),
            ),
            Err(error) => transparent(*profile, root.view(), relay@, gateway_url@) == Err::<Members, Failure>(
                error.view(),
            ),
        },
{
    let owned = owned_install_command(profile, &root, relay, None);
    let own: Option<&str> = match &owned {
        Some(s) => Some(s.as_str()),
        None => None,
    };
    let bare = match strip_owned_hooks(root, own) {
        Err(error) => {
            return Err(error);
        },
        Ok(bare) => bare,
    };
    let alone = match remove_owned_mcp(bare, owned.is_some()) {
        Err(error) => {
            return Err(error);
        },
        Ok(alone) => alone,
    };
    let command = transparent_hook_forward_command(&profile.platform, relay, gateway_url);
    let mut with_hooks = match merge_hooks(alone, &profile.hook_events, command.as_str()) {
        Err(error) => {
            return Err(error);
        },
        Ok(with_hooks) => with_hooks,
    };
    let model = with_hooks.take("model");
    match route_model(model, gateway_url) {
        Err(error) => Err(error),
        Ok(model) => {
            with_hooks.insert("model".to_owned(), Json::Object(model));
            Ok(with_hooks)
        },
    }
}

/// Whether `r` is the text that an object is printed as.
pub open spec fn printed_yaml(r: Result<String, CliError>, members: Members) -> bool {
    match r {
        Ok(text) => yaml_text(JsonView::Object(members)) == Ok::<Seq<char>, Seq<char>>(text@),
        Err(error) => yaml_text(JsonView::Object(members)) is Err && error.view() == Failure::Install(
            yaml_text(JsonView::Object(members))->Err_0,
        ),
    }
}

/// Prints a configuration.
pub fn yaml_string(root: JsonObject) -> (r: Result<String, CliError>)
    ensures
        printed_yaml(r, root.view()),
{
    match Json::Object(root).to_yaml() {
        Ok(text) => Ok(text),
        Err(error) => Err(CliError::Install(error)),
    }
}

/// The configuration of a transparent run, from text to text.
pub open spec fn transparent_text(
    profile: HermesProfile,
    existing: Seq<char>,
    relay: Seq<char>,
    gateway_url: Seq<char>,
) -> Result<Seq<char>, Failure> {
    match yaml_object(Some(existing), "Hermes config"@) {
        Err(error) => Err(Failure::Install(error)),
        Ok(root) => match transparent(profile, root, relay, gateway_url) {
            Err(error) => Err(error),
            Ok(members) => match yaml_text(JsonView::Object(members)) {
                Err(error) => Err(Failure::Install(error)),
                Ok(text) => Ok(text),
            },
        },
    }
}

/// The configuration of a transparent run, from text to text.
pub fn transparent_config(profile: &HermesProfile, existing: &str, relay: &str, gateway_url: &str) -> (r: Result<
    String,
    CliError,
>)
    ensures
        transparent_text(*profile, existing@, relay@, gateway_url@) == (match r {
            Ok(text) => Ok(text@),
            Err(error) => Err(error.view()),
        }),
{
    let root = match parse_yaml_object(Some(existing), "Hermes config") {
        Err(error) => {
            return Err(error);
        },
        Ok(root) => root,
    };
    match make_transparent(profile, root, relay, gateway_url) {
        Err(error) => Err(error),
        Ok(root) => yaml_string(root),
    }
}

} // verus!
