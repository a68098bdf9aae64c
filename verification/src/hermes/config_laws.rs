//! What a configuration of the agent holds once the relay has written it.

use crate::error::Failure;
use crate::hermes::config::{
    added_hooks, common_legacy, event_groups, expected_server, hook_group, hooked, installed, kept_groups, kept_hooks,
    kept_hooks_are_sorted, legacy_commands, legacy_owned, owned_command, routed_model, server_environment,
        server_generation, stripped, transparent, without_server, yaml_object, HermesProfile,
};
use crate::hermes::hooks::{legacy_command, persistent_command, Platform, DEFAULT_BIND};
use crate::hermes::laws::{
    adding_succeeds, all_groups, distinct_names, free_names, groups_are_kept, hooks_of, replaced, servers_of,
};
use crate::json::{
    an_object_holds_no_more, an_object_tells_its_pairs, keys_differ, members_of, texts_json, yaml_document, JsonView,
    Members,
};
use crate::ordered::{
    inserted, inserted_sorted, lookup, lookup_inserted, lookup_removed, removed, removed_sorted, sorted,
};
use crate::text::{blank, texts, trim_end_char};
use vstd::prelude::*;
use vstd::string::*;

verus! {

proof fn model_keys_differ()
    ensures
        "provider"@ != "base_url"@,
        "provider"@ != "default"@,
        "base_url"@ != "default"@,
        "model"@ != "hooks"@,
        "model"@ != "mcp_servers"@,
        "hooks"@ != "mcp_servers"@,
{
    reveal_strlit("provider");
    reveal_strlit("base_url");
    reveal_strlit("default");
    reveal_strlit("model");
    reveal_strlit("hooks");
    reveal_strlit("mcp_servers");
    assert("provider"@[0] != "base_url"@[0]);
    assert("provider"@.len() != "default"@.len());
    assert("base_url"@.len() != "default"@.len());
    assert("model"@[0] != "hooks"@[0]);
    assert("model"@.len() != "mcp_servers"@.len());
    assert("hooks"@.len() != "mcp_servers"@.len());
}

proof fn stripping_keeps_other_keys(root: Members, owned: Option<Seq<char>>, key: Seq<char>)
    requires
        sorted(root),
        stripped(root, owned) is Ok,
    ensures
        sorted(stripped(root, owned)->Ok_0),
        key != "hooks"@ ==> lookup(stripped(root, owned)->Ok_0, key) == lookup(root, key),
{
    removed_sorted(root, "hooks"@);
    lookup_removed(root, "hooks"@, key);
    if let Some(JsonView::Object(hooks)) = lookup(root, "hooks"@) {
        let kept = kept_hooks(hooks, owned, hooks.len() as int)->Ok_0;
        replaced(root, "hooks"@, JsonView::Object(kept), key);
    }
}

proof fn removing_the_server_keeps_other_keys(root: Members, owned: bool, key: Seq<char>)
    requires
        sorted(root),
        without_server(root, owned) is Ok,
    ensures
        sorted(without_server(root, owned)->Ok_0),
        key != "mcp_servers"@ ==> lookup(without_server(root, owned)->Ok_0, key) == lookup(root, key),
{
    removed_sorted(root, "mcp_servers"@);
    lookup_removed(root, "mcp_servers"@, key);
    if let Some(JsonView::Object(servers)) = lookup(root, "mcp_servers"@) {
        let left = if owned {
            removed(servers, crate::hermes::config::MCP_SERVER_NAME@)
        } else {
            servers
        };
        replaced(root, "mcp_servers"@, JsonView::Object(left), key);
    }
}

proof fn hooking_keeps_other_keys(root: Members, events: Seq<Seq<char>>, command: Seq<char>, key: Seq<char>)
    requires
        sorted(root),
        hooked(root, events, command) is Ok,
    ensures
        sorted(hooked(root, events, command)->Ok_0),
        key != "hooks"@ ==> lookup(hooked(root, events, command)->Ok_0, key) == lookup(root, key),
{
    let hooks = match lookup(root, "hooks"@) {
        Some(JsonView::Object(hooks)) => hooks,
        _ => Members::empty(),
    };
    let added = added_hooks(hooks, events, command, events.len() as int)->Ok_0;
    replaced(root, "hooks"@, JsonView::Object(added), key);
}

/// A run through a gateway keeps the user's model: where the configuration has a mapping there, the mapping of the run
/// has the same value under every key but `provider` and `base_url`, and nothing more; a name alone is kept as the
/// default. The provider is a custom one, and its URL is that of the gateway.
pub proof fn a_transparent_run_keeps_the_users_model(
    profile: HermesProfile,
    root: Members,
    relay: Seq<char>,
    gateway_url: Seq<char>,
    key: Seq<char>,
)
    requires
        sorted(root),
        lookup(root, "model"@) matches Some(JsonView::Object(model)) ==> sorted(model),
        transparent(profile, root, relay, gateway_url) is Ok,
    ensures
        ({
            let model = lookup(transparent(profile, root, relay, gateway_url)->Ok_0, "model"@);
            &&& model is Some
            &&& model->Some_0 is Object
            &&& model->Some_0.get("provider"@) == Some(JsonView::Text("custom"@))
            &&& model->Some_0.get("base_url"@) == Some(JsonView::Text(trim_end_char(gateway_url, '/') + "/v1"@))
            &&& key != "provider"@ && key != "base_url"@ ==> model->Some_0.get(key) == (match lookup(
                root,
                "model"@,
            ) {
                Some(JsonView::Object(users)) => lookup(users, key),
                Some(JsonView::Text(name)) => if key == "default"@ {
                    Some(JsonView::Text(name))
                } else {
                    None
                },
                _ => None,
            })
        }),
{
    model_keys_differ();
    let owned = owned_command(profile, root, relay, None);
    let events = texts(profile.hook_events@);
    let command = crate::hermes::hooks::transparent_command(profile.platform, relay, gateway_url);
    stripping_keeps_other_keys(root, owned, "model"@);
    let bare = stripped(root, owned)->Ok_0;
    removing_the_server_keeps_other_keys(bare, owned is Some, "model"@);
    let alone = without_server(bare, owned is Some)->Ok_0;
    hooking_keeps_other_keys(alone, events, command, "model"@);
    let with_hooks = hooked(alone, events, command)->Ok_0;
    let users = lookup(root, "model"@);
    assert(lookup(with_hooks, "model"@) == users);
    a_routed_model_keeps_its_members(users, gateway_url, key);
    a_routed_model_keeps_its_members(users, gateway_url, "provider"@);
    a_routed_model_keeps_its_members(users, gateway_url, "base_url"@);
    replaced(with_hooks, "model"@, JsonView::Object(routed_model(users, gateway_url)->Ok_0), "model"@);
}

proof fn a_routed_model_keeps_its_members(model: Option<JsonView>, gateway_url: Seq<char>, key: Seq<char>)
    requires
        model matches Some(JsonView::Object(users)) ==> sorted(users),
        routed_model(model, gateway_url) is Ok,
    ensures
        ({
            let routed = routed_model(model, gateway_url)->Ok_0;
            lookup(routed, key) == (if key == "base_url"@ {
                Some(JsonView::Text(trim_end_char(gateway_url, '/') + "/v1"@))
            } else if key == "provider"@ {
                Some(JsonView::Text("custom"@))
            } else {
                match model {
                    Some(JsonView::Object(users)) => lookup(users, key),
                    Some(JsonView::Text(name)) => if key == "default"@ {
                        Some(JsonView::Text(name))
                    } else {
                        None
                    },
                    _ => None,
                }
            })
        }),
{
    model_keys_differ();
    let own = match model {
        Some(JsonView::Object(users)) => users,
        Some(JsonView::Text(name)) => members_of(seq![("default"@, JsonView::Text(name))]),
        _ => Members::empty(),
    };
    if let Some(JsonView::Text(name)) = model {
        let pairs = seq![("default"@, JsonView::Text(name))];
        an_object_tells_its_pairs(pairs);
        assert(pairs[0].0 == "default"@);
        if key != "default"@ {
            an_object_holds_no_more(pairs, key);
        }
    }
    let custom = JsonView::Text("custom"@);
    let url = JsonView::Text(trim_end_char(gateway_url, '/') + "/v1"@);
    inserted_sorted(own, "provider"@, custom);
    lookup_inserted(own, "provider"@, custom, key);
    lookup_inserted(inserted(own, "provider"@, custom), "base_url"@, url, key);
}

/// A run through a gateway is refused where the user's model is neither a name nor a mapping.
pub proof fn a_transparent_run_needs_a_model_to_route(
    profile: HermesProfile,
    root: Members,
    relay: Seq<char>,
    gateway_url: Seq<char>,
)
    requires
        sorted(root),
        lookup(root, "model"@) is Some,
        !(lookup(root, "model"@)->Some_0 is Null),
        !(lookup(root, "model"@)->Some_0 is Object),
        !(lookup(root, "model"@)->Some_0 is Text),
    ensures
        match transparent(profile, root, relay, gateway_url) {
            Ok(_) => false,
            Err(Failure::Launch(message)) => message == "Hermes model config must be a string or mapping"@,
            Err(Failure::Install(_)) => true,
            Err(_) => false,
        },
{
    model_keys_differ();
    let owned = owned_command(profile, root, relay, None);
    let events = texts(profile.hook_events@);
    let command = crate::hermes::hooks::transparent_command(profile.platform, relay, gateway_url);
    if stripped(root, owned) is Ok {
        stripping_keeps_other_keys(root, owned, "model"@);
        let bare = stripped(root, owned)->Ok_0;
        if without_server(bare, owned is Some) is Ok {
            removing_the_server_keeps_other_keys(bare, owned is Some, "model"@);
            let alone = without_server(bare, owned is Some)->Ok_0;
            if hooked(alone, events, command) is Ok {
                hooking_keeps_other_keys(alone, events, command, "model"@);
            }
        }
    }
}

/// A hook group has the command that it was made with, half a minute to run it, and nothing else.
pub proof fn a_hook_group_is_its_command_and_time(command: Seq<char>, key: Seq<char>)
    ensures
        hook_group(command).get("command"@) == Some(JsonView::Text(command)),
        hook_group(command).get("timeout"@) == Some(JsonView::Unsigned(30)),
        key != "command"@ && key != "timeout"@ ==> hook_group(command).get(key) is None,
{
    reveal_strlit("command");
    reveal_strlit("timeout");
    assert("command"@[0] != "timeout"@[0]);
    let pairs = seq![("command"@, JsonView::Text(command)), ("timeout"@, JsonView::Unsigned(30))];
    assert(keys_differ(pairs));
    an_object_tells_its_pairs(pairs);
    assert(pairs[0].0 == "command"@ && pairs[1].0 == "timeout"@);
    if key != "command"@ && key != "timeout"@ {
        an_object_holds_no_more(pairs, key);
    }
}

/// The relay's server is the relay itself, started as an MCP server, with an environment, and nothing else.
pub proof fn the_relays_server_starts_the_relay(
    profile: HermesProfile,
    relay: Seq<char>,
    generation: Seq<char>,
    token: Seq<char>,
    environment: Seq<Seq<char>>,
    key: Seq<char>,
)
    ensures
        ({
            let server = expected_server(profile, relay, generation, token, environment);
            &&& server.get("command"@) == Some(JsonView::Text(relay))
            &&& server.get("args"@) == Some(JsonView::Array(seq![JsonView::Text("mcp"@)]))
            &&& server.get("env"@) is Some
            &&& server.get("env"@)->Some_0 is Object
            &&& key != "command"@ && key != "args"@ && key != "env"@ ==> server.get(key) is None
        }),
{
    reveal_strlit("command");
    reveal_strlit("args");
    reveal_strlit("env");
    assert("command"@.len() == 7 && "args"@.len() == 4 && "env"@.len() == 3);
    let env = JsonView::Object(server_environment(profile, generation, token, environment, environment.len() as int));
    let pairs = seq![("command"@, JsonView::Text(relay)), ("args"@, texts_json(seq!["mcp"@])), ("env"@, env)];
    assert(keys_differ(pairs));
    an_object_tells_its_pairs(pairs);
    assert(pairs[0].0 == "command"@ && pairs[1].0 == "args"@ && pairs[2].0 == "env"@);
    assert(texts_json(seq!["mcp"@])->Array_0 =~= seq![JsonView::Text("mcp"@)]);
    if key != "command"@ && key != "args"@ && key != "env"@ {
        an_object_holds_no_more(pairs, key);
    }
}

/// The environment of the relay's server names the shared gateway, the file and the token of the generation, passes
/// each of the named variables on, and holds nothing else.
pub proof fn the_relays_server_knows_its_generation(
    profile: HermesProfile,
    relay: Seq<char>,
    generation: Seq<char>,
    token: Seq<char>,
    environment: Seq<Seq<char>>,
    key: Seq<char>,
)
    requires
        distinct_names(profile),
        free_names(profile, environment),
    ensures
        ({
            let env = expected_server(profile, relay, generation, token, environment).get("env"@)->Some_0;
            env.get(key) == (if key == "NEMO_RELAY_GATEWAY_BIND"@ {
                Some(JsonView::Text("127.0.0.1:47632"@))
            } else if key == profile.generation_file_env@ {
                Some(JsonView::Text(generation))
            } else if key == profile.generation_token_env@ {
                Some(JsonView::Text(token))
            } else if environment.contains(key) {
                Some(JsonView::Text("${"@ + key + "}"@))
            } else {
                None
            })
        }),
{
    the_relays_server_starts_the_relay(profile, relay, generation, token, environment, key);
    let env = JsonView::Object(server_environment(profile, generation, token, environment, environment.len() as int));
    let pairs = seq![("command"@, JsonView::Text(relay)), ("args"@, texts_json(seq!["mcp"@])), ("env"@, env)];
    reveal_strlit("command");
    reveal_strlit("args");
    reveal_strlit("env");
    assert("command"@.len() == 7 && "args"@.len() == 4 && "env"@.len() == 3);
    assert(keys_differ(pairs));
    an_object_tells_its_pairs(pairs);
    assert(pairs[2].0 == "env"@);
    environment_by_name(profile, generation, token, environment, environment.len() as int, key);
    assert(environment.take(environment.len() as int) =~= environment);
}

proof fn environment_by_name(
    profile: HermesProfile,
    generation: Seq<char>,
    token: Seq<char>,
    environment: Seq<Seq<char>>,
    n: int,
    key: Seq<char>,
)
    requires
        distinct_names(profile),
        free_names(profile, environment),
        0 <= n <= environment.len(),
    ensures
        sorted(server_environment(profile, generation, token, environment, n)),
        lookup(server_environment(profile, generation, token, environment, n), key) == (if key
            == "NEMO_RELAY_GATEWAY_BIND"@ {
            Some(JsonView::Text("127.0.0.1:47632"@))
        } else if key == profile.generation_file_env@ {
            Some(JsonView::Text(generation))
        } else if key == profile.generation_token_env@ {
            Some(JsonView::Text(token))
        } else if environment.take(n).contains(key) {
            Some(JsonView::Text("${"@ + key + "}"@))
        } else {
            None
        }),
    decreases n,
{
    if n == 0 {
        let pairs = seq![
            ("NEMO_RELAY_GATEWAY_BIND"@, JsonView::Text(DEFAULT_BIND@)),
            (profile.generation_file_env@, JsonView::Text(generation)),
            (profile.generation_token_env@, JsonView::Text(token)),
        ];
        assert(keys_differ(pairs));
        an_object_tells_its_pairs(pairs);
        assert(pairs[0].0 == "NEMO_RELAY_GATEWAY_BIND"@ && pairs[1].0 == profile.generation_file_env@ && pairs[2].0
            == profile.generation_token_env@);
        if key != pairs[0].0 && key != pairs[1].0 && key != pairs[2].0 {
            an_object_holds_no_more(pairs, key);
        }
        assert(environment.take(0) =~= Seq::empty());
    } else {
        environment_by_name(profile, generation, token, environment, n - 1, key);
        let before = server_environment(profile, generation, token, environment, n - 1);
        let name = environment[n - 1];
        let value = JsonView::Text("${"@ + name + "}"@);
        inserted_sorted(before, name, value);
        lookup_inserted(before, name, value, key);
        assert(environment.take(n) =~= environment.take(n - 1).push(name));
        if key == name {
            assert(environment.take(n)[n - 1] == key);
        } else {
            if environment.take(n).contains(key) {
                let named = environment.take(n);
                let i = choose|i: int| 0 <= i < named.len() && named[i] == key;
                assert(environment.take(n - 1)[i] == key);
            }
            if environment.take(n - 1).contains(key) {
                let fewer = environment.take(n - 1);
                let i = choose|i: int| 0 <= i < fewer.len() && fewer[i] == key;
                assert(environment.take(n)[i] == key);
            }
        }
    }
}

/// Of the groups of an event exactly those go whose command is the one that is taken out; the others stay as they
/// are, in their order.
pub proof fn only_groups_with_the_command_go(groups: Seq<JsonView>, owned: Option<Seq<char>>)
    ensures
        kept_groups(groups, owned, groups.len() as int) == groups.filter(
            |group: JsonView| !(owned is Some && group.get("command"@) == Some(JsonView::Text(owned->Some_0))),
        ),
{
    groups_are_filtered(groups, owned, groups.len() as int);
    assert(groups.take(groups.len() as int) =~= groups);
}

proof fn groups_are_filtered(groups: Seq<JsonView>, owned: Option<Seq<char>>, n: int)
    requires
        0 <= n <= groups.len(),
    ensures
        kept_groups(groups, owned, n) == groups.take(n).filter(
            |group: JsonView| !(owned is Some && group.get("command"@) == Some(JsonView::Text(owned->Some_0))),
        ),
    decreases n,
{
    reveal(Seq::filter);
    if n > 0 {
        groups_are_filtered(groups, owned, n - 1);
        assert(groups.take(n).drop_last() =~= groups.take(n - 1));
        assert(groups.take(n).last() == groups[n - 1]);
    } else {
        assert(groups.take(0) =~= Seq::empty());
    }
}

/// An installation by generation is told by its server: it starts the relay as an MCP server at the shared gateway, and
/// its environment names a file and a token that is not empty.
pub proof fn a_generation_is_told_by_its_server(profile: HermesProfile, server: JsonView)
    ensures
        ({
            let env = server.get("env"@);
            let file = env->Some_0.get(profile.generation_file_env@);
            let token = env->Some_0.get(profile.generation_token_env@);
            let told = {
                &&& server.get("args"@) == Some(JsonView::Array(seq![JsonView::Text("mcp"@)]))
                &&& env is Some
                &&& env->Some_0 is Object
                &&& env->Some_0.get("NEMO_RELAY_GATEWAY_BIND"@) == Some(JsonView::Text("127.0.0.1:47632"@))
                &&& file is Some
                &&& file->Some_0 is Text
                &&& token is Some
                &&& token->Some_0 is Text
                &&& token->Some_0->Text_0.len() > 0
            };
            &&& server_generation(profile, server) is Some <==> told
            &&& told ==> server_generation(profile, server) == Some((file->Some_0->Text_0, token->Some_0->Text_0))
        }),
{
    assert(texts_json(seq!["mcp"@])->Array_0 =~= seq![JsonView::Text("mcp"@)]);
}

/// The relay takes for its own only a server that starts the relay at this very path.
pub proof fn only_a_server_of_this_relay_is_owned(
    profile: HermesProfile,
    root: Members,
    relay: Seq<char>,
    expected: Option<Seq<char>>,
)
    ensures
        owned_command(profile, root, relay, expected) is Some ==> {
            &&& lookup(root, "mcp_servers"@) is Some
            &&& lookup(root, "mcp_servers"@)->Some_0.get("nemo-relay"@) is Some
            &&& lookup(root, "mcp_servers"@)->Some_0.get("nemo-relay"@)->Some_0.get("command"@) == Some(
                JsonView::Text(relay),
            )
        },
{
}

/// A server that starts the relay, with a generation and no other one expected, is owned by the hook command of that
/// generation.
pub proof fn a_server_with_a_generation_is_owned(
    profile: HermesProfile,
    root: Members,
    relay: Seq<char>,
    server: JsonView,
    generation: Seq<char>,
    token: Seq<char>,
)
    requires
        lookup(root, "mcp_servers"@) is Some,
        lookup(root, "mcp_servers"@)->Some_0.get("nemo-relay"@) == Some(server),
        server.get("command"@) == Some(JsonView::Text(relay)),
        server_generation(profile, server) == Some((generation, token)),
    ensures
        owned_command(profile, root, relay, None) == Some(
            persistent_command(profile.platform, relay, generation, token),
        ),
{
}

/// The old hook commands of an event are those of its groups that are hook commands of this relay in the old form, in
/// their order.
pub proof fn old_commands_are_those_of_the_groups(
    platform: Platform,
    groups: Seq<JsonView>,
    relay: Seq<char>,
    command: Seq<char>,
    n: int,
)
    requires
        0 <= n <= groups.len(),
    ensures
        legacy_commands(platform, groups, relay, n).contains(command) <==> legacy_command(platform, command, relay)
            && exists|i: int| 0 <= i < n && (#[trigger] groups[i]).get("command"@) == Some(JsonView::Text(command)),
        legacy_commands(platform, groups, relay, n).len() <= n,
    decreases n,
{
    if n > 0 {
        old_commands_are_those_of_the_groups(platform, groups, relay, command, n - 1);
        let before = legacy_commands(platform, groups, relay, n - 1);
        let now = legacy_commands(platform, groups, relay, n);
        if before.contains(command) {
            let i = choose|i: int| 0 <= i < before.len() && before[i] == command;
            assert(now[i] == command);
        }
        if groups[n - 1].get("command"@) == Some(JsonView::Text(command)) && legacy_command(platform, command,
            relay) {
            assert(now[now.len() - 1] == command);
        }
        if now.contains(command) && !before.contains(command) {
            let i = choose|i: int| 0 <= i < now.len() && now[i] == command;
            if i < before.len() {
                assert(before[i] == command);
            }
            assert(groups[n - 1].get("command"@) == Some(JsonView::Text(command)));
        }
    }
}

/// A configuration is read as the object that its text holds; one that is missing or blank is an empty one, and any
/// other text is refused.
pub proof fn a_configuration_is_an_object(raw: Option<Seq<char>>, description: Seq<char>)
    ensures
        (raw is None || blank(raw->Some_0)) ==> yaml_object(raw, description) == Ok::<Members, Seq<char>>(
            Members::empty(),
        ),
        raw matches Some(text) ==> !blank(text) ==> match yaml_document(text) {
            Ok(JsonView::Object(members)) => yaml_object(raw, description) == Ok::<Members, Seq<char>>(members),
            Ok(_) => yaml_object(raw, description) == Err::<Members, Seq<char>>(
                description + " must contain an object"@,
            ),
            Err(error) => yaml_object(raw, description) == Err::<Members, Seq<char>>(
                "invalid "@ + description + ": "@ + error,
            ),
        },
{
    reveal_strlit(" must contain an object");
    reveal_strlit(" must contain ");
    reveal_strlit("an object");
    assert(" must contain "@ + "an object"@ =~= " must contain an object"@);
    assert(description + " must contain "@ + "an object"@ =~= description + (" must contain "@ + "an object"@));
}

proof fn kept_hooks_have_groups(hooks: Members, owned: Option<Seq<char>>, n: int)
    requires
        0 <= n <= hooks.len(),
        kept_hooks(hooks, owned, n) is Ok,
    ensures
        all_groups(kept_hooks(hooks, owned, n)->Ok_0),
        forall|i: int| 0 <= i < n ==> (#[trigger] hooks[i]).1 is Array,
    decreases n,
{
    if n > 0 {
        kept_hooks_have_groups(hooks, owned, n - 1);
    }
}

/// Hooks are taken out exactly where every event has its groups in an array.
pub proof fn hooks_need_groups_in_arrays(hooks: Members, owned: Option<Seq<char>>)
    ensures
        kept_hooks(hooks, owned, hooks.len() as int) is Ok <==> forall|i: int|
            0 <= i < hooks.len() ==> (#[trigger] hooks[i]).1 is Array,
{
    if kept_hooks(hooks, owned, hooks.len() as int) is Ok {
        kept_hooks_have_groups(hooks, owned, hooks.len() as int);
    } else if all_groups(hooks) {
        groups_are_kept(hooks, owned, hooks.len() as int);
    }
}

/// Every configuration whose hooks are groups in arrays, whose servers are an object and whose model is a name or a
/// mapping, as far as it has them, can be run with.
pub proof fn a_well_formed_configuration_can_be_run_with(
    profile: HermesProfile,
    root: Members,
    relay: Seq<char>,
    gateway_url: Seq<char>,
)
    requires
        sorted(root),
        sorted(hooks_of(root)),
        texts(profile.hook_events@).no_duplicates(),
        lookup(root, "hooks"@) is None || lookup(root, "hooks"@)->Some_0 is Object,
        forall|i: int| 0 <= i < hooks_of(root).len() ==> (#[trigger] hooks_of(root)[i]).1 is Array,
        lookup(root, "mcp_servers"@) is None || lookup(root, "mcp_servers"@)->Some_0 is Object,
        lookup(root, "model"@) matches Some(model) ==> model is Null || model is Object || model is Text,
    ensures
        transparent(profile, root, relay, gateway_url) is Ok,
{
    model_keys_differ();
    let owned = owned_command(profile, root, relay, None);
    let events = texts(profile.hook_events@);
    let command = crate::hermes::hooks::transparent_command(profile.platform, relay, gateway_url);
    let hooks = hooks_of(root);
    groups_are_kept(hooks, owned, hooks.len() as int);
    kept_hooks_have_groups(hooks, owned, hooks.len() as int);
    kept_hooks_are_sorted(hooks, owned, hooks.len() as int);
    let kept = kept_hooks(hooks, owned, hooks.len() as int)->Ok_0;
    let bare = stripped(root, owned)->Ok_0;
    stripping_keeps_other_keys(root, owned, "mcp_servers"@);
    stripping_keeps_other_keys(root, owned, "model"@);
    lookup_removed(root, "hooks"@, "hooks"@);
    replaced(root, "hooks"@, JsonView::Object(kept), "hooks"@);
    let left = if lookup(bare, "hooks"@) is None {
        Members::empty()
    } else {
        kept
    };
    removing_the_server_keeps_other_keys(bare, owned is Some, "hooks"@);
    removing_the_server_keeps_other_keys(bare, owned is Some, "model"@);
    let alone = without_server(bare, owned is Some)->Ok_0;
    assert(sorted(left));
    adding_succeeds(left, events, command, events.len() as int);
    hooking_keeps_other_keys(alone, events, command, "model"@);
}

/// A server under the relay's name that is not the relay's is never replaced: the installation is refused.
pub proof fn a_foreign_server_is_not_replaced(
    profile: HermesProfile,
    root: Members,
    relay: Seq<char>,
    command: Seq<char>,
    generation: Seq<char>,
    token: Seq<char>,
    environment: Seq<Seq<char>>,
)
    requires
        lookup(root, "mcp_servers"@) is Some,
        lookup(root, "mcp_servers"@)->Some_0.get("nemo-relay"@) is Some,
        owned_command(profile, root, relay, Some(generation)) is None,
    ensures
        installed(profile, root, relay, command, generation, token, environment) == Err::<Members, Seq<char>>(
            "Hermes MCP server `nemo-relay` already exists and is not managed by Relay; rename or remove it before installing the Relay integration"@,
        ),
{
}

/// An installation puts the relay's server into the configuration, as it is expected to stand there.
pub proof fn an_installation_has_the_relays_server(
    profile: HermesProfile,
    root: Members,
    relay: Seq<char>,
    command: Seq<char>,
    generation: Seq<char>,
    token: Seq<char>,
    environment: Seq<Seq<char>>,
)
    requires
        sorted(root),
        sorted(servers_of(root)),
        installed(profile, root, relay, command, generation, token, environment) is Ok,
    ensures
        ({
            let r = installed(profile, root, relay, command, generation, token, environment)->Ok_0;
            &&& lookup(r, "mcp_servers"@) is Some
            &&& lookup(r, "mcp_servers"@)->Some_0.get("nemo-relay"@) == Some(
                expected_server(profile, relay, generation, token, environment),
            )
        }),
{
    model_keys_differ();
    let owned = owned_command(profile, root, relay, Some(generation));
    let events = texts(profile.hook_events@);
    stripping_keeps_other_keys(root, owned, "mcp_servers"@);
    let bare = stripped(root, owned)->Ok_0;
    hooking_keeps_other_keys(bare, events, command, "mcp_servers"@);
    let with_hooks = hooked(bare, events, command)->Ok_0;
    let server = expected_server(profile, relay, generation, token, environment);
    let servers = servers_of(root);
    let name = crate::hermes::config::MCP_SERVER_NAME@;
    replaced(with_hooks, "mcp_servers"@, JsonView::Object(inserted(servers, name, server)), "mcp_servers"@);
    lookup_inserted(servers, name, server, name);
}

/// An old installation is told by one hook that every event has exactly once, the same on all of them.
pub proof fn an_old_installation_has_one_hook_on_every_event(
    platform: Platform,
    hooks: Members,
    events: Seq<Seq<char>>,
    relay: Seq<char>,
    n: int,
)
    requires
        0 <= n <= events.len(),
    ensures
        common_legacy(platform, hooks, events, relay, n) matches Some(Some(command)) ==> n > 0 && forall|i: int|
            #![trigger events[i]]
            0 <= i < n ==> legacy_commands(
                platform,
                event_groups(hooks, events[i]),
                relay,
                event_groups(hooks, events[i]).len() as int,
            ) == seq![command],
        common_legacy(platform, hooks, events, relay, n) == Some(None::<Seq<char>>) ==> n == 0,
        common_legacy(platform, hooks, events, relay, n) is None ==> !(exists|command: Seq<char>|
            #![trigger seq![command]]
            forall|i: int|
                #![trigger events[i]]
                0 <= i < n ==> legacy_commands(
                    platform,
                    event_groups(hooks, events[i]),
                    relay,
                    event_groups(hooks, events[i]).len() as int,
                ) == seq![command]),
    decreases n,
{
    if n > 0 {
        an_old_installation_has_one_hook_on_every_event(platform, hooks, events, relay, n - 1);
        let groups = event_groups(hooks, events[n - 1]);
        let commands = legacy_commands(platform, groups, relay, groups.len() as int);
        if commands.len() == 1 {
            assert(commands =~= seq![commands[0]]);
        }
        if common_legacy(platform, hooks, events, relay, n) is None {
            if exists|command: Seq<char>|
                #![trigger seq![command]]
                forall|i: int|
                    #![trigger events[i]]
                    0 <= i < n ==> legacy_commands(
                        platform,
                        event_groups(hooks, events[i]),
                        relay,
                        event_groups(hooks, events[i]).len() as int,
                    ) == seq![command] {
                let command = choose|command: Seq<char>|
                    #![trigger seq![command]]
                    forall|i: int|
                        #![trigger events[i]]
                        0 <= i < n ==> legacy_commands(
                            platform,
                            event_groups(hooks, events[i]),
                            relay,
                            event_groups(hooks, events[i]).len() as int,
                        ) == seq![command];
                assert(commands == seq![command]);
                assert(commands[0] == command);
                if n > 1 {
                    let before = common_legacy(platform, hooks, events, relay, n - 1);
                    if let Some(Some(common)) = before {
                        let front = event_groups(hooks, events[0]);
                        assert(legacy_commands(platform, front, relay, front.len() as int) == seq![common]);
                        assert(legacy_commands(platform, front, relay, front.len() as int) == seq![command]);
                        assert(seq![common][0] == seq![command][0]);
                    }
                }
            }
        }
    }
}

/// The groups of an event are what stands under its name, where that is an array.
pub proof fn an_event_has_its_groups(hooks: Members, event: Seq<char>)
    ensures
        lookup(hooks, event) matches Some(JsonView::Array(groups)) ==> event_groups(hooks, event) == groups,
        !(lookup(hooks, event) is Some && lookup(hooks, event)->Some_0 is Array) ==> event_groups(hooks, event).len()
            == 0,
{
}

/// An old installation is told by a server that starts the relay in the old way, and by its hooks.
pub proof fn an_old_installation_has_its_server(profile: HermesProfile, root: Members, relay: Seq<char>)
    ensures
        legacy_owned(profile, root, relay) is Some ==> {
            let server = lookup(root, "mcp_servers"@)->Some_0.get("nemo-relay"@);
            &&& lookup(root, "mcp_servers"@) is Some
            &&& server is Some
            &&& server->Some_0.get("args"@) == Some(
                JsonView::Array(seq![JsonView::Text("mcp"@), JsonView::Text("--agent"@), JsonView::Text("hermes"@)]),
            )
            &&& lookup(root, "hooks"@) is Some
            &&& lookup(root, "hooks"@)->Some_0 is Object
            &&& common_legacy(
                profile.platform,
                lookup(root, "hooks"@)->Some_0->Object_0,
                texts(profile.hook_events@),
                relay,
                texts(profile.hook_events@).len() as int,
            ) == Some(legacy_owned(profile, root, relay))
        },
{
    assert(texts_json(seq!["mcp"@, "--agent"@, "hermes"@])->Array_0 =~= seq![
        JsonView::Text("mcp"@),
        JsonView::Text("--agent"@),
        JsonView::Text("hermes"@),
    ]);
}

} // verus!
