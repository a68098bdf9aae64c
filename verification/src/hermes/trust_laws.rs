//! What approvals, removals and findings come to.

use crate::error::{CliError, Failure};
use crate::hermes::config::{
    expected_server, kept_groups, kept_hooks, owned_command, printed_yaml, stripped, yaml_object, HermesProfile,
};
use crate::hermes::config_laws::only_groups_with_the_command_go;
use crate::hermes::hooks::{persistent_arguments, persistent_command, persistent_looking};
use crate::hermes::integration::{
    allowlist_managed, allowlist_owned, approves_relay, config_managed, configured_command, configured_executable,
    decoded_arguments, diagnosis, fence_error, file_text, managed_state, told, uninstall_error, unset_names, FileText,
    Installation,
};
use crate::hermes::laws::{hooks_of, kept_hooks_by_event, replaced, servers_of};
use crate::hermes::paths::{same_place, PersistentPaths};
use crate::hermes::plan::{disapproved, install_error, left_allowlist, left_config, planned, uninstalled,
    ApprovalTime, InstallPlan};
use crate::hermes::trust::{
    approval, approval_count, approvals_of, command_count, hooks_error, json_text_object, missing_approval,
        missing_hook,
    printed_json, stray_approval, stray_hook, trust_error, trusted,
};
use crate::json::{an_object_holds_no_more, an_object_tells_its_pairs, json_document, json_pretty_text, keys_differ,
    opt_text_json, yaml_text, JsonView, Members};
use crate::ordered::{lookup, lookup_removed, removed, removed_sorted, sorted};
use crate::text::{blank, texts};
use vstd::prelude::*;
use vstd::string::*;

verus! {

/// An approval tells the event and the command that it is for, when it was given and, where that is known, when the
/// script was changed last; it tells nothing else.
pub proof fn an_approval_tells_what_it_approves(
    event: Seq<char>,
    command: Seq<char>,
    approved_at: Seq<char>,
    script_mtime: Option<Seq<char>>,
    key: Seq<char>,
)
    ensures
        ({
            let given = approval(event, command, approved_at, script_mtime);
            &&& given.get("event"@) == Some(JsonView::Text(event))
            &&& given.get("command"@) == Some(JsonView::Text(command))
            &&& given.get("approved_at"@) == Some(JsonView::Text(approved_at))
            &&& given.get("script_mtime_at_approval"@) == Some(
                match script_mtime {
                    Some(time) => JsonView::Text(time),
                    None => JsonView::Null,
                },
            )
            &&& key != "event"@ && key != "command"@ && key != "approved_at"@ && key != "script_mtime_at_approval"@
                ==> given.get(key) is None
        }),
{
    reveal_strlit("event");
    reveal_strlit("command");
    reveal_strlit("approved_at");
    reveal_strlit("script_mtime_at_approval");
    assert("event"@.len() == 5 && "command"@.len() == 7 && "approved_at"@.len() == 11
        && "script_mtime_at_approval"@.len() == 24);
    let pairs = seq![
        ("event"@, JsonView::Text(event)),
        ("command"@, JsonView::Text(command)),
        ("approved_at"@, JsonView::Text(approved_at)),
        ("script_mtime_at_approval"@, opt_text_json(script_mtime)),
    ];
    assert(keys_differ(pairs));
    an_object_tells_its_pairs(pairs);
    assert(pairs[0].0 == "event"@ && pairs[1].0 == "command"@ && pairs[2].0 == "approved_at"@ && pairs[3].0
        == "script_mtime_at_approval"@);
    if key != "event"@ && key != "command"@ && key != "approved_at"@ && key != "script_mtime_at_approval"@ {
        an_object_holds_no_more(pairs, key);
    }
}

/// The approvals of an allowlist.
pub open spec fn approvals_in(root: Members) -> Seq<JsonView> {
    match lookup(root, "approvals"@) {
        Some(JsonView::Array(approvals)) => approvals,
        _ => Seq::empty(),
    }
}

/// The hooks of an installation are approved behind all other approvals, one on each event. Of the approvals before
/// exactly those go that are for the command before; whatever else the allowlist holds stays.
pub proof fn approving_adds_one_approval_for_each_event(
    root: Members,
    events: Seq<Seq<char>>,
    previous: Option<Seq<char>>,
    command: Seq<char>,
    approved_at: Seq<char>,
    script_mtime: Option<Seq<char>>,
    key: Seq<char>,
)
    requires
        sorted(root),
    ensures
        ({
            let r = trusted(root, events, previous, command, approved_at, script_mtime);
            &&& r is Ok <==> lookup(root, "approvals"@) is None || lookup(root, "approvals"@)->Some_0 is Array
            &&& r matches Ok(after) ==> {
                let kept = approvals_in(root).filter(
                    |entry: JsonView|
                        !(previous is Some && entry.get("command"@) == Some(JsonView::Text(previous->Some_0))),
                );
                let all = approvals_in(after);
                &&& key != "approvals"@ ==> lookup(after, key) == lookup(root, key)
                &&& lookup(after, "approvals"@) == Some(JsonView::Array(all))
                &&& all.len() == kept.len() + events.len()
                &&& all.take(kept.len() as int) == kept
                &&& forall|i: int|
                    #![trigger events[i]]
                    0 <= i < events.len() ==> {
                        let given = all[kept.len() + i];
                        &&& given.get("event"@) == Some(JsonView::Text(events[i]))
                        &&& given.get("command"@) == Some(JsonView::Text(command))
                        &&& given.get("approved_at"@) == Some(JsonView::Text(approved_at))
                        &&& given.get("script_mtime_at_approval"@) == Some(
                            match script_mtime {
                                Some(time) => JsonView::Text(time),
                                None => JsonView::Null,
                            },
                        )
                    }
            }
        }),
{
    let own = approvals_in(root);
    only_groups_with_the_command_go(own, previous);
    let kept = kept_groups(own, previous, own.len() as int);
    let all = kept + approvals_of(events, command, approved_at, script_mtime);
    assert(all.take(kept.len() as int) =~= kept);
    replaced(root, "approvals"@, JsonView::Array(all), key);
    replaced(root, "approvals"@, JsonView::Array(all), "approvals"@);
    assert forall|i: int| #![trigger events[i]] 0 <= i < events.len() implies all[kept.len() + i] == approval(
        events[i],
        command,
        approved_at,
        script_mtime,
    ) by {}
    assert forall|i: int| #![trigger events[i]] 0 <= i < events.len() implies ({
        let given = all[kept.len() + i];
        &&& given.get("event"@) == Some(JsonView::Text(events[i]))
        &&& given.get("command"@) == Some(JsonView::Text(command))
        &&& given.get("approved_at"@) == Some(JsonView::Text(approved_at))
        &&& given.get("script_mtime_at_approval"@) == Some(
            match script_mtime {
                Some(time) => JsonView::Text(time),
                None => JsonView::Null,
            },
        )
    }) by {
        an_approval_tells_what_it_approves(events[i], command, approved_at, script_mtime, Seq::empty());
    }
}

/// Of the approvals of an allowlist a removal takes exactly those of its command. The list goes where it is then empty,
/// and whatever else the allowlist holds stays.
pub proof fn disapproving_takes_only_the_commands_approvals(root: Members, command: Option<Seq<char>>, key: Seq<char>)
    requires
        sorted(root),
    ensures
        ({
            let r = disapproved(root, command);
            &&& r is Ok <==> lookup(root, "approvals"@) is None || lookup(root, "approvals"@)->Some_0 is Array
            &&& r matches Ok(after) ==> {
                let kept = approvals_in(root).filter(
                    |entry: JsonView|
                        !(command is Some && entry.get("command"@) == Some(JsonView::Text(command->Some_0))),
                );
                &&& key != "approvals"@ ==> lookup(after, key) == lookup(root, key)
                &&& approvals_in(after) == kept
                &&& lookup(after, "approvals"@) is Some <==> kept.len() > 0
            }
        }),
{
    let own = approvals_in(root);
    only_groups_with_the_command_go(own, command);
    let kept = kept_groups(own, command, own.len() as int);
    lookup_removed(root, "approvals"@, key);
    lookup_removed(root, "approvals"@, "approvals"@);
    replaced(root, "approvals"@, JsonView::Array(kept), key);
    replaced(root, "approvals"@, JsonView::Array(kept), "approvals"@);
    if kept.len() == 0 {
        assert(kept =~= Seq::empty());
    }
    if lookup(root, "approvals"@) is None {
        reveal(Seq::filter);
        assert(kept =~= Seq::empty());
    }
}

proof fn commands_are_counted(groups: Seq<JsonView>, command: Seq<char>, n: int)
    requires
        0 <= n <= groups.len(),
    ensures
        command_count(groups, command, n) == groups.take(n).filter(
            |group: JsonView| group.get("command"@) == Some(JsonView::Text(command)),
        ).len(),
    decreases n,
{
    reveal(Seq::filter);
    if n > 0 {
        commands_are_counted(groups, command, n - 1);
        assert(groups.take(n).drop_last() =~= groups.take(n - 1));
        assert(groups.take(n).last() == groups[n - 1]);
    } else {
        assert(groups.take(0) =~= Seq::empty());
    }
}

/// How often an event has the command is how many of its groups have it.
pub proof fn a_command_counts_once_for_each_group(groups: Seq<JsonView>, command: Seq<char>)
    ensures
        command_count(groups, command, groups.len() as int) == groups.filter(
            |group: JsonView| group.get("command"@) == Some(JsonView::Text(command)),
        ).len(),
{
    commands_are_counted(groups, command, groups.len() as int);
    assert(groups.take(groups.len() as int) =~= groups);
}

proof fn approvals_are_counted(entries: Seq<JsonView>, event: Seq<char>, command: Seq<char>, n: int)
    requires
        0 <= n <= entries.len(),
    ensures
        approval_count(entries, event, command, n) == entries.take(n).filter(
            |entry: JsonView|
                entry.get("event"@) == Some(JsonView::Text(event)) && entry.get("command"@) == Some(
                    JsonView::Text(command),
                ),
        ).len(),
    decreases n,
{
    reveal(Seq::filter);
    if n > 0 {
        approvals_are_counted(entries, event, command, n - 1);
        assert(entries.take(n).drop_last() =~= entries.take(n - 1));
        assert(entries.take(n).last() == entries[n - 1]);
    } else {
        assert(entries.take(0) =~= Seq::empty());
    }
}

proof fn no_approval_misses(entries: Seq<JsonView>, events: Seq<Seq<char>>, command: Seq<char>, from: int)
    requires
        0 <= from,
    ensures
        missing_approval(entries, events, command, from) is None <==> forall|i: int|
            #![trigger events[i]]
            from <= i < events.len() ==> entries.filter(
                |entry: JsonView|
                    entry.get("event"@) == Some(JsonView::Text(events[i])) && entry.get("command"@) == Some(
                        JsonView::Text(command),
                    ),
            ).len() == 1,
    decreases events.len() - from,
{
    if from < events.len() {
        approvals_are_counted(entries, events[from], command, entries.len() as int);
        assert(entries.take(entries.len() as int) =~= entries);
        no_approval_misses(entries, events, command, from + 1);
    }
}

proof fn no_approval_strays(entries: Seq<JsonView>, events: Seq<Seq<char>>, command: Seq<char>, from: int)
    requires
        0 <= from,
    ensures
        stray_approval(entries, events, command, from) is None <==> forall|i: int|
            #![trigger entries[i]]
            from <= i < entries.len() && entries[i].get("command"@) == Some(JsonView::Text(command)) ==> (
            entries[i].get("event"@) is Some && entries[i].get("event"@)->Some_0 is Text && events.contains(
                entries[i].get("event"@)->Some_0->Text_0,
            )),
    decreases entries.len() - from,
{
    if from < entries.len() {
        no_approval_strays(entries, events, command, from + 1);
    }
}

/// The hooks of a command are trusted exactly where the allowlist approves it once on every event, and nowhere else.
pub proof fn hooks_are_trusted_where_each_is_approved_once(root: Members, events: Seq<Seq<char>>, command: Seq<char>)
    ensures
        trust_error(root, events, command) is None <==> {
            let entries = lookup(root, "approvals"@)->Some_0->Array_0;
            &&& lookup(root, "approvals"@) is Some
            &&& lookup(root, "approvals"@)->Some_0 is Array
            &&& forall|i: int|
                #![trigger events[i]]
                0 <= i < events.len() ==> entries.filter(
                    |entry: JsonView|
                        entry.get("event"@) == Some(JsonView::Text(events[i])) && entry.get("command"@) == Some(
                            JsonView::Text(command),
                        ),
                ).len() == 1
            &&& forall|i: int|
                #![trigger entries[i]]
                0 <= i < entries.len() && entries[i].get("command"@) == Some(JsonView::Text(command)) ==> (
                entries[i].get("event"@) is Some && entries[i].get("event"@)->Some_0 is Text && events.contains(
                    entries[i].get("event"@)->Some_0->Text_0,
                ))
        },
{
    if let Some(JsonView::Array(entries)) = lookup(root, "approvals"@) {
        no_approval_misses(entries, events, command, 0);
        no_approval_strays(entries, events, command, 0);
    }
}

proof fn no_hook_misses(hooks: Option<JsonView>, events: Seq<Seq<char>>, command: Seq<char>, from: int)
    requires
        0 <= from,
    ensures
        missing_hook(hooks, events, command, from) is None <==> forall|i: int|
            #![trigger events[i]]
            from <= i < events.len() ==> {
                &&& hooks is Some
                &&& hooks->Some_0.get(events[i]) is Some
                &&& hooks->Some_0.get(events[i])->Some_0 is Array
                &&& hooks->Some_0.get(events[i])->Some_0->Array_0.filter(
                    |group: JsonView| group.get("command"@) == Some(JsonView::Text(command)),
                ).len() == 1
            },
    decreases events.len() - from,
{
    if from < events.len() {
        if let Some(all) = hooks {
            if let Some(JsonView::Array(groups)) = all.get(events[from]) {
                a_command_counts_once_for_each_group(groups, command);
            }
        }
        no_hook_misses(hooks, events, command, from + 1);
    }
}

proof fn no_hook_strays(hooks: Members, events: Seq<Seq<char>>, command: Seq<char>, from: int)
    requires
        0 <= from,
    ensures
        stray_hook(hooks, events, command, from) is None <==> forall|i: int|
            #![trigger hooks[i]]
            from <= i < hooks.len() ==> hooks[i].1 is Array && (events.contains(hooks[i].0)
                || hooks[i].1->Array_0.filter(
                |group: JsonView| group.get("command"@) == Some(JsonView::Text(command)),
            ).len() == 0),
    decreases hooks.len() - from,
{
    if from < hooks.len() {
        if let JsonView::Array(groups) = hooks[from].1 {
            a_command_counts_once_for_each_group(groups, command);
        }
        no_hook_strays(hooks, events, command, from + 1);
    }
}

/// The hooks of a command are right exactly where every event has one group with it, and no other event has any.
pub proof fn hooks_are_right_where_each_event_has_one(root: Members, events: Seq<Seq<char>>, command: Seq<char>)
    requires
        events.len() > 0,
    ensures
        hooks_error(root, events, command) is None <==> {
            let hooks = lookup(root, "hooks"@)->Some_0->Object_0;
            &&& lookup(root, "hooks"@) is Some
            &&& lookup(root, "hooks"@)->Some_0 is Object
            &&& forall|i: int|
                #![trigger events[i]]
                0 <= i < events.len() ==> {
                    &&& lookup(hooks, events[i]) is Some
                    &&& lookup(hooks, events[i])->Some_0 is Array
                    &&& lookup(hooks, events[i])->Some_0->Array_0.filter(
                        |group: JsonView| group.get("command"@) == Some(JsonView::Text(command)),
                    ).len() == 1
                }
            &&& forall|i: int|
                #![trigger hooks[i]]
                0 <= i < hooks.len() ==> hooks[i].1 is Array && (events.contains(hooks[i].0)
                    || hooks[i].1->Array_0.filter(
                    |group: JsonView| group.get("command"@) == Some(JsonView::Text(command)),
                ).len() == 0)
        },
{
    no_hook_misses(lookup(root, "hooks"@), events, command, 0);
    if let Some(JsonView::Object(hooks)) = lookup(root, "hooks"@) {
        no_hook_strays(hooks, events, command, 0);
    } else {
        assert(events[0] == events[0]);
    }
}

/// An allowlist is read as the object that its text holds; one that is missing or blank is an empty one, and any other
/// text is refused.
pub proof fn an_allowlist_is_an_object(raw: Option<Seq<char>>, description: Seq<char>)
    ensures
        (raw is None || blank(raw->Some_0)) ==> json_text_object(raw, description) == Ok::<Members, Seq<char>>(
            Members::empty(),
        ),
        raw matches Some(text) ==> !blank(text) ==> match json_document(text) {
            Ok(JsonView::Object(members)) => json_text_object(raw, description) == Ok::<Members, Seq<char>>(members),
            Ok(_) => json_text_object(raw, description) is Err,
            Err(_) => json_text_object(raw, description) is Err,
        },
{
}

/// A removal leaves every key of a configuration but the hooks and the servers as it is. Of the servers only the relay's
/// own goes, and of the groups of each event exactly those go that have the command of the installation. Where no
/// installation is found, nothing goes.
pub proof fn a_removal_takes_only_the_installation(
    profile: HermesProfile,
    root: Members,
    generation: Seq<char>,
    key: Seq<char>,
)
    requires
        sorted(root),
        sorted(hooks_of(root)),
        sorted(servers_of(root)),
        uninstalled(profile, root, generation) is Ok,
    ensures
        ({
            let r = uninstalled(profile, root, generation)->Ok_0;
            let owned = configured_command(profile, root, Some(generation));
            &&& key != "hooks"@ && key != "mcp_servers"@ ==> lookup(r, key) == lookup(root, key)
            &&& lookup(servers_of(r), key) == (if key == "nemo-relay"@ && owned is Some {
                None
            } else {
                lookup(servers_of(root), key)
            })
            &&& lookup(hooks_of(root), key) matches Some(JsonView::Array(groups)) ==> {
                let kept = groups.filter(
                    |group: JsonView|
                        !(owned is Some && group.get("command"@) == Some(JsonView::Text(owned->Some_0))),
                );
                &&& kept.len() > 0 ==> lookup(hooks_of(r), key) == Some(JsonView::Array(kept))
                &&& kept.len() == 0 ==> lookup(hooks_of(r), key) is None
            }
            &&& lookup(hooks_of(root), key) is None ==> lookup(hooks_of(r), key) is None
        }),
{
    reveal_strlit("hooks");
    reveal_strlit("mcp_servers");
    assert("hooks"@.len() != "mcp_servers"@.len());
    let owned = configured_command(profile, root, Some(generation));
    let bare = stripped(root, owned)->Ok_0;
    removed_sorted(root, "hooks"@);
    lookup_removed(root, "hooks"@, key);
    lookup_removed(root, "hooks"@, "hooks"@);
    lookup_removed(root, "hooks"@, "mcp_servers"@);
    let hooks = hooks_of(root);
    let kept = kept_hooks(hooks, owned, hooks.len() as int);
    if let Some(JsonView::Object(_)) = lookup(root, "hooks"@) {
        kept_hooks_by_event(hooks, owned, key);
        replaced(root, "hooks"@, JsonView::Object(kept->Ok_0), key);
        replaced(root, "hooks"@, JsonView::Object(kept->Ok_0), "hooks"@);
        replaced(root, "hooks"@, JsonView::Object(kept->Ok_0), "mcp_servers"@);
        if kept->Ok_0.len() == 0 {
            assert(kept->Ok_0 =~= Members::empty());
        }
    }
    if let Some(JsonView::Array(groups)) = lookup(hooks, key) {
        only_groups_with_the_command_go(groups, owned);
    }
    assert(sorted(bare));
    assert(hooks_of(bare) == (if lookup(root, "hooks"@) is Some {
        kept->Ok_0
    } else {
        Members::empty()
    }));
    removed_sorted(bare, "mcp_servers"@);
    lookup_removed(bare, "mcp_servers"@, key);
    lookup_removed(bare, "mcp_servers"@, "hooks"@);
    lookup_removed(bare, "mcp_servers"@, "mcp_servers"@);
    let servers = servers_of(root);
    assert(servers_of(bare) == servers);
    let left = if owned is Some {
        removed(servers, crate::hermes::config::MCP_SERVER_NAME@)
    } else {
        servers
    };
    lookup_removed(servers, crate::hermes::config::MCP_SERVER_NAME@, key);
    if let Some(JsonView::Object(_)) = lookup(bare, "mcp_servers"@) {
        replaced(bare, "mcp_servers"@, JsonView::Object(left), key);
        replaced(bare, "mcp_servers"@, JsonView::Object(left), "hooks"@);
        replaced(bare, "mcp_servers"@, JsonView::Object(left), "mcp_servers"@);
        if left.len() == 0 {
            assert(left =~= Members::empty());
        }
    }
}

/// A file that a removal leaves nothing in is deleted, and one that is not there is not written.
pub proof fn a_removal_leaves_no_empty_file(
    profile: HermesProfile,
    config: Option<Seq<char>>,
    allowlist: Option<Seq<char>>,
    generation: Seq<char>,
    command: Option<Seq<char>>,
)
    ensures
        config is None ==> left_config(profile, config, generation) == Ok::<Option<Seq<char>>, Seq<char>>(None),
        allowlist is None ==> left_allowlist(allowlist, command) == Ok::<Option<Seq<char>>, Seq<char>>(None),
        config matches Some(raw) ==> (yaml_object(Some(raw), "Hermes config"@) matches Ok(root) ==> (uninstalled(
            profile,
            root,
            generation,
        ) matches Ok(left) ==> (left_config(profile, config, generation) == Ok::<Option<Seq<char>>, Seq<char>>(None)
            <==> left.len() == 0))),
        allowlist matches Some(raw) ==> (json_text_object(Some(raw), "Hermes shell-hook allowlist"@) matches Ok(root)
            ==> (disapproved(root, command) matches Ok(left) ==> (left_allowlist(allowlist, command) == Ok::<
            Option<Seq<char>>,
            Seq<char>,
        >(None) <==> left.len() == 0))),
{
}

/// The plan of an installation names its generation by the token, writes the token as a line to the file of the
/// generation, and hooks the command that carries both.
pub proof fn a_plan_carries_its_token(
    r: Result<InstallPlan, crate::error::CliError>,
    profile: HermesProfile,
    generation: Seq<char>,
    relay: Seq<char>,
    environment: Seq<Seq<char>>,
    config: Option<Seq<char>>,
    allowlist: Option<Seq<char>>,
    token: Seq<char>,
    time: ApprovalTime,
)
    requires
        planned(r, profile, generation, relay, environment, config, allowlist, token, time),
        r is Ok,
    ensures
        r->Ok_0.token@ == token,
        r->Ok_0.generation@ == token + "\n"@,
        r->Ok_0.command@ == persistent_command(profile.platform, relay, generation, token),
{
}

/// An installation is right after it was written exactly where the relay's server stands in the configuration as it was
/// to be written, the hooks and approvals are right, and the token in the file of the generation is the one written.
pub proof fn an_installation_is_right_where_all_of_it_is(
    profile: HermesProfile,
    paths: PersistentPaths,
    relay: Seq<char>,
    command: Seq<char>,
    environment: Seq<Seq<char>>,
    token: Seq<char>,
    config: Result<String, String>,
    allowlist: Result<String, String>,
    visible_token: Result<String, String>,
)
    ensures
        install_error(profile, paths, relay, command, environment, token, config, allowlist, visible_token) is None
            <==> {
            let root = yaml_object(Some(config->Ok_0@), "Hermes config"@);
            let approvals = json_text_object(Some(allowlist->Ok_0@), "Hermes shell-hook allowlist"@);
            &&& config is Ok
            &&& root is Ok
            &&& lookup(root->Ok_0, "mcp_servers"@) is Some
            &&& lookup(root->Ok_0, "mcp_servers"@)->Some_0.get("nemo-relay"@) == Some(
                expected_server(profile, relay, paths.generation@, token, environment),
            )
            &&& hooks_error(root->Ok_0, texts(profile.hook_events@), command) is None
            &&& allowlist is Ok
            &&& approvals is Ok
            &&& trust_error(approvals->Ok_0, texts(profile.hook_events@), command) is None
            &&& visible_token is Ok
            &&& visible_token->Ok_0@ == token
        },
{
}

/// A command is one of the relay's hooks where the arguments that are encoded in it are those of such a hook, or else,
/// where none are known to be, where it looks like one.
pub proof fn the_first_decoding_of_a_command_counts(decoded: Seq<(String, Vec<String>)>, command: Seq<char>,
    from: int)
    requires
        0 <= from,
    ensures
        match decoded_arguments(decoded, command, from) {
            Some(arguments) => exists|i: int|
                from <= i < decoded.len() && (#[trigger] decoded[i]).0@ == command && texts(decoded[i].1@)
                    == arguments
                    && forall|j: int| from <= j < i ==> (#[trigger] decoded[j]).0@ != command,
            None => forall|j: int| from <= j < decoded.len() ==> (#[trigger] decoded[j]).0@ != command,
        },
    decreases decoded.len() - from,
{
    if from < decoded.len() && decoded[from].0@ != command {
        the_first_decoding_of_a_command_counts(decoded, command, from + 1);
    }
}

/// An allowlist holds an approval of the relay exactly where some entry has the command, or, where no command is given,
/// one that is a hook of the relay.
pub proof fn an_allowlist_is_owned_where_an_entry_is(
    allowlist: Members,
    command: Option<Seq<char>>,
    decoded: Seq<(String, Vec<String>)>,
)
    ensures
        allowlist_owned(allowlist, command, decoded) <==> exists|i: int|
            #![trigger approvals_in(allowlist)[i]]
            0 <= i < approvals_in(allowlist).len() && {
                let own = approvals_in(allowlist)[i].get("command"@);
                &&& own is Some
                &&& own->Some_0 is Text
                &&& command is Some ==> own->Some_0->Text_0 == command->Some_0
                &&& command is None ==> (match decoded_arguments(decoded, own->Some_0->Text_0, 0) {
                    Some(arguments) => persistent_arguments(arguments),
                    None => persistent_looking(own->Some_0->Text_0),
                })
            },
{
    if let Some(JsonView::Array(entries)) = lookup(allowlist, "approvals"@) {
        assert(approvals_in(allowlist) == entries);
        if allowlist_owned(allowlist, command, decoded) {
            let i = choose|i: int| 0 <= i < entries.len() && #[trigger] approves_relay(entries[i], command, decoded);
            assert(approvals_in(allowlist)[i] == entries[i]);
            assert(entries[i].get("command"@) is Some);
        }
        assert forall|i: int|
            #![trigger approvals_in(allowlist)[i]]
            0 <= i < approvals_in(allowlist).len() && ({
                let own = approvals_in(allowlist)[i].get("command"@);
                &&& own is Some
                &&& own->Some_0 is Text
                &&& command is Some ==> own->Some_0->Text_0 == command->Some_0
                &&& command is None ==> (match decoded_arguments(decoded, own->Some_0->Text_0, 0) {
                    Some(arguments) => persistent_arguments(arguments),
                    None => persistent_looking(own->Some_0->Text_0),
                })
            }) implies allowlist_owned(allowlist, command, decoded) by {
            assert(approves_relay(entries[i], command, decoded));
        }
    }
}

/// Something of an installation is there exactly where its generation is, or its configuration, or an approval; what
/// cannot be read is told only where nothing before it settles the matter.
pub proof fn something_is_managed_where_any_part_is(
    profile: HermesProfile,
    generation_exists: bool,
    config: Result<Option<Seq<char>>, Seq<char>>,
    allowlist: Result<Option<Seq<char>>, Seq<char>>,
    decoded: Seq<(String, Vec<String>)>,
)
    ensures
        ({
            let state = managed_state(profile, generation_exists, config, allowlist, decoded);
            let in_config = config_managed(profile, config);
            let in_allowlist = allowlist_managed(allowlist, None, decoded);
            &&& generation_exists ==> state == Ok::<bool, Seq<char>>(true)
            &&& !generation_exists && in_config is Err ==> state == in_config
            &&& !generation_exists && in_config == Ok::<bool, Seq<char>>(true) ==> state == Ok::<bool,
                Seq<char>>(true)
            &&& !generation_exists && in_config == Ok::<bool, Seq<char>>(false) ==> state == in_allowlist
        }),
        config == Ok::<Option<Seq<char>>, Seq<char>>(None) ==> config_managed(profile, config) == Ok::<bool,
            Seq<char>>(
            false,
        ),
        allowlist == Ok::<Option<Seq<char>>, Seq<char>>(None) ==> allowlist_managed(allowlist, None, decoded) == Ok::<
            bool,
            Seq<char>,
        >(false),
        config matches Ok(Some(raw)) ==> (yaml_object(Some(raw), "Hermes config"@) matches Ok(root)
            ==> config_managed(
            profile,
            config,
        ) == Ok::<bool, Seq<char>>(configured_command(profile, root, None) is Some)),
{
}

/// A removal is complete exactly where no generation, no installation in the configuration and no approval of its
/// command is left.
pub proof fn a_removal_is_complete_where_nothing_is_left(
    profile: HermesProfile,
    generation_exists: bool,
    config: Result<Option<Seq<char>>, Seq<char>>,
    allowlist: Result<Option<Seq<char>>, Seq<char>>,
    owned: Option<Seq<char>>,
    decoded: Seq<(String, Vec<String>)>,
)
    ensures
        uninstall_error(profile, generation_exists, config, allowlist, owned, decoded) is None <==> {
            &&& !generation_exists
            &&& config_managed(profile, config) == Ok::<bool, Seq<char>>(false)
            &&& allowlist_managed(allowlist, owned, decoded) == Ok::<bool, Seq<char>>(false)
        },
{
}

/// A file that is missing holds nothing, and one that cannot be read is no missing one.
pub proof fn an_unreadable_file_is_not_missing(file: FileText, path: Seq<char>)
    ensures
        file is Missing ==> file_text(file, path) == Ok::<Option<Seq<char>>, Seq<char>>(None),
        file matches FileText::Text(text) ==> file_text(file, path) == Ok::<Option<Seq<char>>,
            Seq<char>>(Some(text@)),
        file matches FileText::Unreadable(error) ==> file_text(file, path) == Err::<Option<Seq<char>>, Seq<char>>(
            "failed to read "@ + path + ": "@ + error@,
        ),
{
}

/// The executable of an installation is the command of the relay's server, where that server is a managed one.
pub proof fn the_servers_command_is_the_executable(profile: HermesProfile, root: Members)
    ensures
        configured_executable(profile, root) matches Ok(relay) ==> {
            &&& lookup(root, "mcp_servers"@) is Some
            &&& lookup(root, "mcp_servers"@)->Some_0.get("nemo-relay"@) is Some
            &&& lookup(root, "mcp_servers"@)->Some_0.get("nemo-relay"@)->Some_0.get("command"@) == Some(
                JsonView::Text(relay),
            )
            &&& owned_command(profile, root, relay, None) is Some
        },
        configured_command(profile, root, None) is Some ==> configured_executable(profile, root) is Ok,
{
}

/// A server is fenced with a generation exactly where its environment names the shared gateway, the file of the
/// generation and its token.
pub proof fn a_server_is_fenced_by_its_environment(
    profile: HermesProfile,
    server: JsonView,
    generation: Seq<char>,
    token: Seq<char>,
)
    ensures
        fence_error(profile, server, generation, token) is None <==> {
            let env = server.get("env"@)->Some_0;
            let file = env.get(profile.generation_file_env@);
            &&& server.get("env"@) is Some
            &&& env is Object
            &&& env.get("NEMO_RELAY_GATEWAY_BIND"@) == Some(JsonView::Text("127.0.0.1:47632"@))
            &&& file is Some
            &&& file->Some_0 is Text
            &&& same_place(profile.platform.windows, file->Some_0->Text_0, generation)
            &&& env.get(profile.generation_token_env@) == Some(JsonView::Text(token))
        },
{
}

/// The variables that are told as missing are those, in their order, that the environment of the server has otherwise
/// than it should.
pub proof fn unset_variables_are_those_that_differ(env: Members, expected: Members, names: Seq<Seq<char>>, n: int)
    requires
        0 <= n <= names.len(),
    ensures
        unset_names(env, expected, names, n) == names.take(n).filter(
            |name: Seq<char>| lookup(env, name) != lookup(expected, name),
        ),
    decreases n,
{
    reveal(Seq::filter);
    if n > 0 {
        unset_variables_are_those_that_differ(env, expected, names, n - 1);
        assert(names.take(n).drop_last() =~= names.take(n - 1));
        assert(names.take(n).last() == names[n - 1]);
    } else {
        assert(names.take(0) =~= Seq::empty());
    }
}

/// An installation is found sound only where its relay can be executed, the token of its generation is known, its hooks
/// are right and approved, and its server is fenced with that generation.
pub proof fn only_a_whole_installation_is_sound(profile: HermesProfile, paths: PersistentPaths, known: Installation)
    requires
        diagnosis(profile, paths, known) is Ok,
    ensures
        ({
            let config = known.config.view();
            let relay = configured_executable(profile, config)->Ok_0;
            let events = texts(profile.hook_events@);
            let command = persistent_command(profile.platform, relay, paths.generation@, known.token->Ok_0@);
            let approvals = json_text_object(Some(known.allowlist->Ok_0@), "Hermes shell-hook allowlist"@);
            &&& configured_executable(profile, config) is Ok
            &&& known.executable
            &&& known.token is Ok
            &&& known.environment is Ok
            &&& hooks_error(config, events, command) is None
            &&& known.allowlist is Ok
            &&& approvals is Ok
            &&& trust_error(approvals->Ok_0, events, command) is None
            &&& fence_error(
                profile,
                lookup(config, "mcp_servers"@)->Some_0.get("nemo-relay"@)->Some_0,
                paths.generation@,
                known.token->Ok_0@,
            ) is None
        }),
{
}

/// What is printed of a configuration or an allowlist is the text that its members are written as, an allowlist as a whole
/// line; what cannot be written is told as an error of the installation.
pub proof fn members_are_printed_as_they_are_written(r: Result<String, CliError>, members: Members)
    ensures
        printed_yaml(r, members) <==> match yaml_text(JsonView::Object(members)) {
            Ok(text) => r is Ok && r->Ok_0@ == text,
            Err(error) => r is Err && r->Err_0.view() == Failure::Install(error),
        },
        printed_json(r, members) <==> match json_pretty_text(JsonView::Object(members)) {
            Ok(text) => r is Ok && r->Ok_0@ == text + "\n"@,
            Err(error) => r is Err && r->Err_0.view() == Failure::Install(error),
        },
{
}

/// An answer is handed on as it is, and an error as one of the installation.
pub proof fn an_answer_is_handed_on<T>(r: Result<T, CliError>, answer: Result<T, Seq<char>>)
    ensures
        told(r, answer) <==> {
            &&& r is Ok <==> answer is Ok
            &&& r matches Ok(value) ==> answer == Ok::<T, Seq<char>>(value)
            &&& r matches Err(error) ==> answer is Err && error.view() == Failure::Install(answer->Err_0)
        },
{
}

/// An error is told in its own words, of whatever kind it is.
pub proof fn an_error_is_told_in_its_words(error: CliError)
    ensures
        error matches CliError::Install(words) ==> error.view() == Failure::Install(words@) && error.view().text()
            == words@,
        error matches CliError::Launch(words) ==> error.view() == Failure::Launch(words@) && error.view().text()
            == words@,
        error matches CliError::InvalidPayload(words) ==> error.view() == Failure::InvalidPayload(words@)
            && error.view().text() == words@,
        error matches CliError::PayloadTooLarge(words) ==> error.view() == Failure::PayloadTooLarge(words@)
            && error.view().text() == words@,
{
}

} // verus!
