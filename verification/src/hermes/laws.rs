//! What installing and removing the relay keeps and undoes.

use crate::hermes::config::{
    added_hooks, env_text, expected_server, hook_group, hooked, installed, kept_groups, kept_hooks,
    kept_hooks_are_sorted, kept_without_owner, owned_command, relay_server, routed_model, served, server_env,
    server_environment, server_generation, stripped, transparent, transparent_text, without_server, yaml_object,
    HermesProfile, MCP_SERVER_NAME,
};
use crate::hermes::hooks::{persistent_command, transparent_command, DEFAULT_BIND};
use crate::hermes::integration::{
    configured_command, configured_executable, diagnosis, fence_error, unset_names, Installation,
};
use crate::hermes::paths::PersistentPaths;
use crate::hermes::plan::{
    disapproved, install_texts, left_allowlist, left_config, removed_command, uninstalled, ApprovalTime,
};
use crate::hermes::trust::{
    approval, approval_count, approvals_of, command_count, hooks_error, json_text_object, missing_approval, missing_hook,
    stray_approval, stray_hook, trust_error, trusted,
};
use crate::json::{json_pretty_text, members_of, opt_text_json, texts_json, yaml_text, JsonView, Members};
use crate::ordered::{
    has_key, inserted, inserted_sorted, lookup, lookup_inserted, lookup_present, lookup_removed, lookup_sorted, removed,
    removed_sorted, same_lookups, sorted, text_less, text_less_total,
};
use crate::text::{decimal, opt_text, texts};
use vstd::prelude::*;
use vstd::string::*;

verus! {

proof fn lookup_pushed(s: Members, entry: (Seq<char>, JsonView), k: Seq<char>)
    ensures
        lookup(s.push(entry), k) == (if has_key(s, k) {
            lookup(s, k)
        } else if entry.0 == k {
            Some(entry.1)
        } else {
            None
        }),
    decreases s.len(),
{
    reveal_with_fuel(lookup, 2);
    if s.len() > 0 {
        assert(s.push(entry).drop_first() =~= s.drop_first().push(entry));
        lookup_pushed(s.drop_first(), entry, k);
    } else {
        assert(s.push(entry).drop_first() =~= s);
    }
}

/// What an event keeps of its groups: nothing where none is left.
pub open spec fn kept_value(value: Option<JsonView>, owned: Option<Seq<char>>) -> Option<JsonView> {
    match value {
        Some(JsonView::Array(groups)) => {
            let kept = kept_groups(groups, owned, groups.len() as int);
            if kept.len() == 0 {
                None
            } else {
                Some(JsonView::Array(kept))
            }
        },
        _ => None,
    }
}

proof fn lookup_kept(hooks: Members, owned: Option<Seq<char>>, n: int, k: Seq<char>)
    requires
        sorted(hooks),
        0 <= n <= hooks.len(),
        kept_hooks(hooks, owned, n) is Ok,
    ensures
        lookup(kept_hooks(hooks, owned, n)->Ok_0, k) == kept_value(lookup(hooks.take(n), k), owned),
    decreases n,
{
    if n > 0 {
        lookup_kept(hooks, owned, n - 1, k);
        let done = kept_hooks(hooks, owned, n - 1)->Ok_0;
        let entry = hooks[n - 1];
        assert(hooks.take(n) =~= hooks.take(n - 1).push(entry));
        lookup_pushed(hooks.take(n - 1), entry, k);
        if k == entry.0 && has_key(hooks.take(n - 1), k) {
            let i = lookup_present(hooks.take(n - 1), k);
            assert(text_less(hooks[i].0, hooks[n - 1].0));
            text_less_total(hooks[i].0, hooks[n - 1].0);
        }
        let groups = entry.1->Array_0;
        let kept = kept_groups(groups, owned, groups.len() as int);
        if kept.len() > 0 {
            lookup_pushed(done, (entry.0, JsonView::Array(kept)), k);
        }
    }
}

/// Every event keeps its groups but for the owned ones.
pub proof fn kept_hooks_by_event(hooks: Members, owned: Option<Seq<char>>, k: Seq<char>)
    requires
        sorted(hooks),
        kept_hooks(hooks, owned, hooks.len() as int) is Ok,
    ensures
        sorted(kept_hooks(hooks, owned, hooks.len() as int)->Ok_0),
        lookup(kept_hooks(hooks, owned, hooks.len() as int)->Ok_0, k) == kept_value(lookup(hooks, k), owned),
{
    assert(hooks.take(hooks.len() as int) =~= hooks);
    lookup_kept(hooks, owned, hooks.len() as int, k);
    kept_hooks_are_sorted(hooks, owned, hooks.len() as int);
}

/// Hooks whose every event has groups in an array.
pub open spec fn all_groups(hooks: Members) -> bool {
    forall|i: int| 0 <= i < hooks.len() ==> (#[trigger] hooks[i]).1 is Array
}

/// Groups can be taken out of hooks whose every event has groups in an array.
pub proof fn groups_are_kept(hooks: Members, owned: Option<Seq<char>>, n: int)
    requires
        all_groups(hooks),
        0 <= n <= hooks.len(),
    ensures
        kept_hooks(hooks, owned, n) is Ok,
    decreases n,
{
    if n > 0 {
        groups_are_kept(hooks, owned, n - 1);
        assert(hooks[n - 1].1 is Array);
    }
}

/// Groups none of which has the command.
pub open spec fn foreign_groups(groups: Seq<JsonView>, command: Seq<char>) -> bool {
    forall|i: int| 0 <= i < groups.len() ==> (#[trigger] groups[i]).text_at("command"@) != Some(command)
}

proof fn foreign_groups_are_kept(groups: Seq<JsonView>, command: Seq<char>, n: int)
    requires
        foreign_groups(groups, command),
        0 <= n <= groups.len(),
    ensures
        kept_groups(groups, Some(command), n) == groups.take(n),
    decreases n,
{
    if n > 0 {
        foreign_groups_are_kept(groups, command, n - 1);
        assert(groups[n - 1].text_at("command"@) != Some(command));
        assert(groups.take(n) =~= groups.take(n - 1).push(groups[n - 1]));
    } else {
        assert(groups.take(0) =~= Seq::empty());
    }
}

proof fn kept_prefix(groups: Seq<JsonView>, more: JsonView, owned: Option<Seq<char>>, n: int)
    requires
        0 <= n <= groups.len(),
    ensures
        kept_groups(groups.push(more), owned, n) == kept_groups(groups, owned, n),
    decreases n,
{
    if n > 0 {
        kept_prefix(groups, more, owned, n - 1);
    }
}

/// A hook group has the command that it was made with.
pub proof fn a_hook_group_has_its_command(command: Seq<char>)
    ensures
        hook_group(command).text_at("command"@) == Some(command),
{
    let pairs = seq![("command"@, JsonView::Text(command)), ("timeout"@, JsonView::Unsigned(30))];
    let first = inserted(Members::empty(), "command"@, JsonView::Text(command));
    assert(pairs.drop_last().drop_last() =~= Members::empty());
    reveal_with_fuel(members_of, 3);
    inserted_sorted(Members::empty(), "command"@, JsonView::Text(command));
    lookup_inserted(Members::empty(), "command"@, JsonView::Text(command), "command"@);
    lookup_inserted(first, "timeout"@, JsonView::Unsigned(30), "command"@);
    reveal_strlit("command");
    reveal_strlit("timeout");
    assert("command"@[0] != "timeout"@[0]);
    assert(members_of(pairs) == inserted(first, "timeout"@, JsonView::Unsigned(30)));
}

/// Taking out the one owned group leaves the others.
proof fn added_group_is_taken_out(groups: Seq<JsonView>, command: Seq<char>)
    requires
        foreign_groups(groups, command),
    ensures
        ({
            let more = groups.push(hook_group(command));
            kept_groups(more, Some(command), more.len() as int) == groups
        }),
{
    a_hook_group_has_its_command(command);
    let n = groups.len() as int;
    kept_prefix(groups, hook_group(command), Some(command), n);
    foreign_groups_are_kept(groups, command, n);
    assert(groups.take(n) =~= groups);
}

/// Whether one of the first `n` events is `k`.
pub open spec fn among(events: Seq<Seq<char>>, n: int, k: Seq<char>) -> bool {
    exists|i: int| 0 <= i < n && #[trigger] events[i] == k
}

/// What an event has once a hook is added.
pub open spec fn added_value(value: Option<JsonView>, command: Seq<char>) -> Option<JsonView> {
    match value {
        Some(JsonView::Array(groups)) => Some(JsonView::Array(groups.push(hook_group(command)))),
        Some(other) => Some(other),
        None => Some(JsonView::Array(Seq::empty().push(hook_group(command)))),
    }
}

proof fn hooks_by_event(hooks: Members, events: Seq<Seq<char>>, command: Seq<char>, n: int, k: Seq<char>)
    requires
        sorted(hooks),
        events.no_duplicates(),
        0 <= n <= events.len(),
        added_hooks(hooks, events, command, n) is Ok,
    ensures
        sorted(added_hooks(hooks, events, command, n)->Ok_0),
        lookup(added_hooks(hooks, events, command, n)->Ok_0, k) == (if among(events, n, k) {
            added_value(lookup(hooks, k), command)
        } else {
            lookup(hooks, k)
        }),
    decreases n,
{
    if n > 0 {
        let event = events[n - 1];
        hooks_by_event(hooks, events, command, n - 1, k);
        hooks_by_event(hooks, events, command, n - 1, event);
        let done = added_hooks(hooks, events, command, n - 1)->Ok_0;
        assert(!among(events, n - 1, event));
        assert(lookup(done, event) == lookup(hooks, event));
        assert(seq![hook_group(command)] =~= Seq::empty().push(hook_group(command)));
        let value = added_value(lookup(hooks, event), command)->Some_0;
        assert(added_hooks(hooks, events, command, n)->Ok_0 == inserted(done, event, value));
        inserted_sorted(done, event, value);
        lookup_inserted(done, event, value, k);
        if k == event {
            assert(events[n - 1] == k);
            assert(among(events, n, k));
        } else if among(events, n, k) {
            let i = choose|i: int| 0 <= i < n && #[trigger] events[i] == k;
            assert(among(events, n - 1, k));
        }
    }
}

/// A hook can be added to hooks whose every event has groups in an array.
pub proof fn adding_succeeds(hooks: Members, events: Seq<Seq<char>>, command: Seq<char>, n: int)
    requires
        sorted(hooks),
        all_groups(hooks),
        events.no_duplicates(),
        0 <= n <= events.len(),
    ensures
        added_hooks(hooks, events, command, n) is Ok,
    decreases n,
{
    if n > 0 {
        adding_succeeds(hooks, events, command, n - 1);
        let event = events[n - 1];
        hooks_by_event(hooks, events, command, n - 1, event);
        assert(!among(events, n - 1, event));
        if has_key(hooks, event) {
            let i = lookup_present(hooks, event);
            assert(hooks[i].1 is Array);
        }
    }
}

/// The hooks of a configuration that knows nothing of `command`: each event has groups, and none of them has
/// the command.
pub open spec fn foreign_hooks(hooks: Members, command: Seq<char>) -> bool {
    &&& sorted(hooks)
    &&& forall|i: int|
        0 <= i < hooks.len() ==> (#[trigger] hooks[i]).1 is Array && hooks[i].1->Array_0.len() > 0 && foreign_groups(
            hooks[i].1->Array_0,
            command,
        )
}

proof fn foreign_value(hooks: Members, command: Seq<char>, k: Seq<char>)
    requires
        foreign_hooks(hooks, command),
    ensures
        lookup(hooks, k) matches Some(value) ==> value is Array && value->Array_0.len() > 0 && foreign_groups(
            value->Array_0,
            command,
        ),
{
    if has_key(hooks, k) {
        let i = lookup_present(hooks, k);
        assert(hooks[i].1 is Array);
    }
}

/// Taking the hooks out that were added gives back the hooks that were there.
proof fn added_hooks_are_taken_out(hooks: Members, events: Seq<Seq<char>>, command: Seq<char>)
    requires
        foreign_hooks(hooks, command),
        events.no_duplicates(),
    ensures
        added_hooks(hooks, events, command, events.len() as int) is Ok,
        ({
            let added = added_hooks(hooks, events, command, events.len() as int)->Ok_0;
            sorted(added) && kept_hooks(added, Some(command), added.len() as int) == Ok::<Members, Seq<char>>(hooks)
        }),
{
    let n = events.len() as int;
    assert(all_groups(hooks));
    adding_succeeds(hooks, events, command, n);
    let added = added_hooks(hooks, events, command, n)->Ok_0;
    hooks_by_event(hooks, events, command, n, Seq::empty());
    assert forall|i: int| 0 <= i < added.len() implies (#[trigger] added[i]).1 is Array by {
        lookup_sorted(added, i);
        hooks_by_event(hooks, events, command, n, added[i].0);
        foreign_value(hooks, command, added[i].0);
    }
    groups_are_kept(added, Some(command), added.len() as int);
    let kept = kept_hooks(added, Some(command), added.len() as int)->Ok_0;
    assert forall|k: Seq<char>| #[trigger] lookup(kept, k) == lookup(hooks, k) by {
        kept_hooks_by_event(added, Some(command), k);
        hooks_by_event(hooks, events, command, n, k);
        foreign_value(hooks, command, k);
        match lookup(hooks, k) {
            Some(value) => {
                let groups = value->Array_0;
                if among(events, n, k) {
                    added_group_is_taken_out(groups, command);
                } else {
                    foreign_groups_are_kept(groups, command, groups.len() as int);
                    assert(groups.take(groups.len() as int) =~= groups);
                }
            },
            None => {
                added_group_is_taken_out(Seq::empty(), command);
            },
        }
    }
    kept_hooks_by_event(added, Some(command), Seq::empty());
    same_lookups(kept, hooks);
}

/// Putting a value in place of another, whether the other is taken out first or not.
pub proof fn replaced(s: Members, k: Seq<char>, v: JsonView, other: Seq<char>)
    requires
        sorted(s),
    ensures
        sorted(inserted(removed(s, k), k, v)),
        lookup(inserted(removed(s, k), k, v), other) == (if other == k {
            Some(v)
        } else {
            lookup(s, other)
        }),
{
    removed_sorted(s, k);
    inserted_sorted(removed(s, k), k, v);
    lookup_removed(s, k, other);
    lookup_inserted(removed(s, k), k, v, other);
}

/// A configuration that knows nothing of the relay: it has no server of its name, and no hook has the
/// command.
pub open spec fn foreign_config(root: Members, command: Seq<char>) -> bool {
    &&& sorted(root)
    &&& relay_server(root) is None
    &&& match lookup(root, "hooks"@) {
        Some(JsonView::Object(hooks)) => foreign_hooks(hooks, command) && hooks.len() > 0,
        Some(_) => false,
        None => true,
    }
    &&& match lookup(root, "mcp_servers"@) {
        Some(JsonView::Object(servers)) => sorted(servers) && servers.len() > 0,
        Some(_) => false,
        None => true,
    }
}

/// The hooks of a configuration.
pub open spec fn hooks_of(root: Members) -> Members {
    match lookup(root, "hooks"@) {
        Some(JsonView::Object(hooks)) => hooks,
        _ => Members::empty(),
    }
}

/// The servers of a configuration.
pub open spec fn servers_of(root: Members) -> Members {
    match lookup(root, "mcp_servers"@) {
        Some(JsonView::Object(servers)) => servers,
        _ => Members::empty(),
    }
}

proof fn hooks_key_is_not_servers_key()
    ensures
        "hooks"@ != "mcp_servers"@,
{
    reveal_strlit("hooks");
    reveal_strlit("mcp_servers");
    assert("hooks"@.len() != "mcp_servers"@.len());
}

proof fn kept_foreign_hooks(hooks: Members, n: int)
    requires
        sorted(hooks),
        0 <= n <= hooks.len(),
        forall|i: int| 0 <= i < hooks.len() ==> (#[trigger] hooks[i]).1 is Array && hooks[i].1->Array_0.len() > 0,
    ensures
        kept_hooks(hooks, None, n) == Ok::<Members, Seq<char>>(hooks.take(n)),
    decreases n,
{
    if n > 0 {
        kept_foreign_hooks(hooks, n - 1);
        assert(hooks[n - 1].1 is Array);
        let groups = hooks[n - 1].1->Array_0;
        kept_without_owner(groups, groups.len() as int);
        assert(groups.take(groups.len() as int) =~= groups);
        assert(hooks.take(n) =~= hooks.take(n - 1).push(hooks[n - 1]));
    } else {
        assert(hooks.take(0) =~= Members::empty());
    }
}

/// A configuration whose objects are in order, as every object is that was read, and whose hooks nowhere have
/// the command.
pub open spec fn fresh_config(root: Members, command: Seq<char>) -> bool {
    &&& sorted(root)
    &&& sorted(hooks_of(root))
    &&& sorted(servers_of(root))
    &&& forall|i: int|
        0 <= i < hooks_of(root).len() ==> ((#[trigger] hooks_of(root)[i]).1 is Array ==> foreign_groups(
            hooks_of(root)[i].1->Array_0,
            command,
        ))
}

proof fn kept_stay_foreign(groups: Seq<JsonView>, owned: Option<Seq<char>>, command: Seq<char>, n: int)
    requires
        foreign_groups(groups, command),
        0 <= n <= groups.len(),
    ensures
        foreign_groups(kept_groups(groups, owned, n), command),
    decreases n,
{
    if n > 0 {
        kept_stay_foreign(groups, owned, command, n - 1);
        assert(groups[n - 1].text_at("command"@) != Some(command));
    }
}

/// The hooks that an installation leaves of those before it.
pub open spec fn hooks_left(root: Members, owned: Option<Seq<char>>) -> Members {
    kept_hooks(hooks_of(root), owned, hooks_of(root).len() as int)->Ok_0
}

proof fn left_hooks_are_foreign(root: Members, owned: Option<Seq<char>>, command: Seq<char>)
    requires
        fresh_config(root, command),
        kept_hooks(hooks_of(root), owned, hooks_of(root).len() as int) is Ok,
    ensures
        foreign_hooks(hooks_left(root, owned), command),
{
    let hooks = hooks_of(root);
    let left = hooks_left(root, owned);
    kept_hooks_by_event(hooks, owned, Seq::empty());
    assert forall|i: int| 0 <= i < left.len() implies (#[trigger] left[i]).1 is Array && left[i].1->Array_0.len() > 0
        && foreign_groups(left[i].1->Array_0, command) by {
        lookup_sorted(left, i);
        kept_hooks_by_event(hooks, owned, left[i].0);
        assert(has_key(hooks, left[i].0));
        let j = lookup_present(hooks, left[i].0);
        assert(hooks[j].1 is Array);
        let groups = hooks[j].1->Array_0;
        kept_stay_foreign(groups, owned, command, groups.len() as int);
    }
}

/// What comes of an installation.
proof fn install_result(
    profile: HermesProfile,
    root: Members,
    relay: Seq<char>,
    command: Seq<char>,
    generation: Seq<char>,
    token: Seq<char>,
    environment: Seq<Seq<char>>,
) -> (r: Members)
    requires
        fresh_config(root, command),
        texts(profile.hook_events@).no_duplicates(),
        installed(profile, root, relay, command, generation, token, environment) is Ok,
    ensures
        installed(profile, root, relay, command, generation, token, environment) == Ok::<Members, Seq<char>>(r),
        sorted(r),
        ({
            let events = texts(profile.hook_events@);
            let server = expected_server(profile, relay, generation, token, environment);
            let left = hooks_left(root, owned_command(profile, root, relay, Some(generation)));
            &&& kept_hooks(
                hooks_of(root),
                owned_command(profile, root, relay, Some(generation)),
                hooks_of(root).len() as int,
            ) is Ok
            &&& foreign_hooks(left, command)
            &&& added_hooks(left, events, command, events.len() as int) is Ok
            &&& lookup(r, "hooks"@) == Some(
                JsonView::Object(added_hooks(left, events, command, events.len() as int)->Ok_0),
            )
            &&& lookup(r, "mcp_servers"@) == Some(
                JsonView::Object(inserted(servers_of(root), MCP_SERVER_NAME@, server)),
            )
            &&& forall|k: Seq<char>|
                k != "hooks"@ && k != "mcp_servers"@ ==> #[trigger] lookup(r, k) == lookup(root, k)
        }),
{
    hooks_key_is_not_servers_key();
    let events = texts(profile.hook_events@);
    let server = expected_server(profile, relay, generation, token, environment);
    let owned = owned_command(profile, root, relay, Some(generation));
    let n = events.len() as int;
    // The hooks of the installation before go.
    let bare = stripped(root, owned)->Ok_0;
    if lookup(root, "hooks"@) is None {
        assert(kept_hooks(Members::empty(), owned, 0) == Ok::<Members, Seq<char>>(Members::empty()));
    }
    let left = hooks_left(root, owned);
    left_hooks_are_foreign(root, owned, command);
    assert forall|k: Seq<char>| #[trigger] lookup(bare, k) == (if k != "hooks"@ {
        lookup(root, k)
    } else if left.len() == 0 {
        None
    } else {
        Some(JsonView::Object(left))
    }) by {
        if lookup(root, "hooks"@) is Some {
            lookup_removed(root, "hooks"@, k);
            replaced(root, "hooks"@, JsonView::Object(left), k);
        }
    }
    removed_sorted(root, "hooks"@);
    replaced(root, "hooks"@, JsonView::Object(left), Seq::empty());
    assert(sorted(bare));
    // The hooks are added.
    if left.len() == 0 {
        assert(left =~= Members::empty());
    }
    added_hooks_are_taken_out(left, events, command);
    let added = added_hooks(left, events, command, n)->Ok_0;
    let with_hooks = inserted(removed(bare, "hooks"@), "hooks"@, JsonView::Object(added));
    assert(hooked(bare, events, command) == Ok::<Members, Seq<char>>(with_hooks));
    assert forall|k: Seq<char>| #[trigger] lookup(with_hooks, k) == (if k == "hooks"@ {
        Some(JsonView::Object(added))
    } else {
        lookup(root, k)
    }) by {
        replaced(bare, "hooks"@, JsonView::Object(added), k);
        assert(lookup(bare, k) == (if k != "hooks"@ {
            lookup(root, k)
        } else if left.len() == 0 {
            None
        } else {
            Some(JsonView::Object(left))
        }));
    }
    replaced(bare, "hooks"@, JsonView::Object(added), Seq::empty());
    // The server is added.
    let servers = inserted(servers_of(root), MCP_SERVER_NAME@, server);
    let r = inserted(removed(with_hooks, "mcp_servers"@), "mcp_servers"@, JsonView::Object(servers));
    assert(lookup(with_hooks, "mcp_servers"@) == lookup(root, "mcp_servers"@));
    assert(served(with_hooks, server) == Ok::<Members, Seq<char>>(r));
    assert forall|k: Seq<char>| #[trigger] lookup(r, k) == (if k == "mcp_servers"@ {
        Some(JsonView::Object(servers))
    } else {
        lookup(with_hooks, k)
    }) by {
        replaced(with_hooks, "mcp_servers"@, JsonView::Object(servers), k);
    }
    replaced(with_hooks, "mcp_servers"@, JsonView::Object(servers), Seq::empty());
    assert(lookup(r, "hooks"@) == lookup(with_hooks, "hooks"@));
    assert forall|k: Seq<char>| k != "hooks"@ && k != "mcp_servers"@ implies #[trigger] lookup(r, k) == lookup(
        root,
        k,
    ) by {
        assert(lookup(r, k) == lookup(with_hooks, k));
    }
    r
}

/// An installation in a configuration that knows nothing of the relay succeeds, and leaves every hook.
proof fn install_in_foreign_config(
    profile: HermesProfile,
    root: Members,
    relay: Seq<char>,
    command: Seq<char>,
    generation: Seq<char>,
    token: Seq<char>,
    environment: Seq<Seq<char>>,
)
    requires
        foreign_config(root, command),
        texts(profile.hook_events@).no_duplicates(),
    ensures
        fresh_config(root, command),
        installed(profile, root, relay, command, generation, token, environment) is Ok,
        owned_command(profile, root, relay, Some(generation)) is None,
        hooks_left(root, None) == hooks_of(root),
{
    hooks_key_is_not_servers_key();
    let events = texts(profile.hook_events@);
    let hooks = hooks_of(root);
    let bare = stripped(root, None)->Ok_0;
    assert(foreign_hooks(hooks, command));
    kept_foreign_hooks(hooks, hooks.len() as int);
    assert(hooks.take(hooks.len() as int) =~= hooks);
    if lookup(root, "hooks"@) is Some {
        replaced(root, "hooks"@, JsonView::Object(hooks), "hooks"@);
        replaced(root, "hooks"@, JsonView::Object(hooks), "mcp_servers"@);
    }
    added_hooks_are_taken_out(hooks, events, command);
    let added = added_hooks(hooks, events, command, events.len() as int)->Ok_0;
    replaced(bare, "hooks"@, JsonView::Object(added), "mcp_servers"@);
}

/// Installing the relay changes nothing in a configuration but its hooks and its servers. Of these, every
/// server of another name stays, and every event keeps the groups that are not of an installation before, in
/// front of the one that is added.
pub proof fn installing_keeps_everything_else(
    profile: HermesProfile,
    root: Members,
    relay: Seq<char>,
    command: Seq<char>,
    generation: Seq<char>,
    token: Seq<char>,
    environment: Seq<Seq<char>>,
    key: Seq<char>,
)
    requires
        fresh_config(root, command),
        texts(profile.hook_events@).no_duplicates(),
        installed(profile, root, relay, command, generation, token, environment) is Ok,
    ensures
        ({
            let r = installed(profile, root, relay, command, generation, token, environment)->Ok_0;
            let owned = owned_command(profile, root, relay, Some(generation));
            &&& key != "hooks"@ && key != "mcp_servers"@ ==> lookup(r, key) == lookup(root, key)
            &&& key != MCP_SERVER_NAME@ ==> lookup(servers_of(r), key) == lookup(servers_of(root), key)
            &&& lookup(hooks_of(r), key) == (if texts(profile.hook_events@).contains(key) {
                added_value(kept_value(lookup(hooks_of(root), key), owned), command)
            } else {
                kept_value(lookup(hooks_of(root), key), owned)
            })
        }),
{
    let events = texts(profile.hook_events@);
    let server = expected_server(profile, relay, generation, token, environment);
    let owned = owned_command(profile, root, relay, Some(generation));
    let r = install_result(profile, root, relay, command, generation, token, environment);
    lookup_inserted(servers_of(root), MCP_SERVER_NAME@, server, key);
    hooks_by_event(hooks_left(root, owned), events, command, events.len() as int, key);
    kept_hooks_by_event(hooks_of(root), owned, key);
    assert(among(events, events.len() as int, key) == events.contains(key));
}

proof fn one_command(groups: Seq<JsonView>, command: Seq<char>, n: int)
    requires
        foreign_groups(groups, command),
        0 <= n <= groups.len(),
    ensures
        command_count(groups, command, n) == 0,
        command_count(groups.push(hook_group(command)), command, n) == 0,
    decreases n,
{
    if n > 0 {
        one_command(groups, command, n - 1);
        assert(groups[n - 1].text_at("command"@) != Some(command));
    }
}

proof fn added_groups_have_one(groups: Seq<JsonView>, command: Seq<char>)
    requires
        foreign_groups(groups, command),
    ensures
        command_count(groups.push(hook_group(command)), command, groups.len() as int + 1) == 1,
{
    one_command(groups, command, groups.len() as int);
    a_hook_group_has_its_command(command);
}

proof fn no_hook_is_missing(
    hooks: Members,
    added: Members,
    events: Seq<Seq<char>>,
    command: Seq<char>,
    from: int,
)
    requires
        foreign_hooks(hooks, command),
        events.no_duplicates(),
        added_hooks(hooks, events, command, events.len() as int) == Ok::<Members, Seq<char>>(added),
        0 <= from <= events.len(),
    ensures
        missing_hook(Some(JsonView::Object(added)), events, command, from) is None,
    decreases events.len() - from,
{
    if from < events.len() {
        let event = events[from];
        hooks_by_event(hooks, events, command, events.len() as int, event);
        assert(among(events, events.len() as int, event));
        foreign_value(hooks, command, event);
        match lookup(hooks, event) {
            Some(value) => added_groups_have_one(value->Array_0, command),
            None => added_groups_have_one(Seq::empty(), command),
        }
        no_hook_is_missing(hooks, added, events, command, from + 1);
    }
}

proof fn no_hook_is_stray(hooks: Members, added: Members, events: Seq<Seq<char>>, command: Seq<char>, from: int)
    requires
        foreign_hooks(hooks, command),
        events.no_duplicates(),
        added_hooks(hooks, events, command, events.len() as int) == Ok::<Members, Seq<char>>(added),
        0 <= from <= added.len(),
    ensures
        stray_hook(added, events, command, from) is None,
    decreases added.len() - from,
{
    if from < added.len() {
        let event = added[from].0;
        hooks_by_event(hooks, events, command, events.len() as int, event);
        lookup_sorted(added, from);
        foreign_value(hooks, command, event);
        if !events.contains(event) {
            assert(!among(events, events.len() as int, event));
            let groups = added[from].1->Array_0;
            one_command(groups, command, groups.len() as int);
        }
        no_hook_is_stray(hooks, added, events, command, from + 1);
    }
}

/// An installation passes its own verification, whatever was installed before: the server is there as
/// expected, and the command is on every event exactly once and nowhere else.
pub proof fn an_installation_verifies(
    profile: HermesProfile,
    root: Members,
    relay: Seq<char>,
    command: Seq<char>,
    generation: Seq<char>,
    token: Seq<char>,
    environment: Seq<Seq<char>>,
)
    requires
        fresh_config(root, command),
        texts(profile.hook_events@).no_duplicates(),
        installed(profile, root, relay, command, generation, token, environment) is Ok,
    ensures
        ({
            let r = installed(profile, root, relay, command, generation, token, environment)->Ok_0;
            &&& relay_server(r) == Some(expected_server(profile, relay, generation, token, environment))
            &&& hooks_error(r, texts(profile.hook_events@), command) is None
        }),
{
    let events = texts(profile.hook_events@);
    let server = expected_server(profile, relay, generation, token, environment);
    let r = install_result(profile, root, relay, command, generation, token, environment);
    let left = hooks_left(root, owned_command(profile, root, relay, Some(generation)));
    let added = added_hooks(left, events, command, events.len() as int)->Ok_0;
    lookup_inserted(servers_of(root), MCP_SERVER_NAME@, server, MCP_SERVER_NAME@);
    no_hook_is_missing(left, added, events, command, 0);
    no_hook_is_stray(left, added, events, command, 0);
}

/// The relay can be installed in any configuration that knows nothing of it.
pub proof fn a_foreign_config_can_be_installed_in(
    profile: HermesProfile,
    root: Members,
    relay: Seq<char>,
    command: Seq<char>,
    generation: Seq<char>,
    token: Seq<char>,
    environment: Seq<Seq<char>>,
)
    requires
        foreign_config(root, command),
        texts(profile.hook_events@).no_duplicates(),
    ensures
        installed(profile, root, relay, command, generation, token, environment) is Ok,
{
    install_in_foreign_config(profile, root, relay, command, generation, token, environment);
}

/// The names that the relay's server uses itself, all different.
pub open spec fn distinct_names(profile: HermesProfile) -> bool {
    &&& profile.generation_file_env@ != profile.generation_token_env@
    &&& profile.generation_file_env@ != "NEMO_RELAY_GATEWAY_BIND"@
    &&& profile.generation_token_env@ != "NEMO_RELAY_GATEWAY_BIND"@
}

/// None of the forwarded variables is one that the relay's server uses itself.
pub open spec fn free_names(profile: HermesProfile, environment: Seq<Seq<char>>) -> bool {
    forall|i: int|
        0 <= i < environment.len() ==> #[trigger] environment[i] != profile.generation_file_env@ && environment[i]
            != profile.generation_token_env@ && environment[i] != "NEMO_RELAY_GATEWAY_BIND"@
}

proof fn environment_holds(
    profile: HermesProfile,
    generation: Seq<char>,
    token: Seq<char>,
    environment: Seq<Seq<char>>,
    n: int,
)
    requires
        distinct_names(profile),
        free_names(profile, environment),
        0 <= n <= environment.len(),
    ensures
        ({
            let env = server_environment(profile, generation, token, environment, n);
            &&& sorted(env)
            &&& lookup(env, "NEMO_RELAY_GATEWAY_BIND"@) == Some(JsonView::Text(DEFAULT_BIND@))
            &&& lookup(env, profile.generation_file_env@) == Some(JsonView::Text(generation))
            &&& lookup(env, profile.generation_token_env@) == Some(JsonView::Text(token))
        }),
    decreases n,
{
    let bind = "NEMO_RELAY_GATEWAY_BIND"@;
    let file = profile.generation_file_env@;
    let name = profile.generation_token_env@;
    if n == 0 {
        let pairs = seq![
            (bind, JsonView::Text(DEFAULT_BIND@)),
            (file, JsonView::Text(generation)),
            (name, JsonView::Text(token)),
        ];
        let one = inserted(Members::empty(), bind, JsonView::Text(DEFAULT_BIND@));
        let two = inserted(one, file, JsonView::Text(generation));
        let three = inserted(two, name, JsonView::Text(token));
        reveal_with_fuel(members_of, 4);
        assert(pairs.drop_last().drop_last().drop_last() =~= Members::empty());
        assert(pairs.drop_last().drop_last().last() == pairs[0]);
        assert(pairs.drop_last().last() == pairs[1]);
        assert(members_of(pairs) == three);
        inserted_sorted(Members::empty(), bind, JsonView::Text(DEFAULT_BIND@));
        inserted_sorted(one, file, JsonView::Text(generation));
        inserted_sorted(two, name, JsonView::Text(token));
        lookup_inserted(Members::empty(), bind, JsonView::Text(DEFAULT_BIND@), bind);
        lookup_inserted(one, file, JsonView::Text(generation), bind);
        lookup_inserted(two, name, JsonView::Text(token), bind);
        lookup_inserted(one, file, JsonView::Text(generation), file);
        lookup_inserted(two, name, JsonView::Text(token), file);
        lookup_inserted(two, name, JsonView::Text(token), name);
    } else {
        environment_holds(profile, generation, token, environment, n - 1);
        let env = server_environment(profile, generation, token, environment, n - 1);
        let k = environment[n - 1];
        let v = JsonView::Text("${"@ + k + "}"@);
        inserted_sorted(env, k, v);
        lookup_inserted(env, k, v, bind);
        lookup_inserted(env, k, v, file);
        lookup_inserted(env, k, v, name);
    }
}

proof fn server_holds(
    profile: HermesProfile,
    relay: Seq<char>,
    generation: Seq<char>,
    token: Seq<char>,
    environment: Seq<Seq<char>>,
)
    ensures
        ({
            let server = expected_server(profile, relay, generation, token, environment);
            let env = server_environment(profile, generation, token, environment, environment.len() as int);
            &&& server.get("command"@) == Some(JsonView::Text(relay))
            &&& server.get("args"@) == Some(texts_json(seq!["mcp"@]))
            &&& server.get("env"@) == Some(JsonView::Object(env))
        }),
{
    let env = JsonView::Object(
        server_environment(profile, generation, token, environment, environment.len() as int),
    );
    let args = texts_json(seq!["mcp"@]);
    let pairs = seq![("command"@, JsonView::Text(relay)), ("args"@, args), ("env"@, env)];
    let one = inserted(Members::empty(), "command"@, JsonView::Text(relay));
    let two = inserted(one, "args"@, args);
    reveal_with_fuel(members_of, 4);
    assert(pairs.drop_last().drop_last().drop_last() =~= Members::empty());
    assert(pairs.drop_last().drop_last().last() == pairs[0]);
    assert(pairs.drop_last().last() == pairs[1]);
    assert(members_of(pairs) == inserted(two, "env"@, env));
    reveal_strlit("command");
    reveal_strlit("args");
    reveal_strlit("env");
    inserted_sorted(Members::empty(), "command"@, JsonView::Text(relay));
    inserted_sorted(one, "args"@, args);
    lookup_inserted(Members::empty(), "command"@, JsonView::Text(relay), "command"@);
    lookup_inserted(one, "args"@, args, "command"@);
    lookup_inserted(two, "env"@, env, "command"@);
    lookup_inserted(one, "args"@, args, "args"@);
    lookup_inserted(two, "env"@, env, "args"@);
    lookup_inserted(two, "env"@, env, "env"@);
}

/// The relay knows its own server again, with the generation that it was made with, whatever hooks stand
/// beside it.
pub proof fn a_server_proves_its_installation(
    profile: HermesProfile,
    root: Members,
    relay: Seq<char>,
    generation: Seq<char>,
    token: Seq<char>,
    environment: Seq<Seq<char>>,
)
    requires
        distinct_names(profile),
        free_names(profile, environment),
        token.len() > 0,
        relay_server(root) == Some(expected_server(profile, relay, generation, token, environment)),
    ensures
        owned_command(profile, root, relay, Some(generation)) == Some(persistent_command(profile.platform, relay, generation, token)),
        owned_command(profile, root, relay, None) == Some(persistent_command(profile.platform, relay, generation, token)),
{
    let server = expected_server(profile, relay, generation, token, environment);
    server_holds(profile, relay, generation, token, environment);
    environment_holds(profile, generation, token, environment, environment.len() as int);
    let env = server_environment(profile, generation, token, environment, environment.len() as int);
    assert(server_env(server) == env);
    assert(env_text(server, "NEMO_RELAY_GATEWAY_BIND"@) == Some(DEFAULT_BIND@));
    assert(env_text(server, profile.generation_file_env@) == Some(generation));
    assert(env_text(server, profile.generation_token_env@) == Some(token));
    assert(server_generation(profile, server) == Some((generation, token)));
}

proof fn no_name_is_unset(env: Members, names: Seq<Seq<char>>, n: int)
    requires
        0 <= n <= names.len(),
    ensures
        unset_names(env, env, names, n).len() == 0,
    decreases n,
{
    if n > 0 {
        no_name_is_unset(env, names, n - 1);
    }
}

/// An installation is found sound, whatever was installed before: where its relay can be executed, its approvals
/// stand and the same variables are to be forwarded, the diagnosis has nothing against it.
pub proof fn an_installation_is_found_sound(
    profile: HermesProfile,
    paths: PersistentPaths,
    known: Installation,
    root: Members,
    relay: Seq<char>,
    token: Seq<char>,
    environment: Seq<Seq<char>>,
)
    requires
        fresh_config(root, persistent_command(profile.platform, relay, paths.generation@, token)),
        texts(profile.hook_events@).no_duplicates(),
        distinct_names(profile),
        free_names(profile, environment),
        token.len() > 0,
        installed(
            profile,
            root,
            relay,
            persistent_command(profile.platform, relay, paths.generation@, token),
            paths.generation@,
            token,
            environment,
        ) == Ok::<Members, Seq<char>>(known.config.view()),
        known.executable,
        known.token is Ok && known.token->Ok_0@ == token,
        known.allowlist is Ok,
        ({
            let allowlist = json_text_object(Some(known.allowlist->Ok_0@), "Hermes shell-hook allowlist"@);
            allowlist is Ok && trust_error(
                allowlist->Ok_0,
                texts(profile.hook_events@),
                persistent_command(profile.platform, relay, paths.generation@, token),
            ) is None
        }),
        known.environment is Ok && texts(known.environment->Ok_0@) == environment,
    ensures
        diagnosis(profile, paths, known) == Ok::<Seq<char>, Seq<char>>(
            "MCP lifecycle and "@ + decimal(profile.hook_events@.len()) + " hooks trusted at "@ + paths.config@,
        ),
{
    let generation = paths.generation@;
    let command = persistent_command(profile.platform, relay, generation, token);
    let config = known.config.view();
    let server = expected_server(profile, relay, generation, token, environment);
    let n = environment.len() as int;
    let env = server_environment(profile, generation, token, environment, n);
    an_installation_verifies(profile, root, relay, command, generation, token, environment);
    a_server_proves_its_installation(profile, config, relay, generation, token, environment);
    server_holds(profile, relay, generation, token, environment);
    environment_holds(profile, generation, token, environment, n);
    assert(server.text_at("command"@) == Some(relay));
    assert(configured_executable(profile, config) == Ok::<Seq<char>, Seq<char>>(relay));
    assert(fence_error(profile, server, generation, token) is None);
    assert(server_env(server) == env);
    no_name_is_unset(env, environment, n);
}

/// Removing an installation gives back the configuration that it was installed in.
pub proof fn uninstalling_undoes_installing(
    profile: HermesProfile,
    root: Members,
    relay: Seq<char>,
    generation: Seq<char>,
    token: Seq<char>,
    environment: Seq<Seq<char>>,
)
    requires
        foreign_config(root, persistent_command(profile.platform, relay, generation, token)),
        texts(profile.hook_events@).no_duplicates(),
        texts(profile.hook_events@).len() > 0,
        distinct_names(profile),
        free_names(profile, environment),
        token.len() > 0,
    ensures
        ({
            let command = persistent_command(profile.platform, relay, generation, token);
            let r = installed(profile, root, relay, command, generation, token, environment);
            r is Ok && uninstalled(profile, r->Ok_0, generation) == Ok::<Members, Seq<char>>(root)
        }),
{
    hooks_key_is_not_servers_key();
    let command = persistent_command(profile.platform, relay, generation, token);
    let events = texts(profile.hook_events@);
    let server = expected_server(profile, relay, generation, token, environment);
    install_in_foreign_config(profile, root, relay, command, generation, token, environment);
    let r = install_result(profile, root, relay, command, generation, token, environment);
    let hooks = hooks_of(root);
    let servers = servers_of(root);
    let n = events.len() as int;
    assert(foreign_hooks(hooks, command));
    assert(sorted(servers));
    let added = added_hooks(hooks, events, command, n)->Ok_0;
    let more = inserted(servers, MCP_SERVER_NAME@, server);
    lookup_inserted(servers, MCP_SERVER_NAME@, server, MCP_SERVER_NAME@);
    a_server_proves_its_installation(profile, r, relay, generation, token, environment);
    server_holds(profile, relay, generation, token, environment);
    let owned = configured_command(profile, r, Some(generation));
    assert(owned == Some(command));
    // The hooks go.
    added_hooks_are_taken_out(hooks, events, command);
    let bare = stripped(r, owned)->Ok_0;
    assert forall|k: Seq<char>| #[trigger] lookup(bare, k) == (if k == "hooks"@ {
        lookup(root, k)
    } else {
        lookup(r, k)
    }) by {
        if hooks.len() == 0 {
            lookup_removed(r, "hooks"@, k);
        } else {
            replaced(r, "hooks"@, JsonView::Object(hooks), k);
        }
    }
    if hooks.len() == 0 {
        removed_sorted(r, "hooks"@);
    } else {
        replaced(r, "hooks"@, JsonView::Object(hooks), Seq::empty());
    }
    assert(sorted(bare));
    // The server goes.
    inserted_sorted(servers, MCP_SERVER_NAME@, server);
    removed_sorted(more, MCP_SERVER_NAME@);
    assert forall|k: Seq<char>| #[trigger] lookup(removed(more, MCP_SERVER_NAME@), k) == lookup(servers, k) by {
        lookup_removed(more, MCP_SERVER_NAME@, k);
        lookup_inserted(servers, MCP_SERVER_NAME@, server, k);
    }
    assert(lookup(servers, MCP_SERVER_NAME@) is None);
    same_lookups(removed(more, MCP_SERVER_NAME@), servers);
    assert(lookup(bare, "mcp_servers"@) == Some(JsonView::Object(more)));
    let last = without_server(bare, true)->Ok_0;
    assert forall|k: Seq<char>| #[trigger] lookup(last, k) == lookup(root, k) by {
        if servers.len() == 0 {
            lookup_removed(bare, "mcp_servers"@, k);
        } else {
            replaced(bare, "mcp_servers"@, JsonView::Object(servers), k);
        }
        assert(lookup(bare, k) == (if k == "hooks"@ {
            lookup(root, k)
        } else {
            lookup(r, k)
        }));
    }
    if servers.len() == 0 {
        removed_sorted(bare, "mcp_servers"@);
    } else {
        replaced(bare, "mcp_servers"@, JsonView::Object(servers), Seq::empty());
    }
    same_lookups(last, root);
}

/// A configuration whose installation was taken out holds none, whichever generation is asked for.
pub proof fn an_uninstalled_config_is_not_managed(profile: HermesProfile, root: Members, generation: Seq<char>)
    requires
        sorted(root),
        sorted(hooks_of(root)),
        sorted(servers_of(root)),
        configured_command(profile, root, Some(generation)) is Some,
        uninstalled(profile, root, generation) is Ok,
    ensures
        configured_command(profile, uninstalled(profile, root, generation)->Ok_0, None) is None,
{
    hooks_key_is_not_servers_key();
    let owned = configured_command(profile, root, Some(generation));
    let bare = stripped(root, owned)->Ok_0;
    let left = removed(servers_of(root), MCP_SERVER_NAME@);
    if lookup(root, "hooks"@) is Some {
        let kept = hooks_left(root, owned);
        lookup_removed(root, "hooks"@, "mcp_servers"@);
        replaced(root, "hooks"@, JsonView::Object(kept), "mcp_servers"@);
        removed_sorted(root, "hooks"@);
    }
    lookup_removed(servers_of(root), MCP_SERVER_NAME@, MCP_SERVER_NAME@);
    lookup_removed(bare, "mcp_servers"@, "mcp_servers"@);
    replaced(bare, "mcp_servers"@, JsonView::Object(left), "mcp_servers"@);
}

proof fn an_approval_has_its_texts(
    event: Seq<char>,
    command: Seq<char>,
    approved_at: Seq<char>,
    script_mtime: Option<Seq<char>>,
)
    ensures
        approval(event, command, approved_at, script_mtime).text_at("event"@) == Some(event),
        approval(event, command, approved_at, script_mtime).text_at("command"@) == Some(command),
{
    let time = JsonView::Text(approved_at);
    let mtime = opt_text_json(script_mtime);
    let pairs = seq![
        ("event"@, JsonView::Text(event)),
        ("command"@, JsonView::Text(command)),
        ("approved_at"@, time),
        ("script_mtime_at_approval"@, mtime),
    ];
    let one = inserted(Members::empty(), "event"@, JsonView::Text(event));
    let two = inserted(one, "command"@, JsonView::Text(command));
    let three = inserted(two, "approved_at"@, time);
    reveal_with_fuel(members_of, 5);
    assert(pairs.drop_last().drop_last().drop_last().drop_last() =~= Members::empty());
    assert(pairs.drop_last().drop_last().drop_last().last() == pairs[0]);
    assert(pairs.drop_last().drop_last().last() == pairs[1]);
    assert(pairs.drop_last().last() == pairs[2]);
    assert(members_of(pairs) == inserted(three, "script_mtime_at_approval"@, mtime));
    reveal_strlit("event");
    reveal_strlit("command");
    reveal_strlit("approved_at");
    reveal_strlit("script_mtime_at_approval");
    assert("event"@.len() == 5 && "command"@.len() == 7 && "approved_at"@.len() == 11
        && "script_mtime_at_approval"@.len() == 24);
    inserted_sorted(Members::empty(), "event"@, JsonView::Text(event));
    inserted_sorted(one, "command"@, JsonView::Text(command));
    inserted_sorted(two, "approved_at"@, time);
    lookup_inserted(Members::empty(), "event"@, JsonView::Text(event), "event"@);
    lookup_inserted(one, "command"@, JsonView::Text(command), "event"@);
    lookup_inserted(two, "approved_at"@, time, "event"@);
    lookup_inserted(three, "script_mtime_at_approval"@, mtime, "event"@);
    lookup_inserted(one, "command"@, JsonView::Text(command), "command"@);
    lookup_inserted(two, "approved_at"@, time, "command"@);
    lookup_inserted(three, "script_mtime_at_approval"@, mtime, "command"@);
}

proof fn front_approvals(front: Seq<JsonView>, back: Seq<JsonView>, event: Seq<char>, command: Seq<char>, n: int)
    requires
        foreign_groups(front, command),
        0 <= n <= front.len(),
    ensures
        approval_count(front + back, event, command, n) == 0,
    decreases n,
{
    if n > 0 {
        front_approvals(front, back, event, command, n - 1);
        assert((front + back)[n - 1] == front[n - 1]);
        assert(front[n - 1].text_at("command"@) != Some(command));
    }
}

proof fn back_approvals(
    front: Seq<JsonView>,
    events: Seq<Seq<char>>,
    command: Seq<char>,
    approved_at: Seq<char>,
    script_mtime: Option<Seq<char>>,
    k: int,
    n: int,
)
    requires
        foreign_groups(front, command),
        events.no_duplicates(),
        0 <= k < events.len(),
        0 <= n <= events.len(),
    ensures
        approval_count(
            front + approvals_of(events, command, approved_at, script_mtime),
            events[k],
            command,
            front.len() as int + n,
        ) == (if k < n {
            1int
        } else {
            0
        }),
    decreases n,
{
    let back = approvals_of(events, command, approved_at, script_mtime);
    if n == 0 {
        front_approvals(front, back, events[k], command, front.len() as int);
    } else {
        back_approvals(front, events, command, approved_at, script_mtime, k, n - 1);
        assert((front + back)[front.len() + n - 1] == back[n - 1]);
        an_approval_has_its_texts(events[n - 1], command, approved_at, script_mtime);
    }
}

proof fn no_approval_is_missing(
    front: Seq<JsonView>,
    events: Seq<Seq<char>>,
    command: Seq<char>,
    approved_at: Seq<char>,
    script_mtime: Option<Seq<char>>,
    from: int,
)
    requires
        foreign_groups(front, command),
        events.no_duplicates(),
        0 <= from <= events.len(),
    ensures
        missing_approval(front + approvals_of(events, command, approved_at, script_mtime), events, command, from) is None,
    decreases events.len() - from,
{
    if from < events.len() {
        back_approvals(front, events, command, approved_at, script_mtime, from, events.len() as int);
        no_approval_is_missing(front, events, command, approved_at, script_mtime, from + 1);
    }
}

proof fn no_approval_is_stray(
    front: Seq<JsonView>,
    events: Seq<Seq<char>>,
    command: Seq<char>,
    approved_at: Seq<char>,
    script_mtime: Option<Seq<char>>,
    from: int,
)
    requires
        foreign_groups(front, command),
        0 <= from <= front.len() + events.len(),
    ensures
        stray_approval(front + approvals_of(events, command, approved_at, script_mtime), events, command, from) is None,
    decreases front.len() + events.len() - from,
{
    let back = approvals_of(events, command, approved_at, script_mtime);
    if from < front.len() + events.len() {
        no_approval_is_stray(front, events, command, approved_at, script_mtime, from + 1);
        if from < front.len() {
            assert((front + back)[from] == front[from]);
            assert(front[from].text_at("command"@) != Some(command));
        } else {
            assert((front + back)[from] == back[from - front.len()]);
            an_approval_has_its_texts(events[from - front.len()], command, approved_at, script_mtime);
            assert(events.contains(events[from - front.len()]));
        }
    }
}

/// The approvals of an allowlist.
pub open spec fn approvals_in(root: Members) -> Seq<JsonView> {
    match lookup(root, "approvals"@) {
        Some(JsonView::Array(approvals)) => approvals,
        _ => Seq::empty(),
    }
}

/// Hooks that were approved pass the verification of their approvals, whatever else is approved: the command
/// is approved on every event exactly once and nowhere else.
pub proof fn approved_hooks_verify(
    root: Members,
    events: Seq<Seq<char>>,
    previous: Option<Seq<char>>,
    command: Seq<char>,
    approved_at: Seq<char>,
    script_mtime: Option<Seq<char>>,
)
    requires
        sorted(root),
        events.no_duplicates(),
        foreign_groups(approvals_in(root), command),
        trusted(root, events, previous, command, approved_at, script_mtime) is Ok,
    ensures
        trust_error(
            trusted(root, events, previous, command, approved_at, script_mtime)->Ok_0,
            events,
            command,
        ) is None,
{
    let approvals = approvals_in(root);
    let kept = kept_groups(approvals, previous, approvals.len() as int);
    let back = approvals_of(events, command, approved_at, script_mtime);
    kept_stay_foreign(approvals, previous, command, approvals.len() as int);
    replaced(root, "approvals"@, JsonView::Array(kept + back), "approvals"@);
    no_approval_is_missing(kept, events, command, approved_at, script_mtime, 0);
    no_approval_is_stray(kept, events, command, approved_at, script_mtime, 0);
}

proof fn approvals_are_taken_out(
    front: Seq<JsonView>,
    events: Seq<Seq<char>>,
    command: Seq<char>,
    approved_at: Seq<char>,
    script_mtime: Option<Seq<char>>,
    n: int,
)
    requires
        foreign_groups(front, command),
        0 <= n <= front.len() + events.len(),
    ensures
        kept_groups(front + approvals_of(events, command, approved_at, script_mtime), Some(command), n)
            == front.take(if n < front.len() {
            n
        } else {
            front.len() as int
        }),
    decreases n,
{
    let back = approvals_of(events, command, approved_at, script_mtime);
    if n == 0 {
        assert(front.take(0) =~= Seq::empty());
    } else {
        approvals_are_taken_out(front, events, command, approved_at, script_mtime, n - 1);
        if n <= front.len() {
            assert((front + back)[n - 1] == front[n - 1]);
            assert(front[n - 1].text_at("command"@) != Some(command));
            assert(front.take(n) =~= front.take(n - 1).push(front[n - 1]));
        } else {
            assert((front + back)[n - 1] == back[n - 1 - front.len()]);
            an_approval_has_its_texts(events[n - 1 - front.len()], command, approved_at, script_mtime);
        }
    }
}

/// Taking the approvals of a command out gives back the allowlist that they were put into.
pub proof fn disapproving_undoes_approving(
    root: Members,
    events: Seq<Seq<char>>,
    command: Seq<char>,
    approved_at: Seq<char>,
    script_mtime: Option<Seq<char>>,
)
    requires
        sorted(root),
        foreign_groups(approvals_in(root), command),
        lookup(root, "approvals"@) matches Some(value) ==> value is Array && value->Array_0.len() > 0,
    ensures
        ({
            let r = trusted(root, events, None, command, approved_at, script_mtime);
            r is Ok && disapproved(r->Ok_0, Some(command)) == Ok::<Members, Seq<char>>(root)
        }),
{
    let approvals = approvals_in(root);
    let m = approvals.len() as int;
    kept_without_owner(approvals, m);
    assert(approvals.take(m) =~= approvals);
    let back = approvals_of(events, command, approved_at, script_mtime);
    if lookup(root, "approvals"@) is None {
        assert(approvals =~= Seq::empty());
        assert(kept_groups(Seq::empty(), None, 0) =~= approvals);
    }
    let all = approvals + back;
    let r = inserted(removed(root, "approvals"@), "approvals"@, JsonView::Array(all));
    approvals_are_taken_out(approvals, events, command, approved_at, script_mtime, all.len() as int);
    let left = disapproved(r, Some(command))->Ok_0;
    replaced(root, "approvals"@, JsonView::Array(all), "approvals"@);
    assert forall|k: Seq<char>| #[trigger] lookup(left, k) == lookup(root, k) by {
        replaced(root, "approvals"@, JsonView::Array(all), k);
        lookup_removed(r, "approvals"@, k);
        replaced(r, "approvals"@, JsonView::Array(approvals), k);
    }
    removed_sorted(r, "approvals"@);
    replaced(r, "approvals"@, JsonView::Array(approvals), "approvals"@);
    same_lookups(left, root);
}

/// The configuration of a transparent run differs from the user's in its hooks, its model and the server of
/// the persistent installation, which it leaves out; a server of that name that is not the relay's stays. Its
/// hooks are the user's and one for the gateway of the run on every event.
pub proof fn a_transparent_run_leaves_out_only_the_managed_server(
    profile: HermesProfile,
    root: Members,
    relay: Seq<char>,
    gateway_url: Seq<char>,
    key: Seq<char>,
)
    requires
        fresh_config(root, transparent_command(profile.platform, relay, gateway_url)),
        texts(profile.hook_events@).no_duplicates(),
        transparent(profile, root, relay, gateway_url) is Ok,
    ensures
        ({
            let r = transparent(profile, root, relay, gateway_url)->Ok_0;
            let command = transparent_command(profile.platform, relay, gateway_url);
            let owned = owned_command(profile, root, relay, None);
            &&& key != "hooks"@ && key != "mcp_servers"@ && key != "model"@ ==> lookup(r, key) == lookup(root, key)
            &&& lookup(servers_of(r), key) == (if key == MCP_SERVER_NAME@ && owned is Some {
                None
            } else {
                lookup(servers_of(root), key)
            })
            &&& lookup(hooks_of(r), key) == (if texts(profile.hook_events@).contains(key) {
                added_value(kept_value(lookup(hooks_of(root), key), owned), command)
            } else {
                kept_value(lookup(hooks_of(root), key), owned)
            })
            &&& hooks_error(r, texts(profile.hook_events@), command) is None
        }),
{
    hooks_key_is_not_servers_key();
    reveal_strlit("hooks");
    reveal_strlit("model");
    reveal_strlit("mcp_servers");
    assert("hooks"@[0] != "model"@[0]);
    assert("mcp_servers"@.len() != "model"@.len());
    let events = texts(profile.hook_events@);
    let command = transparent_command(profile.platform, relay, gateway_url);
    let owned = owned_command(profile, root, relay, None);
    let n = events.len() as int;
    // The hooks of the installation go.
    let bare = stripped(root, owned)->Ok_0;
    if lookup(root, "hooks"@) is None {
        assert(kept_hooks(Members::empty(), owned, 0) == Ok::<Members, Seq<char>>(Members::empty()));
    }
    let left = hooks_left(root, owned);
    left_hooks_are_foreign(root, owned, command);
    assert forall|k: Seq<char>| #[trigger] lookup(bare, k) == (if k != "hooks"@ {
        lookup(root, k)
    } else if left.len() == 0 {
        None
    } else {
        Some(JsonView::Object(left))
    }) by {
        if lookup(root, "hooks"@) is Some {
            lookup_removed(root, "hooks"@, k);
            replaced(root, "hooks"@, JsonView::Object(left), k);
        }
    }
    removed_sorted(root, "hooks"@);
    replaced(root, "hooks"@, JsonView::Object(left), key);
    assert(sorted(bare));
    // The server goes.
    let alone = without_server(bare, owned is Some)->Ok_0;
    assert(lookup(bare, "mcp_servers"@) == lookup(root, "mcp_servers"@));
    let servers = if owned is Some {
        removed(servers_of(root), MCP_SERVER_NAME@)
    } else {
        servers_of(root)
    };
    assert forall|k: Seq<char>| #[trigger] lookup(alone, k) == (if k != "mcp_servers"@ {
        lookup(bare, k)
    } else if servers.len() == 0 {
        None
    } else {
        Some(JsonView::Object(servers))
    }) by {
        if lookup(bare, "mcp_servers"@) is Some {
            lookup_removed(bare, "mcp_servers"@, k);
            replaced(bare, "mcp_servers"@, JsonView::Object(servers), k);
        } else {
            assert(servers =~= Members::empty());
        }
    }
    removed_sorted(bare, "mcp_servers"@);
    replaced(bare, "mcp_servers"@, JsonView::Object(servers), key);
    assert(sorted(alone));
    lookup_removed(servers_of(root), MCP_SERVER_NAME@, key);
    // The hooks of the run are added.
    assert(lookup(alone, "hooks"@) == lookup(bare, "hooks"@));
    if left.len() == 0 {
        assert(left =~= Members::empty());
    }
    added_hooks_are_taken_out(left, events, command);
    let added = added_hooks(left, events, command, n)->Ok_0;
    let with_hooks = inserted(removed(alone, "hooks"@), "hooks"@, JsonView::Object(added));
    assert(hooked(alone, events, command) == Ok::<Members, Seq<char>>(with_hooks));
    replaced(alone, "hooks"@, JsonView::Object(added), key);
    replaced(alone, "hooks"@, JsonView::Object(added), "hooks"@);
    replaced(alone, "hooks"@, JsonView::Object(added), "mcp_servers"@);
    // The model is routed.
    let model = JsonView::Object(routed_model(lookup(with_hooks, "model"@), gateway_url)->Ok_0);
    let r = inserted(removed(with_hooks, "model"@), "model"@, model);
    replaced(with_hooks, "model"@, model, key);
    replaced(with_hooks, "model"@, model, "hooks"@);
    replaced(with_hooks, "model"@, model, "mcp_servers"@);
    assert(lookup(alone, key) == (if key != "mcp_servers"@ {
        lookup(bare, key)
    } else if servers.len() == 0 {
        None
    } else {
        Some(JsonView::Object(servers))
    }));
    assert(lookup(alone, "mcp_servers"@) == (if servers.len() == 0 {
        None
    } else {
        Some(JsonView::Object(servers))
    }));
    if servers.len() == 0 {
        assert(servers =~= Members::empty());
    }
    assert(servers_of(r) == servers);
    hooks_by_event(left, events, command, n, key);
    kept_hooks_by_event(hooks_of(root), owned, key);
    assert(among(events, n, key) == events.contains(key));
    no_hook_is_missing(left, added, events, command, 0);
    no_hook_is_stray(left, added, events, command, 0);
}

/// Whether an installation succeeds does not rest on its command.
proof fn any_command_can_be_installed(
    profile: HermesProfile,
    root: Members,
    relay: Seq<char>,
    generation: Seq<char>,
    first: Seq<char>,
    second: Seq<char>,
    first_token: Seq<char>,
    second_token: Seq<char>,
    environment: Seq<Seq<char>>,
)
    requires
        fresh_config(root, second),
        texts(profile.hook_events@).no_duplicates(),
        installed(profile, root, relay, first, generation, first_token, environment) is Ok,
    ensures
        installed(profile, root, relay, second, generation, second_token, environment) is Ok,
{
    hooks_key_is_not_servers_key();
    let events = texts(profile.hook_events@);
    let n = events.len() as int;
    let owned = owned_command(profile, root, relay, Some(generation));
    let bare = stripped(root, owned)->Ok_0;
    if lookup(root, "hooks"@) is None {
        assert(kept_hooks(Members::empty(), owned, 0) == Ok::<Members, Seq<char>>(Members::empty()));
    }
    let left = hooks_left(root, owned);
    left_hooks_are_foreign(root, owned, second);
    added_hooks_are_taken_out(left, events, second);
    removed_sorted(root, "hooks"@);
    lookup_removed(root, "hooks"@, "hooks"@);
    replaced(root, "hooks"@, JsonView::Object(left), "hooks"@);
    if left.len() == 0 {
        assert(left =~= Members::empty());
    }
    assert(sorted(bare));
    let added = added_hooks(left, events, second, n)->Ok_0;
    let before = added_hooks(left, events, first, n)->Ok_0;
    replaced(bare, "hooks"@, JsonView::Object(added), "mcp_servers"@);
    replaced(bare, "hooks"@, JsonView::Object(before), "mcp_servers"@);
}

/// The hooks of an installation know nothing of another command that was unknown before.
proof fn an_installation_has_one_command(
    profile: HermesProfile,
    root: Members,
    relay: Seq<char>,
    command: Seq<char>,
    other: Seq<char>,
    generation: Seq<char>,
    token: Seq<char>,
    environment: Seq<Seq<char>>,
)
    requires
        fresh_config(root, command),
        foreign_hooks(hooks_left(root, owned_command(profile, root, relay, Some(generation))), other),
        other != command,
        texts(profile.hook_events@).no_duplicates(),
        installed(profile, root, relay, command, generation, token, environment) is Ok,
    ensures
        fresh_config(installed(profile, root, relay, command, generation, token, environment)->Ok_0, other),
{
    let events = texts(profile.hook_events@);
    let n = events.len() as int;
    let server = expected_server(profile, relay, generation, token, environment);
    let r = install_result(profile, root, relay, command, generation, token, environment);
    let left = hooks_left(root, owned_command(profile, root, relay, Some(generation)));
    let added = added_hooks(left, events, command, n)->Ok_0;
    hooks_by_event(left, events, command, n, Seq::empty());
    inserted_sorted(servers_of(root), MCP_SERVER_NAME@, server);
    a_hook_group_has_its_command(command);
    assert forall|i: int| 0 <= i < added.len() && (#[trigger] added[i]).1 is Array implies foreign_groups(
        added[i].1->Array_0,
        other,
    ) by {
        lookup_sorted(added, i);
        hooks_by_event(left, events, command, n, added[i].0);
        foreign_value(left, other, added[i].0);
    }
}

/// Installing again, with the token of a new generation and so with other hooks, comes to the same as if only the
/// last installation had been made: each event has one hook of the last, none of the first, and nothing has grown.
pub proof fn installing_again_replaces_the_installation(
    profile: HermesProfile,
    root: Members,
    relay: Seq<char>,
    generation: Seq<char>,
    first: Seq<char>,
    second: Seq<char>,
    environment: Seq<Seq<char>>,
)
    requires
        fresh_config(root, persistent_command(profile.platform, relay, generation, first)),
        fresh_config(root, persistent_command(profile.platform, relay, generation, second)),
        texts(profile.hook_events@).no_duplicates(),
        distinct_names(profile),
        free_names(profile, environment),
        first.len() > 0,
        second.len() > 0,
        persistent_command(profile.platform, relay, generation, first) != persistent_command(
            profile.platform,
            relay,
            generation,
            second,
        ),
        installed(
            profile,
            root,
            relay,
            persistent_command(profile.platform, relay, generation, first),
            generation,
            first,
            environment,
        ) is Ok,
    ensures
        ({
            let gone = persistent_command(profile.platform, relay, generation, first);
            let command = persistent_command(profile.platform, relay, generation, second);
            let once = installed(profile, root, relay, gone, generation, first, environment)->Ok_0;
            let twice = installed(profile, once, relay, command, generation, second, environment);
            &&& twice is Ok
            &&& twice == installed(profile, root, relay, command, generation, second, environment)
            &&& relay_server(twice->Ok_0) == Some(expected_server(profile, relay, generation, second, environment))
            &&& hooks_error(twice->Ok_0, texts(profile.hook_events@), command) is None
            &&& fresh_config(twice->Ok_0, gone)
        }),
{
    hooks_key_is_not_servers_key();
    let events = texts(profile.hook_events@);
    let n = events.len() as int;
    let old_command = persistent_command(profile.platform, relay, generation, first);
    let new_command = persistent_command(profile.platform, relay, generation, second);
    let owned = owned_command(profile, root, relay, Some(generation));
    let servers = servers_of(root);
    let old_server = expected_server(profile, relay, generation, first, environment);
    let new_server = expected_server(profile, relay, generation, second, environment);
    let left = hooks_left(root, owned);
    any_command_can_be_installed(
        profile,
        root,
        relay,
        generation,
        old_command,
        new_command,
        first,
        second,
        environment,
    );
    // The first installation, over which the second comes.
    let once = install_result(profile, root, relay, old_command, generation, first, environment);
    left_hooks_are_foreign(root, owned, new_command);
    an_installation_has_one_command(
        profile,
        root,
        relay,
        old_command,
        new_command,
        generation,
        first,
        environment,
    );
    lookup_inserted(servers, MCP_SERVER_NAME@, old_server, MCP_SERVER_NAME@);
    a_server_proves_its_installation(profile, once, relay, generation, first, environment);
    added_hooks_are_taken_out(left, events, old_command);
    assert(hooks_left(once, Some(old_command)) == left);
    an_install_over_another_succeeds(profile, root, once, relay, generation, first, second, environment);
    // What the second comes to, over the first and without it.
    let twice = install_result(profile, once, relay, new_command, generation, second, environment);
    let alone = install_result(profile, root, relay, new_command, generation, second, environment);
    let kept = inserted(servers, MCP_SERVER_NAME@, old_server);
    inserted_sorted(servers, MCP_SERVER_NAME@, old_server);
    inserted_sorted(kept, MCP_SERVER_NAME@, new_server);
    inserted_sorted(servers, MCP_SERVER_NAME@, new_server);
    assert forall|k: Seq<char>| #[trigger]
        lookup(inserted(kept, MCP_SERVER_NAME@, new_server), k) == lookup(
            inserted(servers, MCP_SERVER_NAME@, new_server),
            k,
        ) by {
        lookup_inserted(kept, MCP_SERVER_NAME@, new_server, k);
        lookup_inserted(servers, MCP_SERVER_NAME@, old_server, k);
        lookup_inserted(servers, MCP_SERVER_NAME@, new_server, k);
    }
    same_lookups(inserted(kept, MCP_SERVER_NAME@, new_server), inserted(servers, MCP_SERVER_NAME@, new_server));
    assert forall|k: Seq<char>| #[trigger] lookup(twice, k) == lookup(alone, k) by {
        if k != "hooks"@ && k != "mcp_servers"@ {
            assert(lookup(twice, k) == lookup(once, k));
            assert(lookup(once, k) == lookup(root, k));
            assert(lookup(alone, k) == lookup(root, k));
        }
    }
    same_lookups(twice, alone);
    an_installation_verifies(profile, root, relay, new_command, generation, second, environment);
    left_hooks_are_foreign(root, owned, old_command);
    an_installation_has_one_command(
        profile,
        root,
        relay,
        new_command,
        old_command,
        generation,
        second,
        environment,
    );
}

proof fn an_install_over_another_succeeds(
    profile: HermesProfile,
    root: Members,
    once: Members,
    relay: Seq<char>,
    generation: Seq<char>,
    first: Seq<char>,
    second: Seq<char>,
    environment: Seq<Seq<char>>,
)
    requires
        sorted(once),
        owned_command(profile, once, relay, Some(generation)) == Some(persistent_command(profile.platform, relay, generation, first)),
        lookup(once, "hooks"@) is Some && lookup(once, "hooks"@)->Some_0 is Object,
        lookup(once, "mcp_servers"@) is Some && lookup(once, "mcp_servers"@)->Some_0 is Object,
        kept_hooks(
            hooks_of(once),
            Some(persistent_command(profile.platform, relay, generation, first)),
            hooks_of(once).len() as int,
        ) is Ok,
        foreign_hooks(
            hooks_left(once, Some(persistent_command(profile.platform, relay, generation, first))),
            persistent_command(profile.platform, relay, generation, second),
        ),
        texts(profile.hook_events@).no_duplicates(),
    ensures
        installed(
            profile,
            once,
            relay,
            persistent_command(profile.platform, relay, generation, second),
            generation,
            second,
            environment,
        ) is Ok,
{
    hooks_key_is_not_servers_key();
    let events = texts(profile.hook_events@);
    let command = persistent_command(profile.platform, relay, generation, second);
    let owned = Some(persistent_command(profile.platform, relay, generation, first));
    let left = hooks_left(once, owned);
    let bare = stripped(once, owned)->Ok_0;
    added_hooks_are_taken_out(left, events, command);
    let added = added_hooks(left, events, command, events.len() as int)->Ok_0;
    removed_sorted(once, "hooks"@);
    lookup_removed(once, "hooks"@, "hooks"@);
    lookup_removed(once, "hooks"@, "mcp_servers"@);
    replaced(once, "hooks"@, JsonView::Object(left), "hooks"@);
    replaced(once, "hooks"@, JsonView::Object(left), "mcp_servers"@);
    if left.len() == 0 {
        assert(left =~= Members::empty());
    }
    replaced(bare, "hooks"@, JsonView::Object(added), "mcp_servers"@);
}

/// Approving the hooks of a new installation, in place of those of the one before, comes to the same as if only
/// the last had been approved: each event has one approval of the last, and nothing has grown.
pub proof fn approving_again_replaces_the_approvals(
    root: Members,
    events: Seq<Seq<char>>,
    previous: Option<Seq<char>>,
    first: Seq<char>,
    second: Seq<char>,
    first_at: Seq<char>,
    second_at: Seq<char>,
    first_mtime: Option<Seq<char>>,
    second_mtime: Option<Seq<char>>,
)
    requires
        sorted(root),
        foreign_groups(approvals_in(root), first),
        trusted(root, events, previous, first, first_at, first_mtime) is Ok,
    ensures
        ({
            let once = trusted(root, events, previous, first, first_at, first_mtime)->Ok_0;
            let twice = trusted(once, events, Some(first), second, second_at, second_mtime);
            twice is Ok && twice == trusted(root, events, previous, second, second_at, second_mtime)
        }),
{
    let approvals = approvals_in(root);
    let kept = kept_groups(approvals, previous, approvals.len() as int);
    let all = kept + approvals_of(events, first, first_at, first_mtime);
    let last = kept + approvals_of(events, second, second_at, second_mtime);
    let once = inserted(removed(root, "approvals"@), "approvals"@, JsonView::Array(all));
    kept_stay_foreign(approvals, previous, first, approvals.len() as int);
    approvals_are_taken_out(kept, events, first, first_at, first_mtime, all.len() as int);
    assert(kept.take(kept.len() as int) =~= kept);
    replaced(root, "approvals"@, JsonView::Array(all), "approvals"@);
    let twice = inserted(removed(once, "approvals"@), "approvals"@, JsonView::Array(last));
    let alone = inserted(removed(root, "approvals"@), "approvals"@, JsonView::Array(last));
    assert forall|k: Seq<char>| #[trigger] lookup(twice, k) == lookup(alone, k) by {
        replaced(root, "approvals"@, JsonView::Array(all), k);
        replaced(once, "approvals"@, JsonView::Array(last), k);
        replaced(root, "approvals"@, JsonView::Array(last), k);
    }
    replaced(once, "approvals"@, JsonView::Array(last), Seq::empty());
    replaced(root, "approvals"@, JsonView::Array(last), Seq::empty());
    same_lookups(twice, alone);
}

/// A second installation writes what it would have written without the first, file by file. `config` and `allowlist`
/// are what the files held before, where they existed; `first_config` and `first_allowlist` are what the first
/// installation wrote, as it is read again.
pub proof fn a_second_installation_writes_what_one_would(
    profile: HermesProfile,
    root: Members,
    approvals: Members,
    relay: Seq<char>,
    generation: Seq<char>,
    first: Seq<char>,
    second: Seq<char>,
    environment: Seq<Seq<char>>,
    first_time: ApprovalTime,
    second_time: ApprovalTime,
    config: Option<Seq<char>>,
    allowlist: Option<Seq<char>>,
    first_config: Seq<char>,
    first_allowlist: Seq<char>,
)
    requires
        yaml_object(config, "Hermes config"@) == Ok::<Members, Seq<char>>(root),
        json_text_object(allowlist, "Hermes shell-hook allowlist"@) == Ok::<Members, Seq<char>>(approvals),
        fresh_config(root, persistent_command(profile.platform, relay, generation, first)),
        fresh_config(root, persistent_command(profile.platform, relay, generation, second)),
        sorted(approvals),
        foreign_groups(
            approvals_in(approvals),
            persistent_command(profile.platform, relay, generation, first),
        ),
        texts(profile.hook_events@).no_duplicates(),
        distinct_names(profile),
        free_names(profile, environment),
        first.len() > 0,
        second.len() > 0,
        persistent_command(profile.platform, relay, generation, first) != persistent_command(
            profile.platform,
            relay,
            generation,
            second,
        ),
        install_texts(profile, generation, relay, environment, config, allowlist, first, first_time) is Ok,
        yaml_object(Some(first_config), "Hermes config"@) == installed(
            profile,
            root,
            relay,
            persistent_command(profile.platform, relay, generation, first),
            generation,
            first,
            environment,
        ),
        json_text_object(Some(first_allowlist), "Hermes shell-hook allowlist"@) == trusted(
            approvals,
            texts(profile.hook_events@),
            owned_command(profile, root, relay, Some(generation)),
            persistent_command(profile.platform, relay, generation, first),
            first_time.approved_at@,
            opt_text(first_time.script_mtime),
        ),
    ensures
        install_texts(
            profile,
            generation,
            relay,
            environment,
            Some(first_config),
            Some(first_allowlist),
            second,
            second_time,
        ) == install_texts(profile, generation, relay, environment, config, allowlist, second, second_time),
{
    let events = texts(profile.hook_events@);
    let gone = persistent_command(profile.platform, relay, generation, first);
    let command = persistent_command(profile.platform, relay, generation, second);
    installing_again_replaces_the_installation(profile, root, relay, generation, first, second, environment);
    approving_again_replaces_the_approvals(
        approvals,
        events,
        owned_command(profile, root, relay, Some(generation)),
        gone,
        command,
        first_time.approved_at@,
        second_time.approved_at@,
        opt_text(first_time.script_mtime),
        opt_text(second_time.script_mtime),
    );
    let once = install_result(profile, root, relay, gone, generation, first, environment);
    let server = expected_server(profile, relay, generation, first, environment);
    lookup_inserted(servers_of(root), MCP_SERVER_NAME@, server, MCP_SERVER_NAME@);
    a_server_proves_its_installation(profile, once, relay, generation, first, environment);
}

/// A removal leaves the files that were there before the installation: it writes what these held, or removes a
/// file that held nothing. `config` and `allowlist` are what the installation wrote, as it is read again.
pub proof fn a_removal_leaves_what_was_there(
    profile: HermesProfile,
    root: Members,
    approvals: Members,
    relay: Seq<char>,
    generation: Seq<char>,
    token: Seq<char>,
    environment: Seq<Seq<char>>,
    approved_at: Seq<char>,
    script_mtime: Option<Seq<char>>,
    config: Seq<char>,
    allowlist: Seq<char>,
)
    requires
        foreign_config(root, persistent_command(profile.platform, relay, generation, token)),
        sorted(approvals),
        foreign_groups(approvals_in(approvals), persistent_command(profile.platform, relay, generation, token)),
        lookup(approvals, "approvals"@) matches Some(value) ==> value is Array && value->Array_0.len() > 0,
        texts(profile.hook_events@).no_duplicates(),
        texts(profile.hook_events@).len() > 0,
        distinct_names(profile),
        free_names(profile, environment),
        token.len() > 0,
        yaml_object(Some(config), "Hermes config"@) == installed(
            profile,
            root,
            relay,
            persistent_command(profile.platform, relay, generation, token),
            generation,
            token,
            environment,
        ),
        json_text_object(Some(allowlist), "Hermes shell-hook allowlist"@) == trusted(
            approvals,
            texts(profile.hook_events@),
            None,
            persistent_command(profile.platform, relay, generation, token),
            approved_at,
            script_mtime,
        ),
    ensures
        ({
            let owned = removed_command(profile, Some(config), generation);
            &&& owned == Some(persistent_command(profile.platform, relay, generation, token))
            &&& left_config(profile, Some(config), generation) == (if root.len() == 0 {
                Ok(None)
            } else {
                match yaml_text(JsonView::Object(root)) {
                    Ok(text) => Ok(Some(text)),
                    Err(error) => Err(error),
                }
            })
            &&& left_allowlist(Some(allowlist), owned) == (if approvals.len() == 0 {
                Ok(None)
            } else {
                match json_pretty_text(JsonView::Object(approvals)) {
                    Ok(text) => Ok(Some(text + "\n"@)),
                    Err(error) => Err(error),
                }
            })
        }),
{
    let events = texts(profile.hook_events@);
    let command = persistent_command(profile.platform, relay, generation, token);
    uninstalling_undoes_installing(profile, root, relay, generation, token, environment);
    disapproving_undoes_approving(approvals, events, command, approved_at, script_mtime);
    install_in_foreign_config(profile, root, relay, command, generation, token, environment);
    let r = install_result(profile, root, relay, command, generation, token, environment);
    let server = expected_server(profile, relay, generation, token, environment);
    lookup_inserted(servers_of(root), MCP_SERVER_NAME@, server, MCP_SERVER_NAME@);
    a_server_proves_its_installation(profile, r, relay, generation, token, environment);
    server_holds(profile, relay, generation, token, environment);
}

/// A transparent run is the same beside a persistent installation as without one: its configuration has one hook
/// for the gateway of the run on every event, and neither the server nor a hook of the installation, whatever
/// event `key` is.
pub proof fn a_transparent_run_knows_no_installation(
    profile: HermesProfile,
    root: Members,
    relay: Seq<char>,
    generation: Seq<char>,
    token: Seq<char>,
    environment: Seq<Seq<char>>,
    gateway_url: Seq<char>,
    key: Seq<char>,
)
    requires
        foreign_config(root, persistent_command(profile.platform, relay, generation, token)),
        fresh_config(root, transparent_command(profile.platform, relay, gateway_url)),
        persistent_command(profile.platform, relay, generation, token) != transparent_command(
            profile.platform,
            relay,
            gateway_url,
        ),
        texts(profile.hook_events@).no_duplicates(),
        texts(profile.hook_events@).len() > 0,
        distinct_names(profile),
        free_names(profile, environment),
        token.len() > 0,
    ensures
        ({
            let command = persistent_command(profile.platform, relay, generation, token);
            let r = installed(profile, root, relay, command, generation, token, environment);
            let run = transparent(profile, root, relay, gateway_url);
            &&& r is Ok
            &&& transparent(profile, r->Ok_0, relay, gateway_url) == run
            &&& run is Ok ==> {
                &&& relay_server(run->Ok_0) is None
                &&& hooks_error(run->Ok_0, texts(profile.hook_events@), transparent_command(profile.platform, relay, gateway_url)) is None
                &&& lookup(hooks_of(run->Ok_0), key) matches Some(JsonView::Array(groups)) ==> foreign_groups(
                    groups,
                    command,
                )
            }
        }),
{
    hooks_key_is_not_servers_key();
    let command = persistent_command(profile.platform, relay, generation, token);
    let server = expected_server(profile, relay, generation, token, environment);
    uninstalling_undoes_installing(profile, root, relay, generation, token, environment);
    install_in_foreign_config(profile, root, relay, command, generation, token, environment);
    let r = install_result(profile, root, relay, command, generation, token, environment);
    lookup_inserted(servers_of(root), MCP_SERVER_NAME@, server, MCP_SERVER_NAME@);
    a_server_proves_its_installation(profile, r, relay, generation, token, environment);
    server_holds(profile, relay, generation, token, environment);
    assert(configured_command(profile, r, Some(generation)) == Some(command));
    // Where there is no installation, nothing is taken out.
    let hooks = hooks_of(root);
    let servers = servers_of(root);
    let bare = stripped(root, None)->Ok_0;
    kept_foreign_hooks_stay(root, command);
    assert forall|k: Seq<char>| #[trigger] lookup(bare, k) == lookup(root, k) by {
        if lookup(root, "hooks"@) is Some {
            replaced(root, "hooks"@, JsonView::Object(hooks), k);
        }
    }
    replaced(root, "hooks"@, JsonView::Object(hooks), Seq::empty());
    same_lookups(bare, root);
    let alone = without_server(root, false)->Ok_0;
    assert forall|k: Seq<char>| #[trigger] lookup(alone, k) == lookup(root, k) by {
        if lookup(root, "mcp_servers"@) is Some {
            replaced(root, "mcp_servers"@, JsonView::Object(servers), k);
        }
    }
    replaced(root, "mcp_servers"@, JsonView::Object(servers), Seq::empty());
    same_lookups(alone, root);
    // What the run has.
    let run = transparent(profile, root, relay, gateway_url);
    if run is Ok {
        let own = transparent_command(profile.platform, relay, gateway_url);
        a_transparent_run_leaves_out_only_the_managed_server(profile, root, relay, gateway_url, key);
        a_transparent_run_leaves_out_only_the_managed_server(profile, root, relay, gateway_url, MCP_SERVER_NAME@);
        assert(lookup(servers_of(run->Ok_0), MCP_SERVER_NAME@) is None);
        a_hook_group_has_its_command(own);
        foreign_value(hooks, command, key);
        if let Some(JsonView::Array(groups)) = lookup(hooks, key) {
            kept_stay_foreign(groups, None, command, groups.len() as int);
        }
    }
}

/// The configuration of a transparent run is the same text beside a persistent installation as without one.
/// `installed_config` is what the installation wrote over `config`, as it is read again.
pub proof fn a_transparent_run_writes_the_same_text(
    profile: HermesProfile,
    root: Members,
    relay: Seq<char>,
    generation: Seq<char>,
    token: Seq<char>,
    environment: Seq<Seq<char>>,
    gateway_url: Seq<char>,
    config: Seq<char>,
    installed_config: Seq<char>,
)
    requires
        yaml_object(Some(config), "Hermes config"@) == Ok::<Members, Seq<char>>(root),
        yaml_object(Some(installed_config), "Hermes config"@) == installed(
            profile,
            root,
            relay,
            persistent_command(profile.platform, relay, generation, token),
            generation,
            token,
            environment,
        ),
        foreign_config(root, persistent_command(profile.platform, relay, generation, token)),
        fresh_config(root, transparent_command(profile.platform, relay, gateway_url)),
        persistent_command(profile.platform, relay, generation, token) != transparent_command(
            profile.platform,
            relay,
            gateway_url,
        ),
        texts(profile.hook_events@).no_duplicates(),
        texts(profile.hook_events@).len() > 0,
        distinct_names(profile),
        free_names(profile, environment),
        token.len() > 0,
    ensures
        transparent_text(profile, installed_config, relay, gateway_url) == transparent_text(
            profile,
            config,
            relay,
            gateway_url,
        ),
{
    a_transparent_run_knows_no_installation(
        profile,
        root,
        relay,
        generation,
        token,
        environment,
        gateway_url,
        Seq::empty(),
    );
}

proof fn kept_foreign_hooks_stay(root: Members, command: Seq<char>)
    requires
        foreign_config(root, command),
    ensures
        kept_hooks(hooks_of(root), None, hooks_of(root).len() as int) == Ok::<Members, Seq<char>>(hooks_of(root)),
{
    let hooks = hooks_of(root);
    kept_foreign_hooks(hooks, hooks.len() as int);
    assert(hooks.take(hooks.len() as int) =~= hooks);
}

} // verus!
