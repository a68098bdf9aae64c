//! What the metadata of a subagent tells.

use crate::hermes::alignment::{
    base_members, child_paths, context_of, extra_paths, is_context, owner_keys, owner_metadata_of, parent_paths,
        picked,
    scope_metadata_of, subagent_paths, with_optional, ContextView, SubagentContext,
};
use crate::json::{
    an_object_holds_no_more, an_object_tells_its_pairs, lookup_extended, members_of, pairs_in_order, JsonView,
        Members,
};
use crate::json_paths::{
    a_key_leads_to_its_text, first_text, or_told, text_behind, told, told_within, two_keys_lead_to_their_text,
    value_behind,
};
use crate::ordered::{
    has_key, inserted, inserted_sorted, lookup, lookup_inserted, sorted,
};
use crate::text::opt_text;
use vstd::prelude::*;
use vstd::string::*;

verus! {

proof fn keys_differ()
    ensures
        ({
            let keys = owner_keys().push("session_id"@);
            keys.len() == 10 && keys.no_duplicates()
        }),
{
    reveal_strlit("thread_source");
    reveal_strlit("subagent_id");
    reveal_strlit("subagent_session_id");
    reveal_strlit("hermes_parent_session_id");
    reveal_strlit("hermes_subagent_session_id");
    reveal_strlit("hermes_child_subagent_id");
    reveal_strlit("hermes_parent_turn_id");
    reveal_strlit("child_role");
    reveal_strlit("child_goal");
    reveal_strlit("session_id");
    let keys = owner_keys().push("session_id"@);
    assert(keys[0].len() == 13 && keys[1].len() == 11 && keys[2].len() == 19 && keys[3].len() == 24 && keys[4].len()
        == 26 && keys[5].len() == 24 && keys[6].len() == 21 && keys[7].len() == 10 && keys[8].len() == 10
        && keys[9].len() == 10);
    assert(keys[3][7] != keys[5][7]);
    assert(keys[7][6] != keys[8][6]);
    assert(keys[7][0] != keys[9][0]);
    assert(keys[8][0] != keys[9][0]);
    assert forall|i: int, j: int| 0 <= i < keys.len() && 0 <= j < keys.len() && i != j
        implies keys[i] != keys[j] by {}
}

proof fn optional_keeps(members: Members, added: Seq<char>, value: Option<Seq<char>>, key: Seq<char>)
    requires
        sorted(members),
    ensures
        sorted(with_optional(members, added, value)),
        key != added ==> lookup(with_optional(members, added, value), key) == lookup(members, key),
{
    if value is Some {
        inserted_sorted(members, added, JsonView::Text(value->Some_0));
        lookup_inserted(members, added, JsonView::Text(value->Some_0), key);
    }
}

/// The value of the key at place `i` among those that every subagent has.
spec fn base_value(context: ContextView, i: int) -> JsonView {
    seq![
        JsonView::Text("subagent"@),
        JsonView::Text(context.subagent_id),
        JsonView::Text(context.child_session_id),
        JsonView::Text(context.parent_session_id),
        JsonView::Text(context.child_session_id),
        JsonView::Text(context.subagent_id),
    ][i]
}

proof fn pairs_lookup(pairs: Members, n: int, i: int)
    requires
        0 <= i < n <= pairs.len(),
        forall|a: int, b: int| 0 <= a < b < pairs.len() ==> (#[trigger] pairs[a]).0 != (#[trigger] pairs[b]).0,
    ensures
        sorted(members_of(pairs.take(n))),
        lookup(members_of(pairs.take(n)), pairs[i].0) == Some(pairs[i].1),
    decreases n,
{
    pairs_in_order(pairs.take(n));
    pairs_in_order(pairs.take(n - 1));
    assert(pairs.take(n).drop_last() =~= pairs.take(n - 1));
    lookup_inserted(members_of(pairs.take(n - 1)), pairs[n - 1].0, pairs[n - 1].1, pairs[i].0);
    if i < n - 1 {
        pairs_lookup(pairs, n - 1, i);
        assert(pairs[i].0 != pairs[n - 1].0);
    }
}

proof fn base_lookup(context: ContextView, i: int)
    requires
        0 <= i < 6,
    ensures
        sorted(base_members(context)),
        lookup(base_members(context), owner_keys()[i]) == Some(base_value(context, i)),
{
    keys_differ();
    let pairs = seq![
        ("thread_source"@, JsonView::Text("subagent"@)),
        ("subagent_id"@, JsonView::Text(context.subagent_id)),
        ("subagent_session_id"@, JsonView::Text(context.child_session_id)),
        ("hermes_parent_session_id"@, JsonView::Text(context.parent_session_id)),
        ("hermes_subagent_session_id"@, JsonView::Text(context.child_session_id)),
        ("hermes_child_subagent_id"@, JsonView::Text(context.subagent_id)),
    ];
    let keys = owner_keys().push("session_id"@);
    assert forall|a: int, b: int| 0 <= a < b < pairs.len()
        implies (#[trigger] pairs[a]).0 != (#[trigger] pairs[b]).0 by {
        assert(keys[a] == pairs[a].0 && keys[b] == pairs[b].0);
    }
    assert(pairs.take(6) =~= pairs);
    pairs_lookup(pairs, 6, i);
    let members = members_of(pairs);
    let key = keys[i];
    assert(key != keys[6] && key != keys[7] && key != keys[8]);
    assert(keys[i] == pairs[i].0);
    optional_keeps(members, "hermes_parent_turn_id"@, context.parent_turn_id, key);
    let one = with_optional(members, "hermes_parent_turn_id"@, context.parent_turn_id);
    optional_keeps(one, "child_role"@, context.child_role, key);
    let two = with_optional(one, "child_role"@, context.child_role);
    optional_keeps(two, "child_goal"@, context.child_goal, key);
}

/// The metadata of a subagent's scope names the subagent, its session and its parent's, whatever the metadata
/// of the event says of them; all else in that stays.
pub proof fn a_scope_names_its_subagent(metadata: JsonView, context: ContextView, key: Seq<char>)
    requires
        metadata matches JsonView::Object(members) ==> sorted(members),
    ensures
        scope_metadata_of(metadata, context) is Object,
        ({
            let scope = scope_metadata_of(metadata, context)->Object_0;
            &&& lookup(scope, "session_id"@) == Some(JsonView::Text(context.child_session_id))
            &&& lookup(scope, "thread_source"@) == Some(JsonView::Text("subagent"@))
            &&& lookup(scope, "subagent_id"@) == Some(JsonView::Text(context.subagent_id))
            &&& lookup(scope, "subagent_session_id"@) == Some(JsonView::Text(context.child_session_id))
            &&& lookup(scope, "hermes_parent_session_id"@) == Some(JsonView::Text(context.parent_session_id))
            &&& !has_key(inserted(base_members(context), "session_id"@, JsonView::Text(context.child_session_id)),
                key)
                ==> (match metadata {
                JsonView::Object(members) => lookup(scope, key) == lookup(members, key),
                _ => lookup(scope, key) is None,
            })
        }),
{
    let session = JsonView::Text(context.child_session_id);
    let base = base_members(context);
    let overlay = inserted(base, "session_id"@, session);
    let keys = owner_keys().push("session_id"@);
    keys_differ();
    base_lookup(context, 0);
    base_lookup(context, 1);
    base_lookup(context, 2);
    base_lookup(context, 3);
    inserted_sorted(base, "session_id"@, session);
    lookup_inserted(base, "session_id"@, session, "session_id"@);
    assert forall|i: int| 0 <= i < 4 implies lookup(overlay, #[trigger] owner_keys()[i]) == Some(
        base_value(context, i),
    ) by {
        assert(keys[i] != keys[9]);
        assert(keys[i] == owner_keys()[i]);
        lookup_inserted(base, "session_id"@, session, owner_keys()[i]);
    }
    assert(owner_keys()[0] == "thread_source"@ && owner_keys()[1] == "subagent_id"@ && owner_keys()[2]
        == "subagent_session_id"@ && owner_keys()[3] == "hermes_parent_session_id"@);
    if let JsonView::Object(members) = metadata {
        lookup_extended(members, overlay, "session_id"@);
        lookup_extended(members, overlay, "thread_source"@);
        lookup_extended(members, overlay, "subagent_id"@);
        lookup_extended(members, overlay, "subagent_session_id"@);
        lookup_extended(members, overlay, "hermes_parent_session_id"@);
        lookup_extended(members, overlay, key);
    }
}

proof fn lookup_picked(members: Members, keys: Seq<Seq<char>>, n: int, key: Seq<char>)
    requires
        0 <= n <= keys.len(),
    ensures
        sorted(picked(members, keys, n)),
        lookup(picked(members, keys, n), key) == (if keys.take(n).contains(key) && lookup(members, key) != Some(
            JsonView::Null,
        ) {
            lookup(members, key)
        } else {
            None
        }),
    decreases n,
{
    if n == 0 {
        assert(keys.take(0) =~= Seq::empty());
    } else {
        lookup_picked(members, keys, n - 1, key);
        lookup_picked(members, keys, n - 1, keys[n - 1]);
        let before = picked(members, keys, n - 1);
        assert(keys.take(n) =~= keys.take(n - 1).push(keys[n - 1]));
        assert(keys.take(n).contains(key) == (keys.take(n - 1).contains(key) || keys[n - 1] == key)) by {
            if keys[n - 1] == key {
                assert(keys.take(n)[n - 1] == key);
            }
            if keys.take(n - 1).contains(key) {
                let front = keys.take(n - 1);
                let i = choose|i: int| 0 <= i < front.len() && #[trigger] front[i] == key;
                assert(keys.take(n)[i] == key);
            }
        }
        if let Some(value) = lookup(members, keys[n - 1]) {
            inserted_sorted(before, keys[n - 1], value);
            lookup_inserted(before, keys[n - 1], value, key);
        }
    }
}

/// The model calls of a subagent carry the members of its scope that name it, as they stand there, and nothing
/// else of the scope.
pub proof fn model_calls_carry_what_names_the_subagent(scope: Members, key: Seq<char>)
    ensures
        ({
            let own = owner_metadata_of(Some(JsonView::Object(scope)));
            own.get(key) == (if owner_keys().contains(key) && lookup(scope, key) != Some(JsonView::Null) {
                lookup(scope, key)
            } else {
                None
            })
        }),
{
    let n = owner_keys().len() as int;
    assert(owner_keys().take(n) =~= owner_keys());
    lookup_picked(scope, owner_keys(), n, key);
}

/// The child session that a payload or metadata names.
pub open spec fn told_child(value: JsonView) -> Option<Seq<char>> {
    let name = told(value, "child_session_id"@);
    let name = or_told(name, told(value, "childSessionId"@));
    let name = or_told(name, told(value, "subagent_session_id"@));
    let name = or_told(name, told(value, "subagentSessionId"@));
    let name = or_told(name, told_within(value, "extra"@, "child_session_id"@));
    let name = or_told(name, told_within(value, "extra"@, "childSessionId"@));
    let name = or_told(name, told_within(value, "extra"@, "subagent_session_id"@));
    or_told(name, told_within(value, "extra"@, "subagentSessionId"@))
}

/// The subagent that a payload or metadata names.
pub open spec fn told_subagent(value: JsonView) -> Option<Seq<char>> {
    let name = told(value, "child_subagent_id"@);
    let name = or_told(name, told(value, "childSubagentId"@));
    let name = or_told(name, told(value, "subagent_id"@));
    let name = or_told(name, told(value, "subagentId"@));
    let name = or_told(name, told(value, "agent_id"@));
    let name = or_told(name, told_within(value, "extra"@, "child_subagent_id"@));
    let name = or_told(name, told_within(value, "extra"@, "childSubagentId"@));
    let name = or_told(name, told_within(value, "extra"@, "subagent_id"@));
    let name = or_told(name, told_within(value, "extra"@, "subagentId"@));
    or_told(name, told_within(value, "extra"@, "agent_id"@))
}

/// The parent session that a payload or metadata names.
pub open spec fn told_parent(value: JsonView) -> Option<Seq<char>> {
    let name = told(value, "parent_session_id"@);
    let name = or_told(name, told(value, "parentSessionId"@));
    let name = or_told(name, told_within(value, "parent"@, "session_id"@));
    let name = or_told(name, told_within(value, "extra"@, "parent_session_id"@));
    let name = or_told(name, told_within(value, "extra"@, "parentSessionId"@));
    or_told(name, told_deep(value))
}

/// The parent session that stands in `parent` under `extra`.
pub open spec fn told_deep(value: JsonView) -> Option<Seq<char>> {
    match value.get("extra"@) {
        Some(extra) => told_within(extra, "parent"@, "session_id"@),
        None => None,
    }
}

proof fn children_are_told(value: JsonView)
    ensures
        first_text(value, child_paths(), 0) == told_child(value),
{
    reveal_with_fuel(first_text, 9);
    a_key_leads_to_its_text(value, "child_session_id"@);
    a_key_leads_to_its_text(value, "childSessionId"@);
    a_key_leads_to_its_text(value, "subagent_session_id"@);
    a_key_leads_to_its_text(value, "subagentSessionId"@);
    two_keys_lead_to_their_text(value, "extra"@, "child_session_id"@);
    two_keys_lead_to_their_text(value, "extra"@, "childSessionId"@);
    two_keys_lead_to_their_text(value, "extra"@, "subagent_session_id"@);
    two_keys_lead_to_their_text(value, "extra"@, "subagentSessionId"@);
}

proof fn subagents_are_told(value: JsonView)
    ensures
        first_text(value, subagent_paths(), 0) == told_subagent(value),
{
    reveal_with_fuel(first_text, 11);
    a_key_leads_to_its_text(value, "child_subagent_id"@);
    a_key_leads_to_its_text(value, "childSubagentId"@);
    a_key_leads_to_its_text(value, "subagent_id"@);
    a_key_leads_to_its_text(value, "subagentId"@);
    a_key_leads_to_its_text(value, "agent_id"@);
    two_keys_lead_to_their_text(value, "extra"@, "child_subagent_id"@);
    two_keys_lead_to_their_text(value, "extra"@, "childSubagentId"@);
    two_keys_lead_to_their_text(value, "extra"@, "subagent_id"@);
    two_keys_lead_to_their_text(value, "extra"@, "subagentId"@);
    two_keys_lead_to_their_text(value, "extra"@, "agent_id"@);
}

proof fn parents_are_told(value: JsonView)
    ensures
        first_text(value, parent_paths(), 0) == told_parent(value),
{
    reveal_with_fuel(first_text, 7);
    a_key_leads_to_its_text(value, "parent_session_id"@);
    a_key_leads_to_its_text(value, "parentSessionId"@);
    two_keys_lead_to_their_text(value, "parent"@, "session_id"@);
    two_keys_lead_to_their_text(value, "extra"@, "parent_session_id"@);
    two_keys_lead_to_their_text(value, "extra"@, "parentSessionId"@);
    reveal_with_fuel(value_behind, 5);
    assert(text_behind(value, seq!["extra"@, "parent"@, "session_id"@]) == told_deep(value));
}

proof fn extras_are_told(value: JsonView, key: Seq<char>)
    ensures
        first_text(value, extra_paths(key), 0) == or_told(told(value, key), told_within(value, "extra"@, key)),
{
    reveal_with_fuel(first_text, 3);
    a_key_leads_to_its_text(value, key);
    two_keys_lead_to_their_text(value, "extra"@, key);
}

/// An event joins a child session to its parent exactly where its payload names a child session, or else its metadata.
/// What the payload names goes before what the metadata names; a parent that neither names is the session of the event,
/// and a subagent that neither names is called like its session.
pub proof fn an_event_names_its_child_session(session_id: Seq<char>, payload: JsonView, metadata: JsonView)
    ensures
        ({
            let child = or_told(told_child(payload), told_child(metadata));
            let parent = or_told(told_parent(payload), told_parent(metadata));
            let subagent = or_told(told_subagent(payload), told_subagent(metadata));
            let context = context_of(session_id, payload, metadata);
            &&& context is Some <==> child is Some
            &&& context matches Some(context) ==> {
                &&& Some(context.child_session_id) == child
                &&& parent is Some ==> context.parent_session_id == parent->Some_0
                &&& parent is None ==> context.parent_session_id == session_id
                &&& subagent is Some ==> context.subagent_id == subagent->Some_0
                &&& subagent is None ==> context.subagent_id == context.child_session_id
            }
        }),
{
    children_are_told(payload);
    children_are_told(metadata);
    parents_are_told(payload);
    parents_are_told(metadata);
    subagents_are_told(payload);
    subagents_are_told(metadata);
}

/// What the payload says of the turn, the role and the goal of a child goes before what the metadata says: where it has
/// a text there that is not empty, that text is taken, whatever the metadata holds. What it says under `extra` comes
/// next, and only then the metadata, in the same order; where none of them says it, it is not told.
pub proof fn a_payload_tells_of_the_child_before_its_metadata(
    session_id: Seq<char>,
    payload: JsonView,
    metadata: JsonView,
    context: ContextView,
    text: Seq<char>,
)
    requires
        context_of(session_id, payload, metadata) == Some(context),
        text.len() > 0,
    ensures
        payload.get("parent_turn_id"@) == Some(JsonView::Text(text)) ==> context.parent_turn_id == Some(text),
        payload.get("child_role"@) == Some(JsonView::Text(text)) ==> context.child_role == Some(text),
        payload.get("child_goal"@) == Some(JsonView::Text(text)) ==> context.child_goal == Some(text),
        context.parent_turn_id == or_told(
            or_told(told(payload, "parent_turn_id"@), told_within(payload, "extra"@, "parent_turn_id"@)),
            or_told(told(metadata, "parent_turn_id"@), told_within(metadata, "extra"@, "parent_turn_id"@)),
        ),
        context.child_role == or_told(
            or_told(told(payload, "child_role"@), told_within(payload, "extra"@, "child_role"@)),
            or_told(told(metadata, "child_role"@), told_within(metadata, "extra"@, "child_role"@)),
        ),
        context.child_goal == or_told(
            or_told(told(payload, "child_goal"@), told_within(payload, "extra"@, "child_goal"@)),
            or_told(told(metadata, "child_goal"@), told_within(metadata, "extra"@, "child_goal"@)),
        ),
{
    extras_are_told(payload, "parent_turn_id"@);
    extras_are_told(metadata, "parent_turn_id"@);
    extras_are_told(payload, "child_role"@);
    extras_are_told(metadata, "child_role"@);
    extras_are_told(payload, "child_goal"@);
    extras_are_told(metadata, "child_goal"@);
}

proof fn metadata_keys_differ()
    ensures
        "thread_source"@ != "subagent_id"@,
        "thread_source"@ != "subagent_session_id"@,
        "thread_source"@ != "hermes_parent_session_id"@,
        "thread_source"@ != "hermes_subagent_session_id"@,
        "thread_source"@ != "hermes_child_subagent_id"@,
        "thread_source"@ != "hermes_parent_turn_id"@,
        "thread_source"@ != "child_role"@,
        "thread_source"@ != "child_goal"@,
        "thread_source"@ != "session_id"@,
        "subagent_id"@ != "subagent_session_id"@,
        "subagent_id"@ != "hermes_parent_session_id"@,
        "subagent_id"@ != "hermes_subagent_session_id"@,
        "subagent_id"@ != "hermes_child_subagent_id"@,
        "subagent_id"@ != "hermes_parent_turn_id"@,
        "subagent_id"@ != "child_role"@,
        "subagent_id"@ != "child_goal"@,
        "subagent_id"@ != "session_id"@,
        "subagent_session_id"@ != "hermes_parent_session_id"@,
        "subagent_session_id"@ != "hermes_subagent_session_id"@,
        "subagent_session_id"@ != "hermes_child_subagent_id"@,
        "subagent_session_id"@ != "hermes_parent_turn_id"@,
        "subagent_session_id"@ != "child_role"@,
        "subagent_session_id"@ != "child_goal"@,
        "subagent_session_id"@ != "session_id"@,
        "hermes_parent_session_id"@ != "hermes_subagent_session_id"@,
        "hermes_parent_session_id"@ != "hermes_child_subagent_id"@,
        "hermes_parent_session_id"@ != "hermes_parent_turn_id"@,
        "hermes_parent_session_id"@ != "child_role"@,
        "hermes_parent_session_id"@ != "child_goal"@,
        "hermes_parent_session_id"@ != "session_id"@,
        "hermes_subagent_session_id"@ != "hermes_child_subagent_id"@,
        "hermes_subagent_session_id"@ != "hermes_parent_turn_id"@,
        "hermes_subagent_session_id"@ != "child_role"@,
        "hermes_subagent_session_id"@ != "child_goal"@,
        "hermes_subagent_session_id"@ != "session_id"@,
        "hermes_child_subagent_id"@ != "hermes_parent_turn_id"@,
        "hermes_child_subagent_id"@ != "child_role"@,
        "hermes_child_subagent_id"@ != "child_goal"@,
        "hermes_child_subagent_id"@ != "session_id"@,
        "hermes_parent_turn_id"@ != "child_role"@,
        "hermes_parent_turn_id"@ != "child_goal"@,
        "hermes_parent_turn_id"@ != "session_id"@,
        "child_role"@ != "child_goal"@,
        "child_role"@ != "session_id"@,
        "child_goal"@ != "session_id"@,
{
    reveal_strlit("thread_source");
    reveal_strlit("subagent_id");
    reveal_strlit("subagent_session_id");
    reveal_strlit("hermes_parent_session_id");
    reveal_strlit("hermes_subagent_session_id");
    reveal_strlit("hermes_child_subagent_id");
    reveal_strlit("hermes_parent_turn_id");
    reveal_strlit("child_role");
    reveal_strlit("child_goal");
    reveal_strlit("session_id");
    assert("thread_source"@.len() == 13);
    assert("subagent_id"@.len() == 11);
    assert("subagent_session_id"@.len() == 19);
    assert("hermes_parent_session_id"@.len() == 24);
    assert("hermes_subagent_session_id"@.len() == 26);
    assert("hermes_child_subagent_id"@.len() == 24);
    assert("hermes_parent_turn_id"@.len() == 21);
    assert("child_role"@.len() == 10);
    assert("child_goal"@.len() == 10);
    assert("session_id"@.len() == 10);
    assert("hermes_parent_session_id"@[7] != "hermes_child_subagent_id"@[7]);
    assert("child_role"@[6] != "child_goal"@[6]);
    assert("child_role"@[0] != "session_id"@[0]);
    assert("child_goal"@[0] != "session_id"@[0]);
}

/// The metadata of a subagent names it, its session and its parent's, and the turn, the role and the goal where they
/// are known; it holds nothing else.
pub proof fn the_metadata_of_a_subagent_names_it(context: ContextView, key: Seq<char>)
    ensures
        sorted(base_members(context)),
        lookup(base_members(context), key) == (if key == "thread_source"@ {
                Some(JsonView::Text("subagent"@))
            } else if key == "subagent_id"@ || key == "hermes_child_subagent_id"@ {
                Some(JsonView::Text(context.subagent_id))
            } else if key == "subagent_session_id"@ || key == "hermes_subagent_session_id"@ {
                Some(JsonView::Text(context.child_session_id))
            } else if key == "hermes_parent_session_id"@ {
                Some(JsonView::Text(context.parent_session_id))
            } else if key == "hermes_parent_turn_id"@ && context.parent_turn_id is Some {
                Some(JsonView::Text(context.parent_turn_id->Some_0))
            } else if key == "child_role"@ && context.child_role is Some {
                Some(JsonView::Text(context.child_role->Some_0))
            } else if key == "child_goal"@ && context.child_goal is Some {
                Some(JsonView::Text(context.child_goal->Some_0))
            } else {
                None
            }),
{
    metadata_keys_differ();
    let pairs = seq![
        ("thread_source"@, JsonView::Text("subagent"@)),
        ("subagent_id"@, JsonView::Text(context.subagent_id)),
        ("subagent_session_id"@, JsonView::Text(context.child_session_id)),
        ("hermes_parent_session_id"@, JsonView::Text(context.parent_session_id)),
        ("hermes_subagent_session_id"@, JsonView::Text(context.child_session_id)),
        ("hermes_child_subagent_id"@, JsonView::Text(context.subagent_id)),
    ];
    assert(crate::json::keys_differ(pairs));
    an_object_tells_its_pairs(pairs);
    assert(pairs[0].0 == "thread_source"@ && pairs[1].0 == "subagent_id"@ && pairs[2].0 == "subagent_session_id"@
        && pairs[3].0 == "hermes_parent_session_id"@ && pairs[4].0 == "hermes_subagent_session_id"@ && pairs[5].0
        == "hermes_child_subagent_id"@);
    if forall|i: int| 0 <= i < pairs.len() ==> (#[trigger] pairs[i]).0 != key {
        an_object_holds_no_more(pairs, key);
    }
    let members = members_of(pairs);
    let one = with_optional(members, "hermes_parent_turn_id"@, context.parent_turn_id);
    let two = with_optional(one, "child_role"@, context.child_role);
    optional_keeps(members, "hermes_parent_turn_id"@, context.parent_turn_id, key);
    optional_keeps(one, "child_role"@, context.child_role, key);
    optional_keeps(two, "child_goal"@, context.child_goal, key);
    an_optional_is_there(members, "hermes_parent_turn_id"@, context.parent_turn_id);
    an_optional_is_there(one, "child_role"@, context.child_role);
    an_optional_is_there(two, "child_goal"@, context.child_goal);
}

proof fn an_optional_is_there(members: Members, added: Seq<char>, value: Option<Seq<char>>)
    requires
        sorted(members),
    ensures
        lookup(with_optional(members, added, value), added) == (match value {
            Some(text) => Some(JsonView::Text(text)),
            None => lookup(members, added),
        }),
{
    if value is Some {
        lookup_inserted(members, added, JsonView::Text(value->Some_0), added);
    }
}

/// The metadata of a subagent's scope is that of the event, but for what names the subagent: its session is that of the
/// child, and all that the metadata of the subagent says stands in place of what the event says of it.
pub proof fn a_scope_keeps_what_does_not_name_its_subagent(metadata: JsonView, context: ContextView, key: Seq<char>)
    requires
        metadata matches JsonView::Object(members) ==> sorted(members),
    ensures
        scope_metadata_of(metadata, context) is Object,
        scope_metadata_of(metadata, context).get(key) == (if key == "session_id"@ {
                Some(JsonView::Text(context.child_session_id))
            } else if key == "thread_source"@ {
                Some(JsonView::Text("subagent"@))
            } else if key == "subagent_id"@ || key == "hermes_child_subagent_id"@ {
                Some(JsonView::Text(context.subagent_id))
            } else if key == "subagent_session_id"@ || key == "hermes_subagent_session_id"@ {
                Some(JsonView::Text(context.child_session_id))
            } else if key == "hermes_parent_session_id"@ {
                Some(JsonView::Text(context.parent_session_id))
            } else if key == "hermes_parent_turn_id"@ && context.parent_turn_id is Some {
                Some(JsonView::Text(context.parent_turn_id->Some_0))
            } else if key == "child_role"@ && context.child_role is Some {
                Some(JsonView::Text(context.child_role->Some_0))
            } else if key == "child_goal"@ && context.child_goal is Some {
                Some(JsonView::Text(context.child_goal->Some_0))
            } else {
                metadata.get(key)
            }),
{
    metadata_keys_differ();
    let session = JsonView::Text(context.child_session_id);
    let base = base_members(context);
    let overlay = inserted(base, "session_id"@, session);
    the_metadata_of_a_subagent_names_it(context, key);
    inserted_sorted(base, "session_id"@, session);
    lookup_inserted(base, "session_id"@, session, key);
    if let JsonView::Object(members) = metadata {
        lookup_extended(members, overlay, key);
    }
}

/// Model calls of a subagent carry of its scope what the metadata of a subagent can hold, and nothing else: the session
/// of the scope, for one, is left to the scope.
pub proof fn model_calls_carry_no_more_than_the_metadata_of_a_subagent(scope: Members, key: Seq<char>)
    ensures
        ({
            let own = owner_metadata_of(Some(JsonView::Object(scope)));
            let names_it = {
                ||| key == "thread_source"@
                ||| key == "subagent_id"@
                ||| key == "subagent_session_id"@
                ||| key == "hermes_parent_session_id"@
                ||| key == "hermes_subagent_session_id"@
                ||| key == "hermes_child_subagent_id"@
                ||| key == "hermes_parent_turn_id"@
                ||| key == "child_role"@
                ||| key == "child_goal"@
            };
            &&& own is Null || own is Object
            &&& names_it ==> (lookup(scope, key) matches Some(value) && !(value is Null)) ==> own.get(key) == lookup(
                scope,
                key,
            )
            &&& names_it ==> (lookup(scope, key) is None || lookup(scope, key) == Some(JsonView::Null)) ==> own.get(
                key,
            ) is None
            &&& !names_it ==> own.get(key) is None
        }),
{
    model_calls_carry_what_names_the_subagent(scope, key);
    let keys = owner_keys();
    assert(keys[0] == "thread_source"@ && keys[1] == "subagent_id"@ && keys[2] == "subagent_session_id"@ && keys[3]
        == "hermes_parent_session_id"@ && keys[4] == "hermes_subagent_session_id"@ && keys[5]
        == "hermes_child_subagent_id"@ && keys[6] == "hermes_parent_turn_id"@ && keys[7] == "child_role"@ && keys[8]
        == "child_goal"@);
    if keys.contains(key) {
        let i = choose|i: int| 0 <= i < keys.len() && keys[i] == key;
        assert(i == 0 || i == 1 || i == 2 || i == 3 || i == 4 || i == 5 || i == 6 || i == 7 || i == 8);
    }
}

/// Without a scope, or with metadata that is no object, model calls carry nothing.
pub proof fn model_calls_without_a_scope_carry_nothing(scope: Option<JsonView>)
    requires
        !(scope is Some && scope->Some_0 is Object),
    ensures
        owner_metadata_of(scope) is Null,
{
}

/// A context that is told is the one that is meant, in every part; none is told where none is meant.
pub proof fn a_context_is_told_in_every_part(r: Option<SubagentContext>, context: Option<ContextView>)
    ensures
        is_context(r, context) <==> {
            &&& r is Some <==> context is Some
            &&& r matches Some(own) ==> {
                &&& own.parent_session_id@ == context->Some_0.parent_session_id
                &&& own.subagent_id@ == context->Some_0.subagent_id
                &&& own.child_session_id@ == context->Some_0.child_session_id
                &&& opt_text(own.parent_turn_id) == context->Some_0.parent_turn_id
                &&& opt_text(own.child_role) == context->Some_0.child_role
                &&& opt_text(own.child_goal) == context->Some_0.child_goal
            }
        },
{
}

} // verus!
