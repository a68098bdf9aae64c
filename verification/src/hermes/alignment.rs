//! Where the events of a child session belong.
//!
//! The agent reports the life of a subagent through hooks of the parent session, while the child opens a
//! session of its own. What the parent reports at the start of a subagent names both, so that later events of
//! the child session can be put under the subagent's scope.

use crate::hermes::alignment_laws::a_payload_tells_of_the_child_before_its_metadata;
use crate::json::{extend_members, extended, members_of, text_json, Json, JsonObject, JsonView, Members};
use crate::json_paths::{first_text, json_string_at, paths_view, told, KeyPath};
use crate::ordered::{inserted, lookup};
use crate::text::{opt_text, same_text};
use vstd::prelude::*;
use vstd::string::*;

verus! {

/// The agent that an event comes from.
#[derive(Debug, Clone, Copy, PartialEq, Eq, Structural)]
pub enum AgentKind {
    ClaudeCode,
    Codex,
    Hermes,
    Other,
}

/// An event of a session.
#[derive(Debug)]
pub struct SessionEvent {
    pub session_id: String,
    pub agent_kind: AgentKind,
    pub event_name: String,
    pub payload: Json,
    pub metadata: Json,
}

/// An event of a subagent.
#[derive(Debug)]
pub struct SubagentEvent {
    pub session_id: String,
    pub agent_kind: AgentKind,
    pub event_name: String,
    pub subagent_id: String,
    pub payload: Json,
    pub metadata: Json,
}

/// Another name for a session: the subagent of a parent session.
#[derive(Debug)]
pub struct SessionAlias {
    pub parent_session_id: String,
    pub subagent_id: String,
    pub metadata: Json,
}

/// What joins a child session to its parent.
#[derive(Debug)]
pub struct SubagentContext {
    pub parent_session_id: String,
    pub subagent_id: String,
    pub child_session_id: String,
    pub parent_turn_id: Option<String>,
    pub child_role: Option<String>,
    pub child_goal: Option<String>,
}

pub struct ContextView {
    pub parent_session_id: Seq<char>,
    pub subagent_id: Seq<char>,
    pub child_session_id: Seq<char>,
    pub parent_turn_id: Option<Seq<char>>,
    pub child_role: Option<Seq<char>>,
    pub child_goal: Option<Seq<char>>,
}

impl SubagentContext {
    pub open spec fn view(&self) -> ContextView {
        ContextView {
            parent_session_id: self.parent_session_id@,
            subagent_id: self.subagent_id@,
            child_session_id: self.child_session_id@,
            parent_turn_id: opt_text(self.parent_turn_id),
            child_role: opt_text(self.child_role),
            child_goal: opt_text(self.child_goal),
        }
    }
}

/// Where a parent session is named.
pub open spec fn parent_paths() -> Seq<KeyPath> {
    seq![
        seq!["parent_session_id"@],
        seq!["parentSessionId"@],
        seq!["parent"@, "session_id"@],
        seq!["extra"@, "parent_session_id"@],
        seq!["extra"@, "parentSessionId"@],
        seq!["extra"@, "parent"@, "session_id"@],
    ]
}

/// Where a child session is named.
pub open spec fn child_paths() -> Seq<KeyPath> {
    seq![
        seq!["child_session_id"@],
        seq!["childSessionId"@],
        seq!["subagent_session_id"@],
        seq!["subagentSessionId"@],
        seq!["extra"@, "child_session_id"@],
        seq!["extra"@, "childSessionId"@],
        seq!["extra"@, "subagent_session_id"@],
        seq!["extra"@, "subagentSessionId"@],
    ]
}

/// Where a subagent is named.
pub open spec fn subagent_paths() -> Seq<KeyPath> {
    seq![
        seq!["child_subagent_id"@],
        seq!["childSubagentId"@],
        seq!["subagent_id"@],
        seq!["subagentId"@],
        seq!["agent_id"@],
        seq!["extra"@, "child_subagent_id"@],
        seq!["extra"@, "childSubagentId"@],
        seq!["extra"@, "subagent_id"@],
        seq!["extra"@, "subagentId"@],
        seq!["extra"@, "agent_id"@],
    ]
}

/// Where a value of this name stands.
pub open spec fn extra_paths(key: Seq<char>) -> Seq<KeyPath> {
    seq![seq![key], seq!["extra"@, key]]
}

/// What a payload names, or else the metadata.
pub open spec fn named(payload: JsonView, metadata: JsonView, paths: Seq<KeyPath>) -> Option<Seq<char>> {
    match first_text(payload, paths, 0) {
        Some(text) => Some(text),
        None => first_text(metadata, paths, 0),
    }
}

/// What joins a child session to its parent, where a child session is named. The parent is the session of the
/// event where none is named, the subagent is called like its session where it has no name of its own.
pub open spec fn context_of(session_id: Seq<char>, payload: JsonView, metadata: JsonView) -> Option<ContextView> {
    match named(payload, metadata, child_paths()) {
        None => None,
        Some(child) => Some(
            ContextView {
                parent_session_id: match named(payload, metadata, parent_paths()) {
                    Some(parent) => parent,
                    None => session_id,
                },
                subagent_id: match named(payload, metadata, subagent_paths()) {
                    Some(subagent) => subagent,
                    None => child,
                },
                child_session_id: child,
                parent_turn_id: named(payload, metadata, extra_paths("parent_turn_id"@)),
                child_role: named(payload, metadata, extra_paths("child_role"@)),
                child_goal: named(payload, metadata, extra_paths("child_goal"@)),
            },
        ),
    }
}

fn find_named(payload: &Json, metadata: &Json, paths: &Vec<Vec<&str>>) -> (r: Option<String>)
    ensures
        opt_text(r) == named(payload@, metadata@, paths_view(paths@)),
{
    match json_string_at(payload, paths) {
        Some(text) => Some(text.to_owned()),
        None => match json_string_at(metadata, paths) {
            Some(text) => Some(text.to_owned()),
            None => None,
        },
    }
}

fn parent_session_id(payload: &Json, metadata: &Json) -> (r: Option<String>)
    ensures
        opt_text(r) == named(payload@, metadata@, parent_paths()),
{
    let paths: Vec<Vec<&str>> = vec![
        vec!["parent_session_id"],
        vec!["parentSessionId"],
        vec!["parent", "session_id"],
        vec!["extra", "parent_session_id"],
        vec!["extra", "parentSessionId"],
        vec!["extra", "parent", "session_id"],
    ];
    assert(paths_view(paths@) =~~= parent_paths());
    find_named(payload, metadata, &paths)
}

fn child_session_id(payload: &Json, metadata: &Json) -> (r: Option<String>)
    ensures
        opt_text(r) == named(payload@, metadata@, child_paths()),
{
    let paths: Vec<Vec<&str>> = vec![
        vec!["child_session_id"],
        vec!["childSessionId"],
        vec!["subagent_session_id"],
        vec!["subagentSessionId"],
        vec!["extra", "child_session_id"],
        vec!["extra", "childSessionId"],
        vec!["extra", "subagent_session_id"],
        vec!["extra", "subagentSessionId"],
    ];
    assert(paths_view(paths@) =~~= child_paths());
    find_named(payload, metadata, &paths)
}

fn subagent_id(payload: &Json, metadata: &Json) -> (r: Option<String>)
    ensures
        opt_text(r) == named(payload@, metadata@, subagent_paths()),
{
    let paths: Vec<Vec<&str>> = vec![
        vec!["child_subagent_id"],
        vec!["childSubagentId"],
        vec!["subagent_id"],
        vec!["subagentId"],
        vec!["agent_id"],
        vec!["extra", "child_subagent_id"],
        vec!["extra", "childSubagentId"],
        vec!["extra", "subagent_id"],
        vec!["extra", "subagentId"],
        vec!["extra", "agent_id"],
    ];
    assert(paths_view(paths@) =~~= subagent_paths());
    find_named(payload, metadata, &paths)
}

fn optional_string(payload: &Json, metadata: &Json, key: &str) -> (r: Option<String>)
    ensures
        opt_text(r) == named(payload@, metadata@, extra_paths(key@)),
{
    let paths: Vec<Vec<&str>> = vec![vec![key], vec!["extra", key]];
    assert(paths_view(paths@) =~~= extra_paths(key@));
    find_named(payload, metadata, &paths)
}

/// Whether `r` is this context.
pub open spec fn is_context(r: Option<SubagentContext>, context: Option<ContextView>) -> bool {
    match r {
        Some(own) => context == Some(own.view()),
        None => context is None,
    }
}

/// What joins a child session to its parent, from the payload and the metadata of an event of the session
/// `default_parent_session_id`.
pub fn context_from_values(default_parent_session_id: &str, payload: &Json, metadata: &Json) -> (r: Option<
    SubagentContext,
>)
    ensures
        is_context(r, context_of(default_parent_session_id@, payload@, metadata@)),
        r matches Some(context) ==> {
            &&& told(payload@, "parent_turn_id"@) is Some ==> opt_text(context.parent_turn_id) == told(
                payload@,
                "parent_turn_id"@,
            )
            &&& told(payload@, "child_role"@) is Some ==> opt_text(context.child_role) == told(
                payload@,
                "child_role"@,
            )
            &&& told(payload@, "child_goal"@) is Some ==> opt_text(context.child_goal) == told(
                payload@,
                "child_goal"@,
            )
        },
{
    let child_session_id = match child_session_id(payload, metadata) {
        None => {
            return None;
        },
        Some(child) => child,
    };
    let parent_session_id = match parent_session_id(payload, metadata) {
        Some(parent) => parent,
        None => default_parent_session_id.to_owned(),
    };
    let subagent_id = match subagent_id(payload, metadata) {
        Some(subagent) => subagent,
        None => child_session_id.clone(),
    };
    let context = SubagentContext {
        parent_session_id,
        subagent_id,
        child_session_id,
        parent_turn_id: optional_string(payload, metadata, "parent_turn_id"),
        child_role: optional_string(payload, metadata, "child_role"),
        child_goal: optional_string(payload, metadata, "child_goal"),
    };
    proof {
        a_payload_tells_of_the_child_before_its_metadata(
            default_parent_session_id@,
            payload@,
            metadata@,
            context.view(),
            seq![' '],
        );
    }
    Some(context)
}

/// What joins a child session to its parent, from an event of the child session. A session is no child of
/// itself.
pub fn subagent_context(event: &SessionEvent) -> (r: Option<SubagentContext>)
    ensures
        is_context(
            r,
            match context_of(event.session_id@, event.payload@, event.metadata@) {
                Some(context) => if event.agent_kind == AgentKind::Hermes && context.parent_session_id
                    != event.session_id@ {
                    Some(context)
                } else {
                    None
                },
                None => None,
            },
        ),
{
    if event.agent_kind != AgentKind::Hermes {
        return None;
    }
    match context_from_values(event.session_id.as_str(), &event.payload, &event.metadata) {
        Some(context) => {
            if same_text(context.parent_session_id.as_str(), event.session_id.as_str()) {
                None
            } else {
                Some(context)
            }
        },
        None => None,
    }
}

/// Members with one more, where there is a value for it.
pub open spec fn with_optional(members: Members, key: Seq<char>, value: Option<Seq<char>>) -> Members {
    match value {
        Some(text) => inserted(members, key, JsonView::Text(text)),
        None => members,
    }
}

/// The metadata of a subagent.
pub open spec fn base_members(context: ContextView) -> Members {
    let members = members_of(
        seq![
            ("thread_source"@, JsonView::Text("subagent"@)),
            ("subagent_id"@, JsonView::Text(context.subagent_id)),
            ("subagent_session_id"@, JsonView::Text(context.child_session_id)),
            ("hermes_parent_session_id"@, JsonView::Text(context.parent_session_id)),
            ("hermes_subagent_session_id"@, JsonView::Text(context.child_session_id)),
            ("hermes_child_subagent_id"@, JsonView::Text(context.subagent_id)),
        ],
    );
    with_optional(
        with_optional(
            with_optional(members, "hermes_parent_turn_id"@, context.parent_turn_id),
            "child_role"@,
            context.child_role,
        ),
        "child_goal"@,
        context.child_goal,
    )
}

fn insert_optional(members: &mut JsonObject, key: &str, value: &Option<String>)
    ensures
        final(members).view() == with_optional(old(members).view(), key@, opt_text(*value)),
{
    if let Some(text) = value {
        members.insert(key.to_owned(), text_json(text.as_str()));
    }
}

fn base_metadata(context: &SubagentContext) -> (r: JsonObject)
    ensures
        r.view() == base_members(context.view()),
{
    let mut object = JsonObject::new();
    let ghost pairs = seq![
        ("thread_source"@, JsonView::Text("subagent"@)),
        ("subagent_id"@, JsonView::Text(context.subagent_id@)),
        ("subagent_session_id"@, JsonView::Text(context.child_session_id@)),
        ("hermes_parent_session_id"@, JsonView::Text(context.parent_session_id@)),
        ("hermes_subagent_session_id"@, JsonView::Text(context.child_session_id@)),
        ("hermes_child_subagent_id"@, JsonView::Text(context.subagent_id@)),
    ];
    object.insert("thread_source".to_owned(), text_json("subagent"));
    object.insert("subagent_id".to_owned(), text_json(context.subagent_id.as_str()));
    object.insert("subagent_session_id".to_owned(), text_json(context.child_session_id.as_str()));
    object.insert("hermes_parent_session_id".to_owned(), text_json(context.parent_session_id.as_str()));
    object.insert("hermes_subagent_session_id".to_owned(), text_json(context.child_session_id.as_str()));
    object.insert("hermes_child_subagent_id".to_owned(), text_json(context.subagent_id.as_str()));
    proof {
        reveal_with_fuel(members_of, 7);
        assert(pairs.drop_last() =~= pairs.take(5));
        assert(pairs.take(5).drop_last() =~= pairs.take(4));
        assert(pairs.take(4).drop_last() =~= pairs.take(3));
        assert(pairs.take(3).drop_last() =~= pairs.take(2));
        assert(pairs.take(2).drop_last() =~= pairs.take(1));
        assert(pairs.take(1).drop_last() =~= Members::empty());
        assert(object.view() == members_of(pairs));
    }
    insert_optional(&mut object, "hermes_parent_turn_id", &context.parent_turn_id);
    insert_optional(&mut object, "child_role", &context.child_role);
    insert_optional(&mut object, "child_goal", &context.child_goal);
    object
}

/// Metadata with members over it. Metadata that is no object gives way to them.
pub open spec fn merged(base: JsonView, overlay: Members) -> JsonView {
    match base {
        JsonView::Object(members) => JsonView::Object(extended(members, overlay)),
        _ => JsonView::Object(overlay),
    }
}

fn merge_metadata(base: &Json, overlay: JsonObject) -> (r: Json)
    ensures
        r@ == merged(base@, overlay.view()),
{
    match base {
        Json::Object(members) => {
            let mut result = members.clone();
            extend_members(&mut result, &overlay);
            Json::Object(result)
        },
        _ => Json::Object(overlay),
    }
}

/// The metadata of the scope of a subagent: that of the event, with the subagent's over it and the child
/// session as its session.
pub open spec fn scope_metadata_of(metadata: JsonView, context: ContextView) -> JsonView {
    merged(
        metadata,
        inserted(base_members(context), "session_id"@, JsonView::Text(context.child_session_id)),
    )
}

/// The metadata of the scope of a subagent.
pub fn augment_subagent_metadata(metadata: &Json, context: &SubagentContext) -> (r: Json)
    ensures
        r@ == scope_metadata_of(metadata@, context.view()),
{
    let mut object = base_metadata(context);
    object.insert("session_id".to_owned(), text_json(context.child_session_id.as_str()));
    merge_metadata(metadata, object)
}

/// The other name of a child session.
pub fn alias_for_child_session(context: &SubagentContext) -> (r: SessionAlias)
    ensures
        r.parent_session_id@ == context.parent_session_id@,
        r.subagent_id@ == context.subagent_id@,
        r.metadata@ == JsonView::Object(base_members(context.view())),
{
    SessionAlias {
        parent_session_id: context.parent_session_id.clone(),
        subagent_id: context.subagent_id.clone(),
        metadata: Json::Object(base_metadata(context)),
    }
}

/// A child session that the start of a subagent names.
#[derive(Debug)]
pub struct ExplicitSubagentAlias {
    pub child_session_id: String,
    pub alias: SessionAlias,
    pub scope_metadata: Json,
}

/// The child session that an event of a subagent names, where that is another session.
pub fn explicit_subagent_alias(event: &SubagentEvent) -> (r: Option<ExplicitSubagentAlias>)
    ensures
        match context_of(event.session_id@, event.payload@, event.metadata@) {
            Some(context) => if event.agent_kind == AgentKind::Hermes && context.child_session_id
                != event.session_id@ {
                &&& r is Some
                &&& r->Some_0.child_session_id@ == context.child_session_id
                &&& r->Some_0.alias.parent_session_id@ == context.parent_session_id
                &&& r->Some_0.alias.subagent_id@ == context.subagent_id
                &&& r->Some_0.alias.metadata@ == JsonView::Object(base_members(context))
                &&& r->Some_0.scope_metadata@ == scope_metadata_of(event.metadata@, context)
            } else {
                r is None
            },
            None => r is None,
        },
{
    if event.agent_kind != AgentKind::Hermes {
        return None;
    }
    let context = match context_from_values(event.session_id.as_str(), &event.payload, &event.metadata) {
        None => {
            return None;
        },
        Some(context) => context,
    };
    if same_text(context.child_session_id.as_str(), event.session_id.as_str()) {
        return None;
    }
    Some(
        ExplicitSubagentAlias {
            scope_metadata: augment_subagent_metadata(&event.metadata, &context),
            alias: alias_for_child_session(&context),
            child_session_id: context.child_session_id,
        },
    )
}

/// The child session that an event of a subagent names.
pub fn child_session_id_for_subagent_event(event: &SubagentEvent) -> (r: Option<String>)
    ensures
        opt_text(r) == (if event.agent_kind == AgentKind::Hermes {
            named(event.payload@, event.metadata@, child_paths())
        } else {
            None
        }),
{
    if event.agent_kind != AgentKind::Hermes {
        return None;
    }
    child_session_id(&event.payload, &event.metadata)
}

/// The start of a subagent in the parent session, made of the start of the child session.
pub fn subagent_start_event(event: &SessionEvent, context: &SubagentContext) -> (r: SubagentEvent)
    ensures
        r.session_id@ == context.parent_session_id@,
        r.agent_kind == event.agent_kind,
        r.event_name@ == event.event_name@,
        r.subagent_id@ == context.subagent_id@,
        r.payload@ == event.payload@,
        r.metadata@ == scope_metadata_of(event.metadata@, context.view()),
{
    SubagentEvent {
        session_id: context.parent_session_id.clone(),
        agent_kind: event.agent_kind,
        event_name: event.event_name.clone(),
        subagent_id: context.subagent_id.clone(),
        payload: event.payload.clone(),
        metadata: augment_subagent_metadata(&event.metadata, context),
    }
}

/// The members of a subagent's scope that its model calls carry.
pub open spec fn owner_keys() -> Seq<Seq<char>> {
    seq![
        "thread_source"@,
        "subagent_id"@,
        "subagent_session_id"@,
        "hermes_parent_session_id"@,
        "hermes_subagent_session_id"@,
        "hermes_child_subagent_id"@,
        "hermes_parent_turn_id"@,
        "child_role"@,
        "child_goal"@,
    ]
}

/// The members among the first `n` keys that are there and not null.
pub open spec fn picked(members: Members, keys: Seq<Seq<char>>, n: int) -> Members
    decreases n,
{
    if n <= 0 {
        Members::empty()
    } else {
        let before = picked(members, keys, n - 1);
        match lookup(members, keys[n - 1]) {
            None => before,
            Some(JsonView::Null) => before,
            Some(value) => inserted(before, keys[n - 1], value),
        }
    }
}

/// What the model calls of a subagent carry of the metadata of its scope.
pub open spec fn owner_metadata_of(scope: Option<JsonView>) -> JsonView {
    match scope {
        Some(JsonView::Object(members)) => {
            let own = picked(members, owner_keys(), owner_keys().len() as int);
            if own.len() == 0 {
                JsonView::Null
            } else {
                JsonView::Object(own)
            }
        },
        _ => JsonView::Null,
    }
}

/// What the model calls of a subagent carry of the metadata of its scope.
pub fn llm_owner_metadata(scope_metadata: Option<&Json>) -> (r: Json)
    ensures
        r@ == owner_metadata_of(
            match scope_metadata {
                Some(scope) => Some(scope@),
                None => None,
            },
        ),
{
    let members = match scope_metadata {
        Some(Json::Object(members)) => members,
        _ => {
            return Json::Null;
        },
    };
    let keys: Vec<&str> = vec![
        "thread_source",
        "subagent_id",
        "subagent_session_id",
        "hermes_parent_session_id",
        "hermes_subagent_session_id",
        "hermes_child_subagent_id",
        "hermes_parent_turn_id",
        "child_role",
        "child_goal",
    ];
    let ghost names = owner_keys();
    let mut own = JsonObject::new();
    let mut i: usize = 0;
    while i < keys.len()
        invariant
            i <= keys.len(),
            keys.len() == 9,
            names == owner_keys(),
            forall|j: int| 0 <= j < 9 ==> (#[trigger] keys@[j])@ == names[j],
            own.view() == picked(members.view(), names, i as int),
        decreases keys.len() - i,
    {
        assert(keys@[i as int]@ == names[i as int]);
        match members.get(keys[i]) {
            None => {},
            Some(Json::Null) => {},
            Some(value) => {
                own.insert(keys[i].to_owned(), value.clone());
            },
        }
        i += 1;
    }
    if own.len() == 0 {
        Json::Null
    } else {
        Json::Object(own)
    }
}

} // verus!
