//! The approvals of the relay's hooks.

use crate::error::{CliError, Failure};
use crate::hermes::config::{document_object, keep_groups, kept_groups, object_from_document};
use crate::json::{
    array_holds, array_view, json_document, json_object, json_pretty_text, object_of, opt_json, opt_text_json,
    pairs_view, text_json, Json, JsonObject, JsonView, Members,
};
use crate::ordered::{inserted, lookup, removed};
use crate::switchyard::config::answers;
use crate::text::{any_text, blank, is_blank, opt_str, opt_text, same_text, texts};
use crate::time::{utc_text, utc_timestamp};
use vstd::prelude::*;
use vstd::string::*;

verus! {

/// The approval of a hook.
pub open spec fn approval(
    event: Seq<char>,
    command: Seq<char>,
    approved_at: Seq<char>,
    script_mtime: Option<Seq<char>>,
) -> JsonView {
    object_of(
        seq![
            ("event"@, JsonView::Text(event)),
            ("command"@, JsonView::Text(command)),
            ("approved_at"@, JsonView::Text(approved_at)),
            ("script_mtime_at_approval"@, opt_text_json(script_mtime)),
        ],
    )
}

fn make_approval(event: &str, command: &str, approved_at: &str, script_mtime: &Option<String>) -> (r: Json)
    ensures
        r@ == approval(event@, command@, approved_at@, opt_text(*script_mtime)),
{
    let pairs: Vec<(&str, Json)> = vec![
        ("event", text_json(event)),
        ("command", text_json(command)),
        ("approved_at", text_json(approved_at)),
        ("script_mtime_at_approval", opt_json(script_mtime)),
    ];
    assert(pairs_view(pairs@) =~= seq![
        ("event"@, JsonView::Text(event@)),
        ("command"@, JsonView::Text(command@)),
        ("approved_at"@, JsonView::Text(approved_at@)),
        ("script_mtime_at_approval"@, opt_text_json(opt_text(*script_mtime))),
    ]);
    json_object(pairs)
}

/// The approvals of a hook on each event.
pub open spec fn approvals_of(
    events: Seq<Seq<char>>,
    command: Seq<char>,
    approved_at: Seq<char>,
    script_mtime: Option<Seq<char>>,
) -> Seq<JsonView> {
    Seq::new(events.len(), |i: int| approval(events[i], command, approved_at, script_mtime))
}

/// An allowlist with the hooks approved: without the approvals of the command before, with one for each
/// event behind all others.
pub open spec fn trusted(
    root: Members,
    events: Seq<Seq<char>>,
    previous: Option<Seq<char>>,
    command: Seq<char>,
    approved_at: Seq<char>,
    script_mtime: Option<Seq<char>>,
) -> Result<Members, Seq<char>> {
    let own = match lookup(root, "approvals"@) {
        None => Ok(Seq::empty()),
        Some(JsonView::Array(approvals)) => Ok(approvals),
        Some(_) => Err("Hermes shell-hook allowlist approvals must be an array"@),
    };
    match own {
        Err(error) => Err(error),
        Ok(approvals) => Ok(
            inserted(
                removed(root, "approvals"@),
                "approvals"@,
                JsonView::Array(
                    kept_groups(approvals, previous, approvals.len() as int) + approvals_of(
                        events,
                        command,
                        approved_at,
                        script_mtime,
                    ),
                ),
            ),
        ),
    }
}

/// Approves the hooks in an allowlist.
pub fn approve_hooks(
    root: JsonObject,
    events: &Vec<String>,
    previous_command: Option<&str>,
    command: &str,
    approved_at: &str,
    script_mtime: &Option<String>,
) -> (r: Result<JsonObject, CliError>)
    ensures
        ({
            let result = trusted(
                root.view(),
                texts(events@),
                opt_str(previous_command),
                command@,
                approved_at@,
                opt_text(*script_mtime),
            );
            match r {
                Ok(object) => result == Ok::<Members, Seq<char>>(object.view()),
                Err(error) => result is Err && error.view() == Failure::Install(result->Err_0),
            }
        }),
{
    let mut root = root;
    let ghost names = texts(events@);
    let mut approvals: Vec<Json> = match root.take("approvals") {
        None => {
            let none: Vec<Json> = Vec::new();
            assert(array_view(none@) =~= Seq::empty());
            none
        },
        Some(Json::Array(approvals)) => {
            proof {
                array_holds(approvals);
            }
            keep_groups(&approvals, previous_command)
        },
        Some(_) => {
            return Err(
                CliError::Install("Hermes shell-hook allowlist approvals must be an array".to_owned()),
            );
        },
    };
    let ghost kept = array_view(approvals@);
    let ghost more = approvals_of(names, command@, approved_at@, opt_text(*script_mtime));
    let mut i: usize = 0;
    assert(kept + more.take(0) =~= kept);
    while i < events.len()
        invariant
            i <= events.len(),
            names == texts(events@),
            more == approvals_of(names, command@, approved_at@, opt_text(*script_mtime)),
            array_view(approvals@) == kept + more.take(i as int),
        decreases events.len() - i,
    {
        let ghost before = approvals@;
        approvals.push(make_approval(events[i].as_str(), command, approved_at, script_mtime));
        assert(names[i as int] == events@[i as int]@);
        assert(array_view(approvals@) =~= array_view(before).push(more[i as int]));
        assert(array_view(approvals@) =~= kept + more.take(i + 1));
        i += 1;
    }
    proof {
        assert(more.take(i as int) =~= more);
        array_holds(approvals);
    }
    root.insert("approvals".to_owned(), Json::Array(approvals));
    Ok(root)
}

/// What a JSON text holds: an object, or nothing where it is missing or blank.
pub open spec fn json_text_object(raw: Option<Seq<char>>, description: Seq<char>) -> Result<Members, Seq<char>> {
    document_object(
        match raw {
            Some(text) => if blank(text) {
                None
            } else {
                Some(json_document(text))
            },
            None => None,
        },
        description,
        "a JSON object"@,
    )
}

/// The object that a JSON text holds.
pub fn parse_json_object(raw: Option<&str>, description: &str) -> (r: Result<JsonObject, CliError>)
    ensures
        ({
            let result = json_text_object(
                opt_str(raw),
                description@,
            );
            match r {
                Ok(object) => result == Ok::<Members, Seq<char>>(object.view()),
                Err(error) => result is Err && error.view() == Failure::Install(result->Err_0),
            }
        }),
{
    let document = match raw {
        Some(text) => {
            if is_blank(text) {
                None
            } else {
                Some(Json::from_json(text))
            }
        },
        None => None,
    };
    object_from_document(document, description, "a JSON object")
}

/// A point in time, where a date can be given for it.
pub fn timestamp(seconds: i64, nanos: u32) -> (r: Option<String>)
    ensures
        opt_text(r) == utc_text(seconds, nanos),
{
    utc_timestamp(seconds, nanos)
}

/// Approves the hooks in the allowlist that a text holds.
pub fn trusted_hooks(
    existing: Option<&str>,
    events: &Vec<String>,
    previous_command: Option<&str>,
    command: &str,
    approved_at: &str,
    script_mtime: &Option<String>,
) -> (r: Result<JsonObject, CliError>)
    ensures
        match json_text_object(
            opt_str(existing),
            "Hermes shell-hook allowlist"@,
        ) {
            Err(error) => r is Err && r->Err_0.view() == Failure::Install(error),
            Ok(root) => {
                let result = trusted(
                    root,
                    texts(events@),
                    opt_str(previous_command),
                    command@,
                    approved_at@,
                    opt_text(*script_mtime),
                );
                match r {
                    Ok(object) => result == Ok::<Members, Seq<char>>(object.view()),
                    Err(error) => result is Err && error.view() == Failure::Install(result->Err_0),
                }
            },
        },
{
    match parse_json_object(existing, "Hermes shell-hook allowlist") {
        Err(error) => Err(error),
        Ok(root) => approve_hooks(root, events, previous_command, command, approved_at, script_mtime),
    }
}

/// Whether `r` is the text that an object is printed as, and the end of a line.
pub open spec fn printed_json(r: Result<String, CliError>, members: Members) -> bool {
    match json_pretty_text(JsonView::Object(members)) {
        Ok(text) => r is Ok && r->Ok_0@ == text + "\n"@,
        Err(error) => r is Err && r->Err_0.view() == Failure::Install(error),
    }
}

/// Prints an allowlist.
pub fn json_string(root: JsonObject) -> (r: Result<String, CliError>)
    ensures
        printed_json(r, root.view()),
{
    match Json::Object(root).to_pretty_json() {
        Ok(text) => Ok(text.concat("\n")),
        Err(error) => Err(CliError::Install(error)),
    }
}

/// The approval of this command on this event.
pub open spec fn approves(entry: JsonView, event: Seq<char>, command: Seq<char>) -> bool {
    entry.text_at("event"@) == Some(event) && entry.text_at("command"@) == Some(command)
}

/// How many of the first `n` entries approve this command on this event.
pub open spec fn approval_count(entries: Seq<JsonView>, event: Seq<char>, command: Seq<char>, n: int) -> int
    decreases n,
{
    if n <= 0 {
        0
    } else {
        approval_count(entries, event, command, n - 1) + (if approves(entries[n - 1], event, command) {
            1int
        } else {
            0
        })
    }
}

/// What is wrong with the approvals of the events from place `from` on: each has to have exactly one.
pub open spec fn missing_approval(
    entries: Seq<JsonView>,
    events: Seq<Seq<char>>,
    command: Seq<char>,
    from: int,
) -> Option<Seq<char>>
    decreases events.len() - from,
{
    if from >= events.len() {
        None
    } else if approval_count(entries, events[from], command, entries.len() as int) != 1 {
        Some("Hermes hook "@ + events[from] + " expected exactly one trust approval"@)
    } else {
        missing_approval(entries, events, command, from + 1)
    }
}

/// What is wrong with the entries from place `from` on: one for the command has to be for an event.
pub open spec fn stray_approval(
    entries: Seq<JsonView>,
    events: Seq<Seq<char>>,
    command: Seq<char>,
    from: int,
) -> Option<Seq<char>>
    decreases entries.len() - from,
{
    if from >= entries.len() {
        None
    } else if entries[from].text_at("command"@) != Some(command) {
        stray_approval(entries, events, command, from + 1)
    } else {
        match entries[from].text_at("event"@) {
            None => Some("Hermes Relay hook approval is missing its event"@),
            Some(event) => if events.contains(event) {
                stray_approval(entries, events, command, from + 1)
            } else {
                Some("Hermes allowlist contains an unexpected Relay hook approval"@)
            },
        }
    }
}

/// What is wrong with the approvals of a command in an allowlist.
pub open spec fn trust_error(root: Members, events: Seq<Seq<char>>, command: Seq<char>) -> Option<Seq<char>> {
    match lookup(root, "approvals"@) {
        Some(JsonView::Array(entries)) => match missing_approval(entries, events, command, 0) {
            Some(error) => Some(error),
            None => stray_approval(entries, events, command, 0),
        },
        _ => Some("Hermes shell-hook approvals are missing"@),
    }
}

fn text_is(value: Option<&str>, text: &str) -> (r: bool)
    ensures
        r == (opt_str(value) == Some(text@)),
{
    match value {
        Some(s) => same_text(s, text),
        None => false,
    }
}

fn approved_once(entries: &Vec<Json>, event: &str, command: &str) -> (r: bool)
    ensures
        r == (approval_count(array_view(entries@), event@, command@, entries@.len() as int) == 1),
{
    let mut once = false;
    let mut twice = false;
    let mut i: usize = 0;
    while i < entries.len()
        invariant
            i <= entries.len(),
            ({
                let count = approval_count(array_view(entries@), event@, command@, i as int);
                &&& 0 <= count
                &&& once == (count >= 1)
                &&& twice == (count >= 2)
            }),
        decreases entries.len() - i,
    {
        assert(array_view(entries@)[i as int] == entries@[i as int]@);
        if text_is(entries[i].text_at("event"), event) && text_is(entries[i].text_at("command"), command) {
            if once {
                twice = true;
            }
            once = true;
        }
        i += 1;
    }
    once && !twice
}

fn check_stray(entries: &Vec<Json>, events: &Vec<String>, command: &str) -> (r: Result<(), String>)
    ensures
        answers(r, stray_approval(array_view(entries@), texts(events@), command@, 0)),
{
    let ghost all = array_view(entries@);
    let ghost names = texts(events@);
    let mut i: usize = 0;
    while i < entries.len()
        invariant
            i <= entries.len(),
            all == array_view(entries@),
            names == texts(events@),
            stray_approval(all, names, command@, 0) == stray_approval(all, names, command@, i as int),
        decreases entries.len() - i,
    {
        assert(all[i as int] == entries@[i as int]@);
        if text_is(entries[i].text_at("command"), command) {
            match entries[i].text_at("event") {
                None => {
                    return Err("Hermes Relay hook approval is missing its event".to_owned());
                },
                Some(event) => {
                    if !any_text(events, event) {
                        return Err("Hermes allowlist contains an unexpected Relay hook approval".to_owned());
                    }
                },
            }
        }
        i += 1;
    }
    Ok(())
}

/// Checks that an allowlist approves a command exactly once on every event and nowhere else.
pub fn check_trust(root: &JsonObject, events: &Vec<String>, command: &str) -> (r: Result<(), String>)
    ensures
        answers(r, trust_error(root.view(), texts(events@), command@)),
{
    let entries = match root.get("approvals") {
        Some(Json::Array(entries)) => entries,
        _ => {
            return Err("Hermes shell-hook approvals are missing".to_owned());
        },
    };
    proof {
        array_holds(*entries);
    }
    let ghost all = array_view(entries@);
    let ghost names = texts(events@);
    let mut i: usize = 0;
    while i < events.len()
        invariant
            i <= events.len(),
            all == array_view(entries@),
            names == texts(events@),
            lookup(root.view(), "approvals"@) == Some(JsonView::Array(all)),
            missing_approval(all, names, command@, 0) == missing_approval(all, names, command@, i as int),
        decreases events.len() - i,
    {
        assert(names[i as int] == events@[i as int]@);
        if !approved_once(entries, events[i].as_str(), command) {
            return Err(
                "Hermes hook ".to_owned().concat(events[i].as_str()).concat(" expected exactly one trust approval"),
            );
        }
        i += 1;
    }
    check_stray(entries, events, command)
}

/// Checks the approvals in the allowlist that a text holds.
pub fn verify_trust(raw: &str, events: &Vec<String>, command: &str) -> (r: Result<(), String>)
    ensures
        match json_text_object(Some(raw@), "Hermes shell-hook allowlist"@) {
            Err(error) => r is Err && r->Err_0@ == error,
            Ok(root) => answers(r, trust_error(root, texts(events@), command@)),
        },
{
    match parse_json_object(Some(raw), "Hermes shell-hook allowlist") {
        Err(error) => Err(error.message().to_owned()),
        Ok(root) => check_trust(&root, events, command),
    }
}

/// How many of the first `n` groups have this command.
pub open spec fn command_count(groups: Seq<JsonView>, command: Seq<char>, n: int) -> int
    decreases n,
{
    if n <= 0 {
        0
    } else {
        command_count(groups, command, n - 1) + (if groups[n - 1].text_at("command"@) == Some(command) {
            1int
        } else {
            0
        })
    }
}

fn count_command(groups: &Vec<Json>, command: &str) -> (r: usize)
    ensures
        r == command_count(array_view(groups@), command@, groups@.len() as int),
{
    let mut count: usize = 0;
    let mut i: usize = 0;
    while i < groups.len()
        invariant
            i <= groups.len(),
            count <= i,
            count == command_count(array_view(groups@), command@, i as int),
        decreases groups.len() - i,
    {
        assert(array_view(groups@)[i as int] == groups@[i as int]@);
        if text_is(groups[i].text_at("command"), command) {
            count += 1;
        }
        i += 1;
    }
    count
}

/// What is wrong with the hooks of the events from place `from` on: each has to have exactly one handler.
pub open spec fn missing_hook(hooks: Option<JsonView>, events: Seq<Seq<char>>, command: Seq<char>, from: int) -> Option<
    Seq<char>,
>
    decreases events.len() - from,
{
    if from >= events.len() {
        None
    } else {
        match hooks_at(hooks, events[from]) {
            None => Some("Hermes hook "@ + events[from] + " is missing"@),
            Some(groups) => if command_count(groups, command, groups.len() as int) != 1 {
                Some("Hermes hook "@ + events[from] + " expected exactly one trusted Relay handler"@)
            } else {
                missing_hook(hooks, events, command, from + 1)
            },
        }
    }
}

/// The groups of an event, where it has any.
pub open spec fn hooks_at(hooks: Option<JsonView>, event: Seq<char>) -> Option<Seq<JsonView>> {
    match hooks {
        Some(h) => match h.get(event) {
            Some(JsonView::Array(groups)) => Some(groups),
            _ => None,
        },
        None => None,
    }
}

/// What is wrong with the hooks from place `from` on: groups stand in arrays, and none of an event that has
/// no hook has the command.
pub open spec fn stray_hook(hooks: Members, events: Seq<Seq<char>>, command: Seq<char>, from: int) -> Option<Seq<char>>
    decreases hooks.len() - from,
{
    if from >= hooks.len() {
        None
    } else {
        match hooks[from].1 {
            JsonView::Array(groups) => if !events.contains(hooks[from].0) && command_count(
                groups,
                command,
                groups.len() as int,
            ) > 0 {
                Some("Hermes config contains an unexpected Relay hook handler"@)
            } else {
                stray_hook(hooks, events, command, from + 1)
            },
            _ => Some("Hermes "@ + hooks[from].0 + " hooks must be an array"@),
        }
    }
}

/// What is wrong with the hooks of a command in a configuration.
pub open spec fn hooks_error(root: Members, events: Seq<Seq<char>>, command: Seq<char>) -> Option<Seq<char>> {
    match missing_hook(lookup(root, "hooks"@), events, command, 0) {
        Some(error) => Some(error),
        None => match lookup(root, "hooks"@) {
            Some(JsonView::Object(hooks)) => stray_hook(hooks, events, command, 0),
            _ => None,
        },
    }
}

fn check_stray_hooks(hooks: &JsonObject, events: &Vec<String>, command: &str) -> (r: Result<(), String>)
    ensures
        answers(r, stray_hook(hooks.view(), texts(events@), command@, 0)),
{
    let ghost names = texts(events@);
    let mut i: usize = 0;
    while i < hooks.len()
        invariant
            i <= hooks.view().len(),
            names == texts(events@),
            stray_hook(hooks.view(), names, command@, 0) == stray_hook(hooks.view(), names, command@, i as int),
        decreases hooks.view().len() - i,
    {
        let event = hooks.key_at(i);
        match hooks.value_at(i) {
            Json::Array(groups) => {
                proof {
                    array_holds(*groups);
                }
                if !any_text(events, event) && count_command(groups, command) > 0 {
                    return Err("Hermes config contains an unexpected Relay hook handler".to_owned());
                }
            },
            _ => {
                return Err("Hermes ".to_owned().concat(event).concat(" hooks must be an array"));
            },
        }
        i += 1;
    }
    Ok(())
}

/// Checks that a configuration has a command exactly once on every event and nowhere else.
pub fn verify_hook_definitions(config: &JsonObject, events: &Vec<String>, command: &str) -> (r: Result<(), String>)
    ensures
        answers(r, hooks_error(config.view(), texts(events@), command@)),
{
    let hooks = config.get("hooks");
    let ghost hooks_view = lookup(config.view(), "hooks"@);
    let ghost names = texts(events@);
    let mut i: usize = 0;
    while i < events.len()
        invariant
            i <= events.len(),
            names == texts(events@),
            hooks_view == lookup(config.view(), "hooks"@),
            match hooks {
                Some(h) => hooks_view == Some(h@),
                None => hooks_view is None,
            },
            missing_hook(hooks_view, names, command@, 0) == missing_hook(hooks_view, names, command@, i as int),
        decreases events.len() - i,
    {
        let event = events[i].as_str();
        assert(names[i as int] == event@);
        let groups = match hooks {
            Some(h) => h.get(event),
            None => None,
        };
        match groups {
            Some(Json::Array(list)) => {
                proof {
                    array_holds(*list);
                }
                if count_command(list, command) != 1 {
                    return Err(
                        "Hermes hook ".to_owned().concat(event).concat(
                            " expected exactly one trusted Relay handler",
                        ),
                    );
                }
            },
            _ => {
                return Err("Hermes hook ".to_owned().concat(event).concat(" is missing"));
            },
        }
        i += 1;
    }
    match hooks {
        Some(Json::Object(object)) => check_stray_hooks(object, events, command),
        _ => Ok(()),
    }
}

} // verus!
