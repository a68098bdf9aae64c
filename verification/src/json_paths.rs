//! Texts deep inside a JSON value.

use crate::json::{Json, JsonView};
use crate::text::opt_str;
use vstd::prelude::*;
use vstd::string::*;

verus! {

/// A path: the keys that lead from an object inward.
pub type KeyPath = Seq<Seq<char>>;

/// What the keys of paths are.
pub open spec fn paths_view(paths: Seq<Vec<&str>>) -> Seq<KeyPath> {
    Seq::new(paths.len(), |i: int| path_view(paths[i]@))
}

/// What the keys of a path are.
pub open spec fn path_view(path: Seq<&str>) -> KeyPath {
    Seq::new(path.len(), |i: int| path[i]@)
}

/// The value that the keys from place `from` on lead to.
pub open spec fn value_behind(value: JsonView, path: KeyPath, from: int) -> Option<JsonView>
    decreases path.len() - from,
{
    if from >= path.len() {
        Some(value)
    } else {
        match value.get(path[from]) {
            Some(inner) => value_behind(inner, path, from + 1),
            None => None,
        }
    }
}

/// The text that a path leads to, where it is not empty.
pub open spec fn text_behind(value: JsonView, path: KeyPath) -> Option<Seq<char>> {
    match value_behind(value, path, 0) {
        Some(JsonView::Text(text)) => if text.len() > 0 {
            Some(text)
        } else {
            None
        },
        _ => None,
    }
}

/// The text that the first of the paths from place `from` on leads to which leads to any.
pub open spec fn first_text(value: JsonView, paths: Seq<KeyPath>, from: int) -> Option<Seq<char>>
    decreases paths.len() - from,
{
    if from >= paths.len() {
        None
    } else {
        match text_behind(value, paths[from]) {
            Some(text) => Some(text),
            None => first_text(value, paths, from + 1),
        }
    }
}

/// The text under a key of an object, where it is not empty.
pub open spec fn told(value: JsonView, key: Seq<char>) -> Option<Seq<char>> {
    match value.get(key) {
        Some(JsonView::Text(text)) => if text.len() > 0 {
            Some(text)
        } else {
            None
        },
        _ => None,
    }
}

/// The text under a key of the object under another key, where it is not empty.
pub open spec fn told_within(value: JsonView, outer: Seq<char>, key: Seq<char>) -> Option<Seq<char>> {
    match value.get(outer) {
        Some(inner) => told(inner, key),
        None => None,
    }
}

/// The first of two texts, or the second where there is no first.
pub open spec fn or_told(first: Option<Seq<char>>, second: Option<Seq<char>>) -> Option<Seq<char>> {
    match first {
        Some(text) => Some(text),
        None => second,
    }
}

/// A path of one key leads to the text that is told under it.
pub proof fn a_key_leads_to_its_text(value: JsonView, key: Seq<char>)
    ensures
        text_behind(value, seq![key]) == told(value, key),
{
    reveal_with_fuel(value_behind, 3);
}

/// A path of two keys leads to the text that is told under the second in the object under the first.
pub proof fn two_keys_lead_to_their_text(value: JsonView, outer: Seq<char>, key: Seq<char>)
    ensures
        text_behind(value, seq![outer, key]) == told_within(value, outer, key),
{
    reveal_with_fuel(value_behind, 4);
}

/// Of several paths the first that leads to a text, and is not empty, decides: what stands behind later ones
/// matters only where no earlier one leads to a text.
pub proof fn the_first_text_is_taken(value: JsonView, paths: Seq<KeyPath>, from: int)
    requires
        0 <= from,
    ensures
        match first_text(value, paths, from) {
            Some(text) => exists|i: int|
                from <= i < paths.len() && #[trigger] text_behind(value, paths[i]) == Some(text) && (forall|j: int|
                    from <= j < i ==> (#[trigger] text_behind(value, paths[j])) is None),
            None => forall|j: int| from <= j < paths.len() ==> (#[trigger] text_behind(value, paths[j])) is None,
        },
    decreases paths.len() - from,
{
    if from < paths.len() && text_behind(value, paths[from]) is None {
        the_first_text_is_taken(value, paths, from + 1);
    }
}

fn find_text<'a>(value: &'a Json, path: &Vec<&str>) -> (r: Option<&'a str>)
    ensures
        opt_str(r) == text_behind(value@, path_view(path@)),
{
    let ghost keys = path_view(path@);
    let mut inner = value;
    let mut i: usize = 0;
    while i < path.len()
        invariant
            i <= path.len(),
            keys == path_view(path@),
            value_behind(value@, keys, 0) == value_behind(inner@, keys, i as int),
        decreases path.len() - i,
    {
        assert(keys[i as int] == path@[i as int]@);
        match inner.get(path[i]) {
            Some(next) => {
                inner = next;
            },
            None => {
                return None;
            },
        }
        i += 1;
    }
    match inner.as_text() {
        Some(text) => {
            if text.is_empty() {
                None
            } else {
                Some(text)
            }
        },
        None => None,
    }
}

/// The text that the first of `paths` leads to which leads to one that is not empty.
pub fn json_string_at<'a>(value: &'a Json, paths: &Vec<Vec<&str>>) -> (r: Option<&'a str>)
    ensures
        opt_str(r) == first_text(value@, paths_view(paths@), 0),
{
    let ghost all = paths_view(paths@);
    let mut i: usize = 0;
    while i < paths.len()
        invariant
            i <= paths.len(),
            all == paths_view(paths@),
            first_text(value@, all, 0) == first_text(value@, all, i as int),
        decreases paths.len() - i,
    {
        assert(all[i as int] == path_view(paths@[i as int]@));
        let found = find_text(value, &paths[i]);
        if found.is_some() {
            return found;
        }
        i += 1;
    }
    None
}

} // verus!
