//! JSON values and the calls that read and print them.

use crate::ordered::{
    has_key, inserted, inserted_at, inserted_sorted, lookup, lookup_absent, lookup_at, lookup_inserted, lookup_present,
    lookup_sorted, removed, removed_at, sorted, text_before, text_less, text_less_total,
};
use crate::text::{opt_text, same_text};
use vstd::prelude::*;
use vstd::string::*;

verus! {

/// A JSON value.
#[derive(Debug, PartialEq)]
pub enum Json {
    Null,
    Bool(bool),
    /// An integer from zero up.
    Unsigned(u64),
    /// Any other number.
    Number(JsonNumber),
    Text(String),
    Array(Vec<Json>),
    Object(JsonObject),
}

/// A number that no `u64` holds, carried as it was read.
#[derive(Debug, PartialEq)]
pub struct JsonNumber {
    number: serde_json::Number,
}

/// The members of a JSON object, in increasing order of their keys, each key once.
#[derive(Debug, PartialEq)]
pub struct JsonObject {
    entries: Vec<(String, Json)>,
}

/// `serde_json::Number`, carried and never looked into.
#[verifier::external_type_specification]
#[verifier::external_body]
pub struct ExNumber(serde_json::Number);

/// `serde_json::Value`, the form in which documents are read and printed.
#[verifier::external_type_specification]
#[verifier::external_body]
pub struct ExValue(serde_json::Value);

/// What a JSON value is.
pub enum JsonView {
    Null,
    Bool(bool),
    Unsigned(u64),
    Number(JsonNumber),
    Text(Seq<char>),
    Array(Seq<JsonView>),
    Object(Seq<(Seq<char>, JsonView)>),
}

/// The members of a JSON object.
pub type Members = Seq<(Seq<char>, JsonView)>;

impl JsonView {
    /// The member `key` of an object.
    pub open spec fn get(self, key: Seq<char>) -> Option<JsonView> {
        match self {
            JsonView::Object(members) => lookup(members, key),
            _ => None,
        }
    }

    /// The member `key` of an object, `Null` where there is none.
    pub open spec fn index(self, key: Seq<char>) -> JsonView {
        match self.get(key) {
            Some(value) => value,
            None => JsonView::Null,
        }
    }

    pub open spec fn text(self) -> Option<Seq<char>> {
        match self {
            JsonView::Text(s) => Some(s),
            _ => None,
        }
    }

    /// The text at the member `key`.
    pub open spec fn text_at(self, key: Seq<char>) -> Option<Seq<char>> {
        self.index(key).text()
    }

    /// Whether every number inside is an integer from zero up.
    pub open spec fn plain(self) -> bool
        decreases self,
    {
        match self {
            JsonView::Number(_) => false,
            JsonView::Array(items) => forall|i: int| 0 <= i < items.len() ==> (#[trigger] items[i]).plain(),
            JsonView::Object(members) => forall|i: int| 0 <= i < members.len() ==> (#[trigger] members[i]).1.plain(),
            _ => true,
        }
    }
}

impl Json {
    pub open spec fn view(&self) -> JsonView
        decreases self,
    {
        match self {
            Json::Null => JsonView::Null,
            Json::Bool(b) => JsonView::Bool(*b),
            Json::Unsigned(n) => JsonView::Unsigned(*n),
            Json::Number(n) => JsonView::Number(*n),
            Json::Text(s) => JsonView::Text(s@),
            Json::Array(items) => JsonView::Array(
                Seq::new(
                    items@.len(),
                    |i: int|
                        if 0 <= i < items@.len() {
                            items@[i].view()
                        } else {
                            JsonView::Null
                        },
                ),
            ),
            Json::Object(object) => JsonView::Object(object.view()),
        }
    }
}

/// The values that a vector holds.
pub open spec fn array_view(items: Seq<Json>) -> Seq<JsonView> {
    Seq::new(items.len(), |i: int| items[i]@)
}

proof fn array_view_is(items: Vec<Json>)
    ensures
        Json::Array(items)@ == JsonView::Array(array_view(items@)),
{
    assert(Json::Array(items)@->Array_0 =~= array_view(items@));
}

impl View for JsonObject {
    type V = Members;

    open spec fn view(&self) -> Members {
        JsonObject::view(self)
    }
}

impl JsonObject {
    pub closed spec fn view(&self) -> Members
        decreases self,
    {
        Seq::new(
            self.entries@.len(),
            |i: int|
                if 0 <= i < self.entries@.len() {
                    (self.entries@[i].0@, self.entries@[i].1.view())
                } else {
                    (Seq::empty(), JsonView::Null)
                },
        )
    }

    #[verifier::type_invariant]
    closed spec fn keys_increase(self) -> bool {
        forall|i: int, j: int|
            0 <= i < j < self.entries@.len() ==> text_less(#[trigger] self.entries@[i].0@, #[trigger] self.entries@[j].0@)
    }

    pub fn new() -> (r: Self)
        ensures
            r.view() == Members::empty(),
    {
        let r = JsonObject { entries: Vec::new() };
        assert(r.view() =~= Members::empty());
        r
    }

    pub fn len(&self) -> (r: usize)
        ensures
            r == self.view().len(),
            sorted(self.view()),
    {
        proof {
            use_type_invariant(self);
        }
        self.entries.len()
    }

    /// The key of the member at place `i`.
    pub fn key_at(&self, i: usize) -> (r: &str)
        requires
            i < self.view().len(),
        ensures
            r@ == self.view()[i as int].0,
    {
        self.entries[i].0.as_str()
    }

    /// The value of the member at place `i`.
    pub fn value_at(&self, i: usize) -> (r: &Json)
        requires
            i < self.view().len(),
        ensures
            r@ == self.view()[i as int].1,
            decreases_to!(*self => *r),
    {
        &self.entries[i].1
    }

    /// The value of the member `key`.
    pub fn get(&self, key: &str) -> (r: Option<&Json>)
        ensures
            match r {
                Some(v) => lookup(self.view(), key@) == Some(v@),
                None => lookup(self.view(), key@) is None,
            },
    {
        let mut i: usize = 0;
        while i < self.entries.len()
            invariant
                i <= self.entries.len(),
                forall|j: int| 0 <= j < i ==> (#[trigger] self.view()[j]).0 != key@,
            decreases self.entries.len() - i,
        {
            if same_text(self.entries[i].0.as_str(), key) {
                proof {
                    lookup_at(self.view(), i as int);
                }
                return Some(&self.entries[i].1);
            }
            i += 1;
        }
        proof {
            lookup_absent(self.view(), key@);
        }
        None
    }

    pub fn contains_key(&self, key: &str) -> (r: bool)
        ensures
            r == has_key(self.view(), key@),
    {
        self.get(key).is_some()
    }

    /// Puts `value` at `key`, in place of what stood there.
    pub fn insert(&mut self, key: String, value: Json)
        ensures
            final(self).view() == inserted(old(self).view(), key@, value@),
            sorted(old(self).view()),
            sorted(final(self).view()),
    {
        proof {
            use_type_invariant(&*self);
        }
        let ghost before = self.view();
        let ghost k = key@;
        let ghost v = value@;
        let mut entries: Vec<(String, Json)> = Vec::new();
        std::mem::swap(&mut entries, &mut self.entries);
        let ghost raw = entries@;
        let mut i: usize = 0;
        while i < entries.len() && text_before(entries[i].0.as_str(), key.as_str())
            invariant
                i <= entries.len(),
                entries@ == raw,
                before.len() == raw.len(),
                forall|j: int| 0 <= j < raw.len() ==> #[trigger] before[j] == (raw[j].0@, raw[j].1@),
                forall|j: int| 0 <= j < i ==> text_less(#[trigger] before[j].0, key@),
            decreases entries.len() - i,
        {
            i += 1;
        }
        proof {
            inserted_at(before, k, v, i as int);
        }
        let ghost after = inserted(before, k, v);
        if i < entries.len() && same_text(entries[i].0.as_str(), key.as_str()) {
            entries.set(i, (key, value));
        } else {
            entries.insert(i, (key, value));
        }
        assert(after.len() == entries@.len());
        assert forall|j: int| 0 <= j < entries@.len() implies #[trigger] after[j] == (entries@[j].0@, entries@[j].1@) by {
            if j < i {
                assert(before[j] == (raw[j].0@, raw[j].1@));
            }
            if after.len() > before.len() && j > i {
                assert(before[j - 1] == (raw[j - 1].0@, raw[j - 1].1@));
            }
        }
        assert forall|a: int, b: int| 0 <= a < b < entries@.len() implies text_less(
            #[trigger] entries@[a].0@,
            #[trigger] entries@[b].0@,
        ) by {
            assert(after[a].0 == entries@[a].0@ && after[b].0 == entries@[b].0@);
        }
        let made = JsonObject { entries };
        assert(made.view() =~= after);
        *self = made;
    }

    /// Takes out the member `key` and returns its value.
    pub fn take(&mut self, key: &str) -> (r: Option<Json>)
        ensures
            final(self).view() == removed(old(self).view(), key@),
            match r {
                Some(v) => lookup(old(self).view(), key@) == Some(v@),
                None => lookup(old(self).view(), key@) is None,
            },
            sorted(old(self).view()),
            sorted(final(self).view()),
    {
        proof {
            use_type_invariant(&*self);
        }
        let ghost before = self.view();
        let mut entries: Vec<(String, Json)> = Vec::new();
        std::mem::swap(&mut entries, &mut self.entries);
        let ghost raw = entries@;
        let mut i: usize = 0;
        while i < entries.len() && !same_text(entries[i].0.as_str(), key)
            invariant
                i <= entries.len(),
                entries@ == raw,
                before.len() == raw.len(),
                forall|j: int| 0 <= j < raw.len() ==> #[trigger] before[j] == (raw[j].0@, raw[j].1@),
                forall|j: int| 0 <= j < i ==> (#[trigger] before[j]).0 != key@,
            decreases entries.len() - i,
        {
            i += 1;
        }
        proof {
            removed_at(before, key@, i as int);
            if i < entries.len() {
                lookup_at(before, i as int);
            } else {
                lookup_absent(before, key@);
            }
        }
        if i < entries.len() {
            let (_, value) = entries.remove(i);
            assert forall|a: int, b: int| 0 <= a < b < entries@.len() implies text_less(
                #[trigger] entries@[a].0@,
                #[trigger] entries@[b].0@,
            ) by {
                let x = if a < i { a } else { a + 1 };
                let y = if b < i { b } else { b + 1 };
                assert(text_less(raw[x].0@, raw[y].0@));
            }
            let made = JsonObject { entries };
            assert(made.view() =~= before.remove(i as int)) by {
                assert forall|j: int| 0 <= j < made.view().len() implies made.view()[j] == before.remove(i as int)[j] by {
                    let x = if j < i { j } else { j + 1 };
                    assert(before[x] == (raw[x].0@, raw[x].1@));
                }
            }
            assert(sorted(made.view()));
            *self = made;
            Some(value)
        } else {
            let made = JsonObject { entries };
            assert(made.view() =~= before);
            *self = made;
            None
        }
    }
}

/// `serde_json::Number`'s `Clone`: the same number.
pub assume_specification[ <serde_json::Number as Clone>::clone ](n: &serde_json::Number) -> (r: serde_json::Number)
    ensures
        r == n,
;

fn copy_json(json: &Json) -> (r: Json)
    ensures
        r@ == json@,
    decreases json,
{
    match json {
        Json::Null => Json::Null,
        Json::Bool(b) => Json::Bool(*b),
        Json::Unsigned(n) => Json::Unsigned(*n),
        Json::Number(n) => Json::Number(JsonNumber { number: n.number.clone() }),
        Json::Text(s) => Json::Text(s.clone()),
        Json::Array(items) => {
            let mut copied: Vec<Json> = Vec::new();
            let mut i: usize = 0;
            while i < items.len()
                invariant
                    i <= items.len(),
                    copied.len() == i,
                    decreases_to!(json => items@),
                    forall|j: int| 0 <= j < i ==> (#[trigger] copied@[j])@ == items@[j]@,
                decreases items.len() - i,
            {
                copied.push(copy_json(&items[i]));
                i += 1;
            }
            let r = Json::Array(copied);
            assert(r@->Array_0 =~= json@->Array_0);
            r
        },
        Json::Object(object) => Json::Object(copy_object(object)),
    }
}

fn copy_object(object: &JsonObject) -> (r: JsonObject)
    ensures
        r.view() == object.view(),
    decreases object,
{
    proof {
        use_type_invariant(object);
    }
    let mut entries: Vec<(String, Json)> = Vec::new();
    let mut i: usize = 0;
    while i < object.entries.len()
        invariant
            i <= object.entries.len(),
            entries.len() == i,
            forall|j: int|
                0 <= j < i ==> (#[trigger] entries@[j]).0@ == object.entries@[j].0@ && entries@[j].1@
                    == object.entries@[j].1@,
        decreases object.entries.len() - i,
    {
        entries.push((object.entries[i].0.clone(), copy_json(&object.entries[i].1)));
        i += 1;
    }
    let r = JsonObject { entries };
    assert(r.view() =~= object.view());
    r
}

impl Clone for Json {
    fn clone(&self) -> (r: Self)
        ensures
            r@ == self@,
    {
        copy_json(self)
    }
}

impl Clone for JsonObject {
    fn clone(&self) -> (r: Self)
        ensures
            r.view() == self.view(),
    {
        copy_object(self)
    }
}

impl Json {
    /// The member `key` of an object.
    pub fn get(&self, key: &str) -> (r: Option<&Json>)
        ensures
            match r {
                Some(v) => self@.get(key@) == Some(v@),
                None => self@.get(key@) is None,
            },
    {
        match self {
            Json::Object(object) => object.get(key),
            _ => None,
        }
    }

    pub fn as_text(&self) -> (r: Option<&str>)
        ensures
            match r {
                Some(s) => self@.text() == Some(s@),
                None => self@.text() is None,
            },
    {
        match self {
            Json::Text(s) => Some(s.as_str()),
            _ => None,
        }
    }

    /// The text at the member `key` of an object.
    pub fn text_at(&self, key: &str) -> (r: Option<&str>)
        ensures
            match r {
                Some(s) => self@.text_at(key@) == Some(s@),
                None => self@.text_at(key@) is None,
            },
    {
        match self.get(key) {
            Some(value) => value.as_text(),
            None => None,
        }
    }

    /// Whether this is the text `s`.
    pub fn is_text(&self, s: &str) -> (r: bool)
        ensures
            r == (self@ == JsonView::Text(s@)),
    {
        match self {
            Json::Text(t) => same_text(t.as_str(), s),
            _ => false,
        }
    }
}

proof fn plain_item(items: Seq<JsonView>, i: int)
    requires
        JsonView::Array(items).plain(),
        0 <= i < items.len(),
    ensures
        items[i].plain(),
{
    let array = JsonView::Array(items);
    assert(array->Array_0 == items);
    assert(array.plain() == (forall|j: int| 0 <= j < items.len() ==> (#[trigger] items[j]).plain()));
}

proof fn plain_member(members: Members, i: int)
    requires
        JsonView::Object(members).plain(),
        0 <= i < members.len(),
    ensures
        members[i].1.plain(),
{
    let object = JsonView::Object(members);
    assert(object->Object_0 == members);
    assert(object.plain() == (forall|j: int| 0 <= j < members.len() ==> (#[trigger] members[j]).1.plain()));
}

/// Putting a value without odd numbers into members without odd numbers leaves none.
pub proof fn inserted_plain(members: Members, key: Seq<char>, value: JsonView)
    requires
        JsonView::Object(members).plain(),
        value.plain(),
    ensures
        JsonView::Object(inserted(members, key, value)).plain(),
    decreases members.len(),
{
    let after = inserted(members, key, value);
    if members.len() > 0 {
        let rest = members.drop_first();
        assert forall|i: int| 0 <= i < rest.len() implies (#[trigger] rest[i]).1.plain() by {
            plain_member(members, i + 1);
        }
        plain_object(rest);
        inserted_plain(rest, key, value);
        plain_member(members, 0);
        assert forall|i: int| 0 <= i < after.len() implies (#[trigger] after[i]).1.plain() by {
            if members[0].0 == key {
                if i > 0 {
                    plain_member(members, i);
                }
            } else if text_less(key, members[0].0) {
                if i > 0 {
                    plain_member(members, i - 1);
                }
            } else {
                if i > 0 {
                    plain_member(inserted(rest, key, value), i - 1);
                }
            }
        }
    }
    plain_object(after);
}

proof fn plain_object(members: Members)
    requires
        forall|i: int| 0 <= i < members.len() ==> (#[trigger] members[i]).1.plain(),
    ensures
        JsonView::Object(members).plain(),
{
    let object = JsonView::Object(members);
    assert(object->Object_0 == members);
    assert(object.plain() == (forall|j: int| 0 <= j < members.len() ==> (#[trigger] members[j]).1.plain()));
}

/// A member of an object without odd numbers holds none.
pub proof fn lookup_plain(members: Members, key: Seq<char>)
    requires
        JsonView::Object(members).plain(),
        has_key(members, key),
    ensures
        lookup(members, key)->Some_0.plain(),
{
    let i = lookup_present(members, key);
    plain_member(members, i);
}

/// Members put together from pairs without odd numbers hold none.
pub proof fn members_of_plain(pairs: Members)
    requires
        forall|i: int| 0 <= i < pairs.len() ==> (#[trigger] pairs[i]).1.plain(),
    ensures
        JsonView::Object(members_of(pairs)).plain(),
    decreases pairs.len(),
{
    if pairs.len() > 0 {
        let before = pairs.drop_last();
        assert forall|i: int| 0 <= i < before.len() implies (#[trigger] before[i]).1.plain() by {
            assert(pairs[i].1.plain());
        }
        members_of_plain(before);
        assert(pairs[pairs.len() - 1].1.plain());
        inserted_plain(members_of(before), pairs.last().0, pairs.last().1);
    } else {
        plain_object(members_of(pairs));
    }
}

/// An array of texts holds no odd numbers.
pub proof fn texts_json_plain(s: Seq<Seq<char>>)
    ensures
        texts_json(s).plain(),
{
    let items = texts_json(s)->Array_0;
    let array = JsonView::Array(items);
    assert(array->Array_0 == items);
    assert(array.plain() == (forall|j: int| 0 <= j < items.len() ==> (#[trigger] items[j]).plain()));
}

/// Whether two values are the same.
pub fn same_json(a: &Json, b: &Json) -> (r: bool)
    requires
        b@.plain(),
    ensures
        r == (a@ == b@),
    decreases b,
{
    match (a, b) {
        (Json::Null, Json::Null) => true,
        (Json::Bool(x), Json::Bool(y)) => *x == *y,
        (Json::Unsigned(x), Json::Unsigned(y)) => *x == *y,
        (Json::Text(x), Json::Text(y)) => same_text(x.as_str(), y.as_str()),
        (Json::Array(x), Json::Array(y)) => {
            proof {
                array_view_is(*x);
                array_view_is(*y);
            }
            if x.len() != y.len() {
                assert(array_view(x@).len() != array_view(y@).len());
                return false;
            }
            let mut i: usize = 0;
            while i < x.len()
                invariant
                    i <= x.len(),
                    x.len() == y.len(),
                    b@.plain(),
                    decreases_to!(b => y@),
                    a@ == JsonView::Array(array_view(x@)),
                    b@ == JsonView::Array(array_view(y@)),
                    forall|j: int| 0 <= j < i ==> (#[trigger] x@[j])@ == y@[j]@,
                decreases x.len() - i,
            {
                proof {
                    plain_item(array_view(y@), i as int);
                }
                if !same_json(&x[i], &y[i]) {
                    assert(array_view(x@)[i as int] != array_view(y@)[i as int]);
                    return false;
                }
                i += 1;
            }
            assert(array_view(x@) =~= array_view(y@));
            true
        },
        (Json::Object(x), Json::Object(y)) => same_members(x, y),
        _ => false,
    }
}

fn same_members(a: &JsonObject, b: &JsonObject) -> (r: bool)
    requires
        JsonView::Object(b.view()).plain(),
    ensures
        r == (a.view() == b.view()),
    decreases b,
{
    if a.entries.len() != b.entries.len() {
        assert(a.view().len() != b.view().len());
        return false;
    }
    let mut i: usize = 0;
    while i < a.entries.len()
        invariant
            i <= a.entries.len(),
            a.entries.len() == b.entries.len(),
            JsonView::Object(b.view()).plain(),
            forall|j: int| 0 <= j < i ==> #[trigger] a.view()[j] == b.view()[j],
        decreases a.entries.len() - i,
    {
        proof {
            plain_member(b.view(), i as int);
        }
        if !same_text(a.entries[i].0.as_str(), b.entries[i].0.as_str()) || !same_json(
            &a.entries[i].1,
            &b.entries[i].1,
        ) {
            assert(a.view()[i as int] != b.view()[i as int]);
            return false;
        }
        i += 1;
    }
    assert(a.view() =~= b.view());
    true
}

/// What a `serde_json::Value` holds.
pub uninterp spec fn value_json(value: serde_json::Value) -> JsonView;

/// Takes a `serde_json::Value` apart, variant by variant: what the result holds is named `value_json`. The map of
/// an object hands its members out in increasing order of their keys, each once.
#[verifier::external_body]
fn json_from_value(value: serde_json::Value) -> (json: Json)
    ensures
        json@ == value_json(value),
{
    match value {
        serde_json::Value::Null => Json::Null,
        serde_json::Value::Bool(b) => Json::Bool(b),
        serde_json::Value::Number(n) => match n.as_u64() {
            Some(u) => Json::Unsigned(u),
            None => Json::Number(JsonNumber { number: n }),
        },
        serde_json::Value::String(s) => Json::Text(s),
        serde_json::Value::Array(a) => Json::Array(a.into_iter().map(json_from_value).collect()),
        serde_json::Value::Object(m) => {
            Json::Object(JsonObject { entries: m.into_iter().map(|(k, v)| (k, json_from_value(v))).collect() })
        },
    }
}

/// Builds the `serde_json::Value` that holds the same, variant by variant.
#[verifier::external_body]
fn value_from_json(json: &Json) -> (value: serde_json::Value)
    ensures
        value_json(value) == json@,
{
    match json {
        Json::Null => serde_json::Value::Null,
        Json::Bool(b) => serde_json::Value::Bool(*b),
        Json::Unsigned(n) => serde_json::Value::from(*n),
        Json::Number(n) => serde_json::Value::Number(n.number.clone()),
        Json::Text(s) => serde_json::Value::String(s.clone()),
        Json::Array(a) => serde_json::Value::Array(a.iter().map(value_from_json).collect()),
        Json::Object(o) => serde_json::Value::Object(
            o.entries.iter().map(|(k, v)| (k.clone(), value_from_json(v))).collect(),
        ),
    }
}

/// What `serde_yaml::from_str` reads as a JSON value in a text, or its error in words.
pub uninterp spec fn yaml_document(text: Seq<char>) -> Result<JsonView, Seq<char>>;

/// What `serde_json::from_str` reads as a JSON value in a text, or its error in words.
pub uninterp spec fn json_document(text: Seq<char>) -> Result<JsonView, Seq<char>>;

/// What `serde_json::from_slice` reads as a JSON value in bytes, where they are one.
pub uninterp spec fn json_bytes_document(bytes: Seq<u8>) -> Option<JsonView>;

/// What `serde_yaml::to_string` prints for a JSON value, or its error in words.
pub uninterp spec fn yaml_text(value: JsonView) -> Result<Seq<char>, Seq<char>>;

/// What `serde_json::to_string_pretty` prints for a JSON value, or its error in words.
pub uninterp spec fn json_pretty_text(value: JsonView) -> Result<Seq<char>, Seq<char>>;

/// `serde_yaml::from_str` into a `serde_json::Value`: the result is named `yaml_document`.
#[verifier::external_body]
fn read_yaml(text: &str) -> (r: Result<serde_json::Value, String>)
    ensures
        match r {
            Ok(v) => yaml_document(text@) == Ok::<JsonView, Seq<char>>(value_json(v)),
            Err(e) => yaml_document(text@) == Err::<JsonView, Seq<char>>(e@),
        },
{
    serde_yaml::from_str::<serde_json::Value>(text).map_err(|error| error.to_string())
}

/// `serde_json::from_str` into a `serde_json::Value`: the result is named `json_document`.
#[verifier::external_body]
fn read_json(text: &str) -> (r: Result<serde_json::Value, String>)
    ensures
        match r {
            Ok(v) => json_document(text@) == Ok::<JsonView, Seq<char>>(value_json(v)),
            Err(e) => json_document(text@) == Err::<JsonView, Seq<char>>(e@),
        },
{
    serde_json::from_str::<serde_json::Value>(text).map_err(|error| error.to_string())
}

/// `serde_json::from_slice` into a `serde_json::Value`: the result, without the words of an error, is named
/// `json_bytes_document`.
#[verifier::external_body]
fn read_json_bytes(bytes: &Vec<u8>) -> (r: Option<serde_json::Value>)
    ensures
        match r {
            Some(v) => json_bytes_document(bytes@) == Some(value_json(v)),
            None => json_bytes_document(bytes@) is None,
        },
{
    serde_json::from_slice::<serde_json::Value>(bytes).ok()
}

/// Reads the JSON document that bytes are, where they are one.
pub fn parse_json_bytes(bytes: &Vec<u8>) -> (r: Option<Json>)
    ensures
        match r {
            Some(v) => json_bytes_document(bytes@) == Some(v@),
            None => json_bytes_document(bytes@) is None,
        },
{
    match read_json_bytes(bytes) {
        Some(value) => Some(json_from_value(value)),
        None => None,
    }
}

/// `serde_yaml::to_string`: the result is named `yaml_text`.
#[verifier::external_body]
fn print_yaml(value: &serde_json::Value) -> (r: Result<String, String>)
    ensures
        match r {
            Ok(s) => yaml_text(value_json(*value)) == Ok::<Seq<char>, Seq<char>>(s@),
            Err(e) => yaml_text(value_json(*value)) == Err::<Seq<char>, Seq<char>>(e@),
        },
{
    serde_yaml::to_string(value).map_err(|error| error.to_string())
}

/// `serde_json::to_string_pretty`: the result is named `json_pretty_text`.
#[verifier::external_body]
fn print_json(value: &serde_json::Value) -> (r: Result<String, String>)
    ensures
        match r {
            Ok(s) => json_pretty_text(value_json(*value)) == Ok::<Seq<char>, Seq<char>>(s@),
            Err(e) => json_pretty_text(value_json(*value)) == Err::<Seq<char>, Seq<char>>(e@),
        },
{
    serde_json::to_string_pretty(value).map_err(|error| error.to_string())
}

impl Json {
    pub fn from_value(value: serde_json::Value) -> (r: Json)
        ensures
            r@ == value_json(value),
    {
        json_from_value(value)
    }

    pub fn to_value(&self) -> (r: serde_json::Value)
        ensures
            value_json(r) == self@,
    {
        value_from_json(self)
    }

    /// Reads a YAML document.
    pub fn from_yaml(text: &str) -> (r: Result<Json, String>)
        ensures
            match r {
                Ok(v) => yaml_document(text@) == Ok::<JsonView, Seq<char>>(v@),
                Err(e) => yaml_document(text@) == Err::<JsonView, Seq<char>>(e@),
            },
    {
        match read_yaml(text) {
            Ok(value) => Ok(json_from_value(value)),
            Err(error) => Err(error),
        }
    }

    /// Reads a JSON document.
    pub fn from_json(text: &str) -> (r: Result<Json, String>)
        ensures
            match r {
                Ok(v) => json_document(text@) == Ok::<JsonView, Seq<char>>(v@),
                Err(e) => json_document(text@) == Err::<JsonView, Seq<char>>(e@),
            },
    {
        match read_json(text) {
            Ok(value) => Ok(json_from_value(value)),
            Err(error) => Err(error),
        }
    }

    /// Prints a YAML document.
    pub fn to_yaml(&self) -> (r: Result<String, String>)
        ensures
            match r {
                Ok(s) => yaml_text(self@) == Ok::<Seq<char>, Seq<char>>(s@),
                Err(e) => yaml_text(self@) == Err::<Seq<char>, Seq<char>>(e@),
            },
    {
        let value = value_from_json(self);
        print_yaml(&value)
    }

    /// Prints an indented JSON document.
    pub fn to_pretty_json(&self) -> (r: Result<String, String>)
        ensures
            match r {
                Ok(s) => json_pretty_text(self@) == Ok::<Seq<char>, Seq<char>>(s@),
                Err(e) => json_pretty_text(self@) == Err::<Seq<char>, Seq<char>>(e@),
            },
    {
        let value = value_from_json(self);
        print_json(&value)
    }
}

/// The members that come of writing `pairs` one after the other.
pub open spec fn members_of(pairs: Members) -> Members
    decreases pairs.len(),
{
    if pairs.len() == 0 {
        Members::empty()
    } else {
        inserted(members_of(pairs.drop_last()), pairs.last().0, pairs.last().1)
    }
}

/// Whether no key occurs twice.
pub open spec fn keys_differ(pairs: Members) -> bool {
    forall|i: int, j: int| 0 <= i < j < pairs.len() ==> (#[trigger] pairs[i]).0 != (#[trigger] pairs[j]).0
}

/// What comes of writing pairs one after the other is in order.
pub proof fn pairs_in_order(pairs: Members)
    ensures
        sorted(members_of(pairs)),
    decreases pairs.len(),
{
    if pairs.len() > 0 {
        pairs_in_order(pairs.drop_last());
        inserted_sorted(members_of(pairs.drop_last()), pairs.last().0, pairs.last().1);
    }
}

/// A key that none of the pairs has is not in what comes of writing them.
pub proof fn an_object_holds_no_more(pairs: Members, key: Seq<char>)
    requires
        forall|i: int| 0 <= i < pairs.len() ==> (#[trigger] pairs[i]).0 != key,
    ensures
        lookup(members_of(pairs), key) is None,
    decreases pairs.len(),
{
    if pairs.len() > 0 {
        let front = pairs.drop_last();
        assert forall|i: int| 0 <= i < front.len() implies (#[trigger] front[i]).0 != key by {
            assert(pairs[i].0 != key);
        }
        an_object_holds_no_more(front, key);
        pairs_in_order(front);
        assert(pairs[pairs.len() - 1].0 != key);
        lookup_inserted(members_of(front), pairs.last().0, pairs.last().1, key);
    }
}

/// What comes of writing pairs, no key twice, has the value of each under its key.
pub proof fn an_object_tells_its_pairs(pairs: Members)
    requires
        keys_differ(pairs),
    ensures
        sorted(members_of(pairs)),
        forall|i: int| 0 <= i < pairs.len() ==> lookup(members_of(pairs), (#[trigger] pairs[i]).0) == Some(pairs[i].1),
    decreases pairs.len(),
{
    pairs_in_order(pairs);
    if pairs.len() > 0 {
        let front = pairs.drop_last();
        assert(keys_differ(front)) by {
            assert forall|i: int, j: int| 0 <= i < j < front.len() implies (#[trigger] front[i]).0 != (
            #[trigger] front[j]).0 by {
                assert(pairs[i].0 != pairs[j].0);
            }
        }
        an_object_tells_its_pairs(front);
        assert forall|i: int| 0 <= i < pairs.len() implies lookup(members_of(pairs), (#[trigger] pairs[i]).0) == Some(
            pairs[i].1,
        ) by {
            lookup_inserted(members_of(front), pairs.last().0, pairs.last().1, pairs[i].0);
            if i < front.len() {
                assert(front[i] == pairs[i]);
                assert(pairs[i].0 != pairs[pairs.len() - 1].0);
            }
        }
    }
}

/// The object that comes of writing `pairs` one after the other.
pub open spec fn object_of(pairs: Members) -> JsonView {
    JsonView::Object(members_of(pairs))
}

/// A text, or `Null`.
pub open spec fn opt_text_json(s: Option<Seq<char>>) -> JsonView {
    match s {
        Some(t) => JsonView::Text(t),
        None => JsonView::Null,
    }
}

/// What a vector of members holds.
pub open spec fn pairs_view(pairs: Seq<(&str, Json)>) -> Members {
    Seq::new(pairs.len(), |i: int| (pairs[i].0@, pairs[i].1@))
}

/// The object that comes of writing `pairs` one after the other.
pub fn json_object(pairs: Vec<(&str, Json)>) -> (r: Json)
    ensures
        r@ == object_of(pairs_view(pairs@)),
{
    let mut object = JsonObject::new();
    let mut i: usize = 0;
    assert(pairs_view(pairs@).take(0) =~= Members::empty());
    while i < pairs.len()
        invariant
            i <= pairs.len(),
            object.view() == members_of(pairs_view(pairs@).take(i as int)),
        decreases pairs.len() - i,
    {
        object.insert(pairs[i].0.to_owned(), pairs[i].1.clone());
        assert(pairs_view(pairs@).take(i + 1).drop_last() =~= pairs_view(pairs@).take(i as int));
        i += 1;
    }
    assert(pairs_view(pairs@).take(i as int) =~= pairs_view(pairs@));
    Json::Object(object)
}

/// The text `s`.
pub fn text_json(s: &str) -> (r: Json)
    ensures
        r@ == JsonView::Text(s@),
{
    Json::Text(s.to_owned())
}

/// The text that `s` holds, or `Null`.
pub fn opt_json(s: &Option<String>) -> (r: Json)
    ensures
        r@ == opt_text_json(opt_text(*s)),
{
    match s {
        Some(t) => Json::Text(t.clone()),
        None => Json::Null,
    }
}

/// Members in increasing order of their keys, written one after the other, stand as they are.
pub proof fn members_of_sorted(s: Members)
    requires
        sorted(s),
    ensures
        members_of(s) == s,
    decreases s.len(),
{
    if s.len() > 0 {
        let rest = s.drop_last();
        assert(sorted(rest)) by {
            assert forall|i: int, j: int| 0 <= i < j < rest.len() implies text_less(
                #[trigger] rest[i].0,
                #[trigger] rest[j].0,
            ) by {
                assert(text_less(s[i].0, s[j].0));
            }
        }
        members_of_sorted(rest);
        assert forall|j: int| 0 <= j < rest.len() implies text_less(#[trigger] rest[j].0, s.last().0) by {
            assert(text_less(s[j].0, s[s.len() - 1].0));
        }
        inserted_at(rest, s.last().0, s.last().1, rest.len() as int);
        assert(rest.insert(rest.len() as int, s.last()) =~= s);
    } else {
        assert(s =~= Members::empty());
    }
}

/// An array of texts.
pub open spec fn texts_json(s: Seq<Seq<char>>) -> JsonView {
    JsonView::Array(Seq::new(s.len(), |i: int| JsonView::Text(s[i])))
}

/// An array that holds what a vector holds.
pub proof fn array_holds(items: Vec<Json>)
    ensures
        Json::Array(items)@ == JsonView::Array(array_view(items@)),
{
    array_view_is(items);
}

/// `members` with each of `more` written into it.
pub open spec fn extended(members: Members, more: Members) -> Members
    decreases more.len(),
{
    if more.len() == 0 {
        members
    } else {
        inserted(extended(members, more.drop_last()), more.last().0, more.last().1)
    }
}

/// Writes each of `more` into `members`.
pub fn extend_members(members: &mut JsonObject, more: &JsonObject)
    ensures
        final(members).view() == extended(old(members).view(), more.view()),
{
    let ghost before = members.view();
    let mut i: usize = 0;
    assert(more.view().take(0) =~= Members::empty());
    while i < more.len()
        invariant
            i <= more.view().len(),
            members.view() == extended(before, more.view().take(i as int)),
        decreases more.view().len() - i,
    {
        members.insert(more.key_at(i).to_owned(), more.value_at(i).clone());
        assert(more.view().take(i + 1).drop_last() =~= more.view().take(i as int));
        i += 1;
    }
    assert(more.view().take(i as int) =~= more.view());
}

/// The entries of `more` stand over those of `members`.
pub proof fn lookup_extended(members: Members, more: Members, key: Seq<char>)
    requires
        sorted(members),
        sorted(more),
    ensures
        sorted(extended(members, more)),
        lookup(extended(members, more), key) == (if has_key(more, key) {
            lookup(more, key)
        } else {
            lookup(members, key)
        }),
    decreases more.len(),
{
    if more.len() > 0 {
        let front = more.drop_last();
        let entry = more.last();
        assert forall|i: int, j: int| 0 <= i < j < front.len() implies text_less(
            #[trigger] front[i].0,
            #[trigger] front[j].0,
        ) by {
            assert(text_less(more[i].0, more[j].0));
        }
        lookup_extended(members, front, key);
        inserted_sorted(extended(members, front), entry.0, entry.1);
        lookup_inserted(extended(members, front), entry.0, entry.1, key);
        lookup_sorted(more, more.len() - 1);
        if has_key(front, key) {
            let i = lookup_present(front, key);
            assert(more[i] == front[i]);
            lookup_sorted(more, i);
            assert(text_less(more[i].0, entry.0));
            text_less_total(more[i].0, entry.0);
        } else if has_key(more, key) {
            let i = lookup_present(more, key);
            if i < front.len() {
                assert(front[i] == more[i]);
                lookup_sorted(front, i);
            }
        }
    }
}

} // verus!
