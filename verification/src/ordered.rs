//! Maps from text to values, kept as entries in increasing order of their keys.

use crate::text::{chars_of, same_text};
use vstd::prelude::*;
use vstd::string::*;

verus! {

/// Whether `a` comes before `b` in the order of their characters.
pub open spec fn text_less(a: Seq<char>, b: Seq<char>) -> bool
    decreases a.len(),
{
    if b.len() == 0 {
        false
    } else if a.len() == 0 {
        true
    } else if a[0] != b[0] {
        (a[0] as int) < (b[0] as int)
    } else {
        text_less(a.drop_first(), b.drop_first())
    }
}

/// Keys in strictly increasing order, so each key once.
pub open spec fn sorted<V>(s: Seq<(Seq<char>, V)>) -> bool {
    forall|i: int, j: int| 0 <= i < j < s.len() ==> text_less(#[trigger] s[i].0, #[trigger] s[j].0)
}

/// Whether some entry has the key `k`.
pub open spec fn has_key<V>(s: Seq<(Seq<char>, V)>, k: Seq<char>) -> bool {
    lookup(s, k) is Some
}

/// The value at key `k`.
pub open spec fn lookup<V>(s: Seq<(Seq<char>, V)>, k: Seq<char>) -> Option<V>
    decreases s.len(),
{
    if s.len() == 0 {
        None
    } else if s[0].0 == k {
        Some(s[0].1)
    } else {
        lookup(s.drop_first(), k)
    }
}

/// The entries with `v` at key `k`: in the place of the old value, or where the order puts it.
pub open spec fn inserted<V>(s: Seq<(Seq<char>, V)>, k: Seq<char>, v: V) -> Seq<(Seq<char>, V)>
    decreases s.len(),
{
    if s.len() == 0 {
        seq![(k, v)]
    } else if s[0].0 == k {
        seq![(k, v)] + s.drop_first()
    } else if text_less(k, s[0].0) {
        seq![(k, v)] + s
    } else {
        seq![s[0]] + inserted(s.drop_first(), k, v)
    }
}

/// The entries without the key `k`.
pub open spec fn removed<V>(s: Seq<(Seq<char>, V)>, k: Seq<char>) -> Seq<(Seq<char>, V)>
    decreases s.len(),
{
    if s.len() == 0 {
        s
    } else if s[0].0 == k {
        s.drop_first()
    } else {
        seq![s[0]] + removed(s.drop_first(), k)
    }
}

/// The order on texts is strict and total.
pub proof fn text_less_total(a: Seq<char>, b: Seq<char>)
    ensures
        text_less(a, b) ==> !text_less(b, a) && a != b,
        a != b ==> text_less(a, b) || text_less(b, a),
        !text_less(a, a),
    decreases a.len(),
{
    if a.len() > 0 && b.len() > 0 {
        text_less_total(a.drop_first(), b.drop_first());
        if a[0] == b[0] && a.drop_first() == b.drop_first() {
            assert(a =~= seq![a[0]] + a.drop_first());
            assert(b =~= seq![b[0]] + b.drop_first());
        }
    } else if a.len() == 0 && b.len() == 0 {
        assert(a =~= b);
    }
    if a.len() > 0 {
        text_less_total(a.drop_first(), a.drop_first());
    }
}

/// The order on texts is transitive.
pub proof fn text_less_transitive(a: Seq<char>, b: Seq<char>, c: Seq<char>)
    requires
        text_less(a, b),
        text_less(b, c),
    ensures
        text_less(a, c),
    decreases a.len(),
{
    if a.len() > 0 && a[0] == b[0] && b[0] == c[0] {
        text_less_transitive(a.drop_first(), b.drop_first(), c.drop_first());
    }
}

/// Where a key stands, the value found is the one beside it; a key that stands nowhere is not found.
pub proof fn lookup_at<V>(s: Seq<(Seq<char>, V)>, i: int)
    requires
        0 <= i < s.len(),
        forall|j: int| 0 <= j < i ==> (#[trigger] s[j]).0 != s[i].0,
    ensures
        lookup(s, s[i].0) == Some(s[i].1),
    decreases s.len(),
{
    if i > 0 {
        assert(s[0].0 != s[i].0);
        assert forall|j: int| 0 <= j < i - 1 implies (#[trigger] s.drop_first()[j]).0 != s.drop_first()[i - 1].0 by {
            assert(s[j + 1].0 != s[i].0);
        }
        lookup_at(s.drop_first(), i - 1);
    }
}

/// A key that stands nowhere is not found.
pub proof fn lookup_absent<V>(s: Seq<(Seq<char>, V)>, k: Seq<char>)
    requires
        forall|j: int| 0 <= j < s.len() ==> (#[trigger] s[j]).0 != k,
    ensures
        lookup(s, k) is None,
    decreases s.len(),
{
    if s.len() > 0 {
        assert(s[0].0 != k);
        assert forall|j: int| 0 <= j < s.len() - 1 implies (#[trigger] s.drop_first()[j]).0 != k by {
            assert(s[j + 1].0 != k);
        }
        lookup_absent(s.drop_first(), k);
    }
}

/// A key that is found stands somewhere.
pub proof fn lookup_present<V>(s: Seq<(Seq<char>, V)>, k: Seq<char>) -> (i: int)
    requires
        has_key(s, k),
    ensures
        0 <= i < s.len(),
        s[i].0 == k,
        lookup(s, k) == Some(s[i].1),
    decreases s.len(),
{
    if s[0].0 == k {
        0
    } else {
        lookup_present(s.drop_first(), k) + 1
    }
}

/// After an insertion the key has the new value and every other key what it had.
pub proof fn lookup_inserted<V>(s: Seq<(Seq<char>, V)>, k: Seq<char>, v: V, other: Seq<char>)
    requires
        sorted(s),
    ensures
        lookup(inserted(s, k, v), other) == (if other == k { Some(v) } else { lookup(s, other) }),
    decreases s.len(),
{
    reveal_with_fuel(lookup, 2);
    if s.len() == 0 {
        assert(inserted(s, k, v).drop_first() =~= s);
    } else if s[0].0 == k {
        assert(inserted(s, k, v).drop_first() =~= s.drop_first());
    } else if text_less(k, s[0].0) {
        assert(inserted(s, k, v).drop_first() =~= s);
    } else {
        assert(inserted(s, k, v).drop_first() =~= inserted(s.drop_first(), k, v));
        assert forall|i: int, j: int| 0 <= i < j < s.drop_first().len() implies text_less(
            #[trigger] s.drop_first()[i].0,
            #[trigger] s.drop_first()[j].0,
        ) by {
            assert(text_less(s[i + 1].0, s[j + 1].0));
        }
        lookup_inserted(s.drop_first(), k, v, other);
    }
}

/// After a removal the key is gone and every other key has what it had.
pub proof fn lookup_removed<V>(s: Seq<(Seq<char>, V)>, k: Seq<char>, other: Seq<char>)
    requires
        sorted(s),
    ensures
        lookup(removed(s, k), other) == (if other == k { None::<V> } else { lookup(s, other) }),
    decreases s.len(),
{
    if s.len() > 0 {
        assert forall|i: int, j: int| 0 <= i < j < s.drop_first().len() implies text_less(
            #[trigger] s.drop_first()[i].0,
            #[trigger] s.drop_first()[j].0,
        ) by {
            assert(text_less(s[i + 1].0, s[j + 1].0));
        }
        if s[0].0 == k {
            assert forall|j: int| 0 <= j < s.drop_first().len() implies (#[trigger] s.drop_first()[j]).0 != k by {
                assert(text_less(s[0].0, s[j + 1].0));
                text_less_total(s[0].0, s[j + 1].0);
            }
            lookup_absent(s.drop_first(), k);
        } else {
            assert(removed(s, k).drop_first() =~= removed(s.drop_first(), k));
            lookup_removed(s.drop_first(), k, other);
        }
    }
}

/// The place of an insertion: behind every key that is smaller.
pub proof fn inserted_at<V>(s: Seq<(Seq<char>, V)>, k: Seq<char>, v: V, i: int)
    requires
        sorted(s),
        0 <= i <= s.len(),
        forall|j: int| 0 <= j < i ==> text_less(#[trigger] s[j].0, k),
        i < s.len() ==> !text_less(s[i].0, k),
    ensures
        i < s.len() && s[i].0 == k ==> inserted(s, k, v) == s.update(i, (k, v)),
        !(i < s.len() && s[i].0 == k) ==> inserted(s, k, v) == s.insert(i, (k, v)),
        sorted(inserted(s, k, v)),
    decreases s.len(),
{
    inserted_place(s, k, v, i);
    let t = inserted(s, k, v);
    if i < s.len() {
        text_less_total(s[i].0, k);
    }
    assert forall|a: int, b: int| 0 <= a < b < t.len() implies text_less(#[trigger] t[a].0, #[trigger] t[b].0) by {
        if i < s.len() && s[i].0 == k {
            assert(text_less(s[a].0, s[b].0));
        } else {
            if i < s.len() && b > i {
                assert(text_less(k, s[i].0));
                if b - 1 > i {
                    assert(text_less(s[i].0, s[b - 1].0));
                    text_less_transitive(k, s[i].0, s[b - 1].0);
                }
            }
            if a < i && b > i {
                assert(text_less(s[a].0, s[b - 1].0));
            } else if a < i && b < i {
                assert(text_less(s[a].0, s[b].0));
            } else if a > i {
                assert(text_less(s[a - 1].0, s[b - 1].0));
            }
        }
    }
}

proof fn inserted_place<V>(s: Seq<(Seq<char>, V)>, k: Seq<char>, v: V, i: int)
    requires
        0 <= i <= s.len(),
        forall|j: int| 0 <= j < i ==> text_less(#[trigger] s[j].0, k),
        i < s.len() ==> !text_less(s[i].0, k),
    ensures
        i < s.len() && s[i].0 == k ==> inserted(s, k, v) == s.update(i, (k, v)),
        !(i < s.len() && s[i].0 == k) ==> inserted(s, k, v) == s.insert(i, (k, v)),
    decreases s.len(),
{
    if s.len() == 0 {
        assert(inserted(s, k, v) =~= s.insert(i, (k, v)));
    } else {
        text_less_total(s[0].0, k);
        if i == 0 {
            if s[0].0 == k {
                assert(inserted(s, k, v) =~= s.update(i, (k, v)));
            } else {
                assert(inserted(s, k, v) =~= s.insert(i, (k, v)));
            }
        } else {
            assert(text_less(s[0].0, k));
            let rest = s.drop_first();
            assert forall|j: int| 0 <= j < i - 1 implies text_less(#[trigger] rest[j].0, k) by {
                assert(text_less(s[j + 1].0, k));
            }
            inserted_place(rest, k, v, i - 1);
            if i < s.len() && s[i].0 == k {
                assert(inserted(s, k, v) =~= s.update(i, (k, v)));
            } else {
                assert(inserted(s, k, v) =~= s.insert(i, (k, v)));
            }
        }
    }
}

/// The place of a removal.
pub proof fn removed_at<V>(s: Seq<(Seq<char>, V)>, k: Seq<char>, i: int)
    requires
        0 <= i <= s.len(),
        forall|j: int| 0 <= j < i ==> (#[trigger] s[j]).0 != k,
        i < s.len() ==> s[i].0 == k,
    ensures
        removed(s, k) == (if i < s.len() { s.remove(i) } else { s }),
    decreases s.len(),
{
    if s.len() > 0 && i > 0 {
        assert(s[0].0 != k);
        let rest = s.drop_first();
        assert forall|j: int| 0 <= j < i - 1 implies (#[trigger] rest[j]).0 != k by {
            assert(s[j + 1].0 != k);
        }
        removed_at(rest, k, i - 1);
        if i < s.len() {
            assert(removed(s, k) =~= s.remove(i));
        } else {
            assert(removed(s, k) =~= s);
        }
    } else if s.len() > 0 {
        assert(removed(s, k) =~= s.remove(0));
    }
}

proof fn rest_is_sorted<V>(s: Seq<(Seq<char>, V)>)
    requires
        sorted(s),
        s.len() > 0,
    ensures
        sorted(s.drop_first()),
        forall|j: int| 0 <= j < s.drop_first().len() ==> text_less(s[0].0, (#[trigger] s.drop_first()[j]).0),
{
    assert forall|i: int, j: int| 0 <= i < j < s.drop_first().len() implies text_less(
        #[trigger] s.drop_first()[i].0,
        #[trigger] s.drop_first()[j].0,
    ) by {
        assert(text_less(s[i + 1].0, s[j + 1].0));
    }
    assert forall|j: int| 0 <= j < s.drop_first().len() implies text_less(
        s[0].0,
        (#[trigger] s.drop_first()[j]).0,
    ) by {
        assert(text_less(s[0].0, s[j + 1].0));
    }
}

/// An insertion keeps the order.
pub proof fn inserted_sorted<V>(s: Seq<(Seq<char>, V)>, k: Seq<char>, v: V)
    requires
        sorted(s),
    ensures
        sorted(inserted(s, k, v)),
{
    let i = insertion_place(s, k);
    inserted_at(s, k, v, i);
}

proof fn insertion_place<V>(s: Seq<(Seq<char>, V)>, k: Seq<char>) -> (i: int)
    requires
        sorted(s),
    ensures
        0 <= i <= s.len(),
        forall|j: int| 0 <= j < i ==> text_less(#[trigger] s[j].0, k),
        i < s.len() ==> !text_less(s[i].0, k),
    decreases s.len(),
{
    if s.len() == 0 || !text_less(s[0].0, k) {
        0
    } else {
        rest_is_sorted(s);
        let i = insertion_place(s.drop_first(), k);
        assert forall|j: int| 0 <= j < i + 1 implies text_less(#[trigger] s[j].0, k) by {
            if j > 0 {
                assert(s.drop_first()[j - 1] == s[j]);
            }
        }
        i + 1
    }
}

/// A removal keeps the order.
pub proof fn removed_sorted<V>(s: Seq<(Seq<char>, V)>, k: Seq<char>)
    requires
        sorted(s),
    ensures
        sorted(removed(s, k)),
{
    if has_key(s, k) {
        let i = lookup_present(s, k);
        assert forall|j: int| 0 <= j < i implies (#[trigger] s[j]).0 != k by {
            assert(text_less(s[j].0, s[i].0));
            text_less_total(s[j].0, s[i].0);
        }
        removed_at(s, k, i);
        let t = s.remove(i);
        assert forall|a: int, b: int| 0 <= a < b < t.len() implies text_less(#[trigger] t[a].0, #[trigger] t[b].0) by {
            let x = if a < i { a } else { a + 1 };
            let y = if b < i { b } else { b + 1 };
            assert(text_less(s[x].0, s[y].0));
        }
    } else {
        removed_absent(s, k);
    }
}

/// In an ordered map the value that stands beside a key is the one that is found.
pub proof fn lookup_sorted<V>(s: Seq<(Seq<char>, V)>, i: int)
    requires
        sorted(s),
        0 <= i < s.len(),
    ensures
        lookup(s, s[i].0) == Some(s[i].1),
{
    assert forall|j: int| 0 <= j < i implies (#[trigger] s[j]).0 != s[i].0 by {
        assert(text_less(s[j].0, s[i].0));
        text_less_total(s[j].0, s[i].0);
    }
    lookup_at(s, i);
}

/// A key before the first, or one that is not there, is not found.
proof fn lookup_before<V>(s: Seq<(Seq<char>, V)>, k: Seq<char>)
    requires
        sorted(s),
        s.len() > 0 ==> text_less(k, s[0].0),
    ensures
        lookup(s, k) is None,
{
    assert forall|j: int| 0 <= j < s.len() implies (#[trigger] s[j]).0 != k by {
        if j > 0 {
            assert(text_less(s[0].0, s[j].0));
            text_less_transitive(k, s[0].0, s[j].0);
        }
        text_less_total(k, s[j].0);
    }
    lookup_absent(s, k);
}

/// Ordered maps that find the same values are the same.
pub proof fn same_lookups<V>(a: Seq<(Seq<char>, V)>, b: Seq<(Seq<char>, V)>)
    requires
        sorted(a),
        sorted(b),
        forall|k: Seq<char>| #[trigger] lookup(a, k) == lookup(b, k),
    ensures
        a == b,
    decreases a.len(),
{
    if a.len() == 0 {
        if b.len() > 0 {
            lookup_sorted(b, 0);
            assert(lookup(a, b[0].0) == lookup(b, b[0].0));
        }
        assert(a =~= b);
    } else if b.len() == 0 {
        lookup_sorted(a, 0);
        assert(lookup(a, a[0].0) == lookup(b, a[0].0));
    } else {
        lookup_sorted(a, 0);
        lookup_sorted(b, 0);
        assert(lookup(a, a[0].0) == lookup(b, a[0].0));
        assert(lookup(a, b[0].0) == lookup(b, b[0].0));
        text_less_total(a[0].0, b[0].0);
        if text_less(a[0].0, b[0].0) {
            lookup_before(b, a[0].0);
        } else if text_less(b[0].0, a[0].0) {
            lookup_before(a, b[0].0);
        }
        assert(a[0] == b[0]);
        rest_is_sorted(a);
        rest_is_sorted(b);
        assert forall|k: Seq<char>| #[trigger] lookup(a.drop_first(), k) == lookup(b.drop_first(), k) by {
            assert(lookup(a, k) == lookup(b, k));
            if k == a[0].0 {
                if a.drop_first().len() > 0 {
                    assert(text_less(a[0].0, a.drop_first()[0].0));
                }
                if b.drop_first().len() > 0 {
                    assert(text_less(b[0].0, b.drop_first()[0].0));
                }
                lookup_before(a.drop_first(), k);
                lookup_before(b.drop_first(), k);
            }
        }
        same_lookups(a.drop_first(), b.drop_first());
        assert(a =~= seq![a[0]] + a.drop_first());
        assert(b =~= seq![b[0]] + b.drop_first());
    }
}

/// Taking out a key that is not there changes nothing.
pub proof fn removed_absent<V>(s: Seq<(Seq<char>, V)>, k: Seq<char>)
    requires
        !has_key(s, k),
    ensures
        removed(s, k) == s,
    decreases s.len(),
{
    if s.len() > 0 {
        removed_absent(s.drop_first(), k);
        assert(removed(s, k) =~= s);
    }
}

/// Whether `a` comes before `b`.
pub fn text_before(a: &str, b: &str) -> (r: bool)
    ensures
        r == text_less(a@, b@),
{
    let x: Vec<char> = chars_of(a);
    let y: Vec<char> = chars_of(b);
    let mut i: usize = 0;
    proof {
        assert(a@.skip(0) =~= a@);
        assert(b@.skip(0) =~= b@);
    }
    while i < x.len() && i < y.len()
        invariant
            x@ == a@,
            y@ == b@,
            i <= x.len(),
            i <= y.len(),
            text_less(a@, b@) == text_less(a@.skip(i as int), b@.skip(i as int)),
        decreases x.len() - i,
    {
        if x[i] != y[i] {
            return x[i] < y[i];
        }
        proof {
            assert(a@.skip(i as int).drop_first() =~= a@.skip(i + 1));
            assert(b@.skip(i as int).drop_first() =~= b@.skip(i + 1));
        }
        i += 1;
    }
    i < y.len()
}

/// A map from text to values.
#[derive(Debug)]
pub struct StringMap<V> {
    entries: Vec<(String, V)>,
}

impl<V> StringMap<V> {
    #[verifier::type_invariant]
    closed spec fn keys_increase(self) -> bool {
        forall|i: int, j: int|
            0 <= i < j < self.entries@.len() ==> text_less(#[trigger] self.entries@[i].0@, #[trigger] self.entries@[j].0@)
    }
}

impl<V: Clone> Clone for StringMap<V> {
    fn clone(&self) -> (r: Self)
        ensures
            r.raw().len() == self.raw().len(),
            forall|i: int|
                0 <= i < self.raw().len() ==> (#[trigger] r.raw()[i]).0 == self.raw()[i].0 && cloned::<V>(
                    self.raw()[i].1,
                    r.raw()[i].1,
                ),
    {
        proof {
            use_type_invariant(self);
        }
        let mut entries: Vec<(String, V)> = Vec::new();
        let mut i: usize = 0;
        while i < self.entries.len()
            invariant
                i <= self.entries.len(),
                entries.len() == i,
                forall|j: int|
                    0 <= j < i ==> (#[trigger] entries@[j]).0 == self.entries@[j].0 && cloned::<V>(
                        self.entries@[j].1,
                        entries@[j].1,
                    ),
            decreases self.entries.len() - i,
        {
            entries.push((self.entries[i].0.clone(), self.entries[i].1.clone()));
            i += 1;
        }
        StringMap { entries }
    }
}

impl<V> StringMap<V> {
    /// The entries as they are kept.
    pub closed spec fn raw(&self) -> Seq<(String, V)> {
        self.entries@
    }
}

impl<V: View> StringMap<V> {
    /// The entries, in increasing order of their keys.
    pub closed spec fn view(&self) -> Seq<(Seq<char>, V::V)> {
        Seq::new(self.entries@.len(), |i: int| (self.entries@[i].0@, self.entries@[i].1@))
    }

    pub fn new() -> (r: Self)
        ensures
            r.view() == Seq::<(Seq<char>, V::V)>::empty(),
    {
        let r = StringMap { entries: Vec::new() };
        assert(r.view() =~= Seq::<(Seq<char>, V::V)>::empty());
        r
    }

    pub fn len(&self) -> (r: usize)
        ensures
            r == self.view().len(),
            sorted(self.view()),
    {
        proof {
            use_type_invariant(self);
        }
        self.entries.len()
    }

    pub fn is_empty(&self) -> (r: bool)
        ensures
            r == (self.view().len() == 0),
    {
        self.entries.len() == 0
    }

    /// The key of the entry at place `i`.
    pub fn key_at(&self, i: usize) -> (r: &str)
        requires
            i < self.view().len(),
        ensures
            r@ == self.view()[i as int].0,
    {
        self.entries[i].0.as_str()
    }

    /// The value of the entry at place `i`.
    pub fn value_at(&self, i: usize) -> (r: &V)
        requires
            i < self.view().len(),
        ensures
            r@ == self.view()[i as int].1,
    {
        &self.entries[i].1
    }

    /// The value at `key`.
    pub fn get(&self, key: &str) -> (r: Option<&V>)
        ensures
            match r {
                Some(v) => lookup(self.view(), key@) == Some(v@),
                None => lookup(self.view(), key@) is None,
            },
    {
        let mut i: usize = 0;
        while i < self.entries.len()
            invariant
                i <= self.entries.len(),
                forall|j: int| 0 <= j < i ==> (#[trigger] self.view()[j]).0 != key@,
            decreases self.entries.len() - i,
        {
            if same_text(self.entries[i].0.as_str(), key) {
                proof {
                    lookup_at(self.view(), i as int);
                }
                return Some(&self.entries[i].1);
            }
            i += 1;
        }
        proof {
            lookup_absent(self.view(), key@);
        }
        None
    }

    pub fn contains_key(&self, key: &str) -> (r: bool)
        ensures
            r == has_key(self.view(), key@),
    {
        self.get(key).is_some()
    }

    /// Puts `value` at `key`, in place of what stood there.
    pub fn insert(&mut self, key: String, value: V)
        ensures
            final(self).view() == inserted(old(self).view(), key@, value@),
            sorted(old(self).view()),
            sorted(final(self).view()),
    {
        proof {
            use_type_invariant(&*self);
        }
        let ghost before = self.view();
        let ghost k = key@;
        let mut entries: Vec<(String, V)> = Vec::new();
        std::mem::swap(&mut entries, &mut self.entries);
        let ghost raw = entries@;
        let mut i: usize = 0;
        while i < entries.len() && text_before(entries[i].0.as_str(), key.as_str())
            invariant
                i <= entries.len(),
                entries@ == raw,
                k == key@,
                before == Seq::new(raw.len(), |j: int| (raw[j].0@, raw[j].1@)),
                forall|j: int| 0 <= j < i ==> text_less(#[trigger] before[j].0, key@),
            decreases entries.len() - i,
        {
            i += 1;
        }
        proof {
            inserted_at(before, k, value@, i as int);
        }
        let ghost value_view = value@;
        if i < entries.len() && same_text(entries[i].0.as_str(), key.as_str()) {
            entries.set(i, (key, value));
            assert(Seq::new(entries@.len(), |j: int| (entries@[j].0@, entries@[j].1@)) =~= before.update(
                i as int,
                (k, value_view),
            ));
        } else {
            entries.insert(i, (key, value));
            assert(Seq::new(entries@.len(), |j: int| (entries@[j].0@, entries@[j].1@)) =~= before.insert(
                i as int,
                (k, value_view),
            ));
        }
        let ghost after = inserted(before, k, value_view);
        assert forall|a: int, b: int| 0 <= a < b < entries@.len() implies text_less(
            #[trigger] entries@[a].0@,
            #[trigger] entries@[b].0@,
        ) by {
            assert(after[a].0 == entries@[a].0@ && after[b].0 == entries@[b].0@);
        }
        let made = StringMap { entries };
        *self = made;
    }
}

} // verus!
