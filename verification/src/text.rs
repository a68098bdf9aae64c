//! Text helpers: trimming, affixes, decimal numbers and quoting for messages.

use vstd::prelude::*;
use vstd::string::*;

verus! {

/// `std::string::String::push` appends one character at the end.
pub assume_specification[ String::push ](s: &mut String, ch: char)
    ensures
        final(s)@ == old(s)@.push(ch),
;

/// How `{:?}` prints a string: in double quotes, with what does not print escaped.
pub uninterp spec fn debug_text(s: Seq<char>) -> Seq<char>;

/// `std`'s `Debug` formatting of a `str`. The result is named `debug_text`.
#[verifier::external_body]
pub(crate) fn quoted(s: &str) -> (r: String)
    ensures
        r@ == debug_text(s@),
{
    format!("{s:?}")
}

/// The characters of `s`, in order.
pub fn chars_of(s: &str) -> (r: Vec<char>)
    ensures
        r@ == s@,
{
    let mut r: Vec<char> = Vec::new();
    for c in it: s.chars()
        invariant
            r@ == s@.take(it.index() as int),
            it.seq() == s@,
    {
        r.push(c);
        assert(s@.take(it.index() + 1) =~= s@.take(it.index() as int).push(c));
    }
    assert(s@.take(s@.len() as int) =~= s@);
    r
}

/// Whether two texts hold the same characters.
pub fn same_text(a: &str, b: &str) -> (r: bool)
    ensures
        r == (a@ == b@),
{
    a.to_owned() == b.to_owned()
}

/// The characters that Unicode counts as white space.
pub open spec fn is_white(c: char) -> bool {
    let n = c as u32;
    ||| 0x09 <= n <= 0x0d
    ||| n == 0x20
    ||| n == 0x85
    ||| n == 0xa0
    ||| n == 0x1680
    ||| 0x2000 <= n <= 0x200a
    ||| n == 0x2028
    ||| n == 0x2029
    ||| n == 0x202f
    ||| n == 0x205f
    ||| n == 0x3000
}

pub fn white(c: char) -> (r: bool)
    ensures
        r == is_white(c),
{
    let n: u32 = c as u32;
    (0x09 <= n && n <= 0x0d) || n == 0x20 || n == 0x85 || n == 0xa0 || n == 0x1680 || (0x2000 <= n && n <= 0x200a) || n
        == 0x2028 || n == 0x2029 || n == 0x202f || n == 0x205f || n == 0x3000
}

/// `s` without the white space at its start.
pub open spec fn trim_start(s: Seq<char>) -> Seq<char>
    decreases s.len(),
{
    if s.len() > 0 && is_white(s[0]) {
        trim_start(s.drop_first())
    } else {
        s
    }
}

/// `s` without the white space at its end.
pub open spec fn trim_end(s: Seq<char>) -> Seq<char>
    decreases s.len(),
{
    if s.len() > 0 && is_white(s.last()) {
        trim_end(s.drop_last())
    } else {
        s
    }
}

/// `s` without the white space at either end.
pub open spec fn trim(s: Seq<char>) -> Seq<char> {
    trim_end(trim_start(s))
}

/// Nothing but white space.
pub open spec fn blank(s: Seq<char>) -> bool {
    trim(s).len() == 0
}

/// `s` without the characters `c` at its end.
pub open spec fn trim_end_char(s: Seq<char>, c: char) -> Seq<char>
    decreases s.len(),
{
    if s.len() > 0 && s.last() == c {
        trim_end_char(s.drop_last(), c)
    } else {
        s
    }
}

/// `s` without the white space at either end.
pub fn trimmed(s: &str) -> (r: &str)
    ensures
        r@ == trim(s@),
{
    let cs: Vec<char> = chars_of(s);
    let mut from: usize = 0;
    assert(s@.skip(0) =~= s@);
    while from < cs.len() && white(cs[from])
        invariant
            cs@ == s@,
            from <= cs.len(),
            trim_start(s@) == trim_start(s@.skip(from as int)),
        decreases cs.len() - from,
    {
        assert(s@.skip(from as int).drop_first() =~= s@.skip(from + 1));
        from += 1;
    }
    let ghost tail = s@.skip(from as int);
    assert(trim_start(s@) == tail);
    let mut to: usize = cs.len();
    assert(s@.subrange(from as int, to as int) =~= tail);
    while from < to && white(cs[to - 1])
        invariant
            cs@ == s@,
            from <= to <= cs.len(),
            trim_end(tail) == trim_end(s@.subrange(from as int, to as int)),
        decreases to,
    {
        assert(s@.subrange(from as int, to as int).drop_last() =~= s@.subrange(from as int, to - 1));
        to -= 1;
    }
    s.substring_char(from, to)
}

/// Whether `s` holds nothing but white space.
pub fn is_blank(s: &str) -> (r: bool)
    ensures
        r == blank(s@),
{
    trimmed(s).is_empty()
}

/// `s` without the characters `c` at its end.
pub fn without_end_char(s: &str, c: char) -> (r: &str)
    ensures
        r@ == trim_end_char(s@, c),
{
    let cs: Vec<char> = chars_of(s);
    let mut to: usize = cs.len();
    assert(s@.subrange(0, to as int) =~= s@);
    while 0 < to && cs[to - 1] == c
        invariant
            cs@ == s@,
            to <= cs.len(),
            trim_end_char(s@, c) == trim_end_char(s@.subrange(0, to as int), c),
        decreases to,
    {
        assert(s@.subrange(0, to as int).drop_last() =~= s@.subrange(0, to - 1));
        to -= 1;
    }
    s.substring_char(0, to)
}

/// `s` begins with `prefix`.
pub open spec fn begins(s: Seq<char>, prefix: Seq<char>) -> bool {
    prefix.len() <= s.len() && s.take(prefix.len() as int) == prefix
}

/// `s` ends with `suffix`.
pub open spec fn ends(s: Seq<char>, suffix: Seq<char>) -> bool {
    suffix.len() <= s.len() && s.skip(s.len() - suffix.len()) == suffix
}

pub fn begins_with(s: &str, prefix: &str) -> (r: bool)
    ensures
        r == begins(s@, prefix@),
{
    let n: usize = prefix.unicode_len();
    if s.unicode_len() < n {
        return false;
    }
    same_text(s.substring_char(0, n), prefix)
}

pub fn ends_with(s: &str, suffix: &str) -> (r: bool)
    ensures
        r == ends(s@, suffix@),
{
    let n: usize = suffix.unicode_len();
    let m: usize = s.unicode_len();
    if m < n {
        return false;
    }
    same_text(s.substring_char(m - n, m), suffix)
}

/// `part` stands somewhere in `s`.
pub open spec fn holds(s: Seq<char>, part: Seq<char>) -> bool {
    exists|i: int| 0 <= i <= s.len() && begins(#[trigger] s.skip(i), part)
}

pub fn holds_text(s: &str, part: &str) -> (r: bool)
    ensures
        r == holds(s@, part@),
{
    let m: usize = s.unicode_len();
    let mut i: usize = 0;
    while i <= m
        invariant
            m == s@.len(),
            i <= m + 1,
            forall|j: int| 0 <= j < i ==> !begins(#[trigger] s@.skip(j), part@),
        decreases m + 1 - i,
    {
        if begins_with(s.substring_char(i, m), part) {
            assert(s@.subrange(i as int, m as int) =~= s@.skip(i as int));
            return true;
        }
        assert(s@.subrange(i as int, m as int) =~= s@.skip(i as int));
        if i == m {
            return false;
        }
        i += 1;
    }
    false
}

/// The decimal digits of `n`.
pub open spec fn decimal(n: nat) -> Seq<char>
    decreases n,
{
    if n < 10 {
        seq![digit(n)]
    } else {
        decimal(n / 10).push(digit(n % 10))
    }
}

/// The digit for a number below ten.
pub open spec fn digit(n: nat) -> char {
    ('0' as u32 + n) as char
}

/// `n` in decimal digits.
pub fn decimal_text(n: u64) -> (r: String)
    ensures
        r@ == decimal(n as nat),
    decreases n,
{
    let low: u8 = (n % 10) as u8;
    let c: char = (48 + low) as char;
    if n < 10 {
        let mut r = String::new();
        r.push(c);
        assert(r@ =~= seq![digit(n as nat)]);
        r
    } else {
        let mut r = decimal_text(n / 10);
        r.push(c);
        r
    }
}

/// What an optional text holds.
pub open spec fn opt_text(s: Option<String>) -> Option<Seq<char>> {
    match s {
        Some(t) => Some(t@),
        None => None,
    }
}

/// What an optional text holds.
pub open spec fn opt_str(s: Option<&str>) -> Option<Seq<char>> {
    match s {
        Some(t) => Some(t@),
        None => None,
    }
}

/// Texts one after another, with `separator` between them.
pub open spec fn joined(parts: Seq<Seq<char>>, separator: Seq<char>) -> Seq<char>
    decreases parts.len(),
{
    if parts.len() == 0 {
        Seq::empty()
    } else if parts.len() == 1 {
        parts[0]
    } else {
        joined(parts.drop_last(), separator) + separator + parts.last()
    }
}

/// Texts one after another, with `separator` between them.
pub fn join_texts(parts: &Vec<String>, separator: &str) -> (r: String)
    ensures
        r@ == joined(texts(parts@), separator@),
{
    let ghost all = texts(parts@);
    let mut r = String::new();
    let mut i: usize = 0;
    assert(all.take(0) =~= Seq::empty());
    assert(r@ =~= Seq::empty());
    while i < parts.len()
        invariant
            i <= parts.len(),
            all == texts(parts@),
            r@ == joined(all.take(i as int), separator@),
        decreases parts.len() - i,
    {
        assert(all.take(i + 1).drop_last() =~= all.take(i as int));
        assert(all.take(i + 1).last() == parts@[i as int]@);
        if i > 0 {
            r = r.concat(separator);
        }
        r = r.concat(parts[i].as_str());
        assert(r@ =~= joined(all.take(i + 1), separator@));
        i += 1;
    }
    assert(all.take(i as int) =~= all);
    r
}

/// What a vector of texts holds.
pub open spec fn texts(s: Seq<String>) -> Seq<Seq<char>> {
    Seq::new(s.len(), |i: int| s[i]@)
}

/// Whether one of `list` is `s`.
pub fn any_text(list: &Vec<String>, s: &str) -> (r: bool)
    ensures
        r == texts(list@).contains(s@),
{
    let mut i: usize = 0;
    while i < list.len()
        invariant
            i <= list.len(),
            forall|j: int| 0 <= j < i ==> #[trigger] texts(list@)[j] != s@,
        decreases list.len() - i,
    {
        if same_text(list[i].as_str(), s) {
            assert(texts(list@)[i as int] == s@);
            return true;
        }
        i += 1;
    }
    false
}

} // verus!
