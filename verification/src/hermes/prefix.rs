//! What the path of a file begins with on Windows: a drive, a share of the network, a device, or one of these in a
//! verbatim path, which is taken as it is written.

use crate::text::texts;
use vstd::prelude::*;
use vstd::string::*;

verus! {

/// A character that separates the parts of a path.
pub open spec fn separates(windows: bool, c: char) -> bool {
    c == '/' || (windows && c == '\\')
}

/// Whether a character separates the parts of a path.
pub(crate) fn is_separator(windows: bool, c: char) -> (r: bool)
    ensures
        r == separates(windows, c),
{
    c == '/' || (windows && c == '\\')
}

/// A character that separates the parts behind the prefix of a path: in a verbatim path the backslash alone.
pub open spec fn separates_in(windows: bool, verbatim: bool, c: char) -> bool {
    if verbatim {
        c == '\\'
    } else {
        separates(windows, c)
    }
}

/// Whether a character separates the parts behind the prefix of a path.
pub(crate) fn is_separator_in(windows: bool, verbatim: bool, c: char) -> (r: bool)
    ensures
        r == separates_in(windows, verbatim, c),
{
    if verbatim {
        c == '\\'
    } else {
        is_separator(windows, c)
    }
}

/// What a path begins with.
pub struct PrefixView {
    /// How many characters it has; none where there is no prefix.
    pub len: int,
    /// Whether the path is taken as it is written.
    pub verbatim: bool,
    /// Whether the root follows, though it is not written.
    pub rooted: bool,
    /// What kind of prefix it is, and what it names.
    pub parts: Seq<Seq<char>>,
}

/// A prefix, and what it is made of.
#[derive(Debug)]
pub struct PathPrefix {
    pub len: usize,
    pub verbatim: bool,
    pub rooted: bool,
    pub parts: Vec<String>,
}

impl PathPrefix {
    pub open spec fn view(&self) -> PrefixView {
        PrefixView {
            len: self.len as int,
            verbatim: self.verbatim,
            rooted: self.rooted,
            parts: texts(self.parts@),
        }
    }
}

/// A letter that names a drive.
pub open spec fn drive_letter(c: char) -> bool {
    'a' <= c <= 'z' || 'A' <= c <= 'Z'
}

/// A letter of a drive, in capitals.
pub open spec fn capital(c: char) -> char {
    if 'a' <= c <= 'z' {
        ((c as u32) - 32) as char
    } else {
        c
    }
}

/// Whether a text begins with a drive.
pub open spec fn begins_with_drive(s: Seq<char>) -> bool {
    s.len() >= 2 && drive_letter(s[0]) && s[1] == ':'
}

/// The name of the drive that a text begins with.
pub open spec fn drive_name(s: Seq<char>) -> Seq<char> {
    seq![capital(s[0]), ':']
}

/// How many characters stand before the first separator.
pub open spec fn name_len(verbatim: bool, s: Seq<char>) -> int
    decreases s.len(),
{
    if s.len() == 0 || separates_in(true, verbatim, s[0]) {
        0
    } else {
        1 + name_len(verbatim, s.skip(1))
    }
}

/// What stands before the first separator.
pub open spec fn first_name(verbatim: bool, s: Seq<char>) -> Seq<char> {
    s.take(name_len(verbatim, s))
}

/// What stands behind the first separator.
pub open spec fn behind_name(verbatim: bool, s: Seq<char>) -> Seq<char> {
    let n = name_len(verbatim, s);
    if n < s.len() {
        s.skip(n + 1)
    } else {
        Seq::empty()
    }
}

/// How many characters a server and a share have, with the separator between them.
pub open spec fn share_len(verbatim: bool, s: Seq<char>) -> int {
    let share = first_name(verbatim, behind_name(verbatim, s));
    name_len(verbatim, s) + if share.len() > 0 {
        1 + share.len()
    } else {
        0
    }
}

/// The prefix of a verbatim path, given what stands behind `\\?\`.
pub open spec fn verbatim_prefix(s: Seq<char>) -> PrefixView {
    if s.len() >= 4 && s[0] == 'U' && s[1] == 'N' && s[2] == 'C' && separates(true, s[3]) {
        let named = s.skip(4);
        PrefixView {
            len: 8 + share_len(true, named),
            verbatim: true,
            rooted: false,
            parts: seq!["\\\\?\\UNC\\"@, first_name(true, named), first_name(true, behind_name(true, named))],
        }
    } else if begins_with_drive(s) && (s.len() == 2 || separates(true, s[2])) {
        PrefixView { len: 6, verbatim: true, rooted: false, parts: seq!["\\\\?\\"@, drive_name(s)] }
    } else {
        PrefixView {
            len: 4 + name_len(true, s),
            verbatim: true,
            rooted: false,
            parts: seq!["\\\\?\\"@, first_name(true, s)],
        }
    }
}

pub open spec fn no_prefix() -> PrefixView {
    PrefixView { len: 0, verbatim: false, rooted: false, parts: Seq::empty() }
}

/// The prefix of a path that begins with two separators, given what stands behind them.
pub open spec fn network_prefix(s: Seq<char>) -> PrefixView {
    if s.len() >= 2 && s[0] == '.' && separates(true, s[1]) {
        let named = s.skip(2);
        PrefixView {
            len: 4 + name_len(false, named),
            verbatim: false,
            rooted: true,
            parts: seq!["\\\\.\\"@, first_name(false, named)],
        }
    } else {
        let server = first_name(false, s);
        let share = first_name(false, behind_name(false, s));
        if server.len() > 0 && share.len() > 0 {
            PrefixView {
                len: 2 + share_len(false, s),
                verbatim: false,
                rooted: true,
                parts: seq!["\\\\"@, server, share],
            }
        } else {
            no_prefix()
        }
    }
}

/// What a path begins with. Only `\\?\`, written with backslashes, makes a path verbatim.
pub open spec fn prefix_of(windows: bool, s: Seq<char>) -> PrefixView {
    if !windows {
        no_prefix()
    } else if s.len() >= 2 && separates(true, s[0]) && separates(true, s[1]) {
        if s.len() >= 4 && s[0] == '\\' && s[1] == '\\' && s[2] == '?' && s[3] == '\\' {
            verbatim_prefix(s.skip(4))
        } else {
            network_prefix(s.skip(2))
        }
    } else if begins_with_drive(s) {
        PrefixView { len: 2, verbatim: false, rooted: false, parts: seq![drive_name(s)] }
    } else {
        no_prefix()
    }
}

proof fn name_len_bounds(verbatim: bool, s: Seq<char>)
    ensures
        0 <= name_len(verbatim, s) <= s.len(),
    decreases s.len(),
{
    if s.len() > 0 && !separates_in(true, verbatim, s[0]) {
        name_len_bounds(verbatim, s.skip(1));
    }
}

/// A prefix is a part of its path.
pub proof fn prefix_bounds(windows: bool, s: Seq<char>)
    ensures
        0 <= prefix_of(windows, s).len <= s.len(),
        prefix_of(windows, s).verbatim ==> windows && prefix_of(windows, s).len >= 4,
{
    if s.len() >= 4 {
        let v = s.skip(4);
        name_len_bounds(true, v);
        name_len_bounds(false, v);
        if v.len() >= 4 {
            name_len_bounds(true, v.skip(4));
            name_len_bounds(true, behind_name(true, v.skip(4)));
        }
    }
    if s.len() >= 2 {
        let n = s.skip(2);
        name_len_bounds(false, n);
        name_len_bounds(false, behind_name(false, n));
        if n.len() >= 2 {
            assert(n.skip(2) =~= s.skip(4));
        }
    }
}

fn find_name_end(verbatim: bool, cs: &Vec<char>, from: usize) -> (r: usize)
    requires
        from <= cs.len(),
    ensures
        from <= r <= cs.len(),
        r - from == name_len(verbatim, cs@.skip(from as int)),
{
    let mut n: usize = from;
    while n < cs.len() && !is_separator_in(true, verbatim, cs[n])
        invariant
            from <= n <= cs.len(),
            name_len(verbatim, cs@.skip(from as int)) == n - from + name_len(verbatim, cs@.skip(n as int)),
        decreases cs.len() - n,
    {
        assert(cs@.skip(n as int)[0] == cs@[n as int]);
        assert(cs@.skip(n as int).skip(1) =~= cs@.skip(n + 1));
        n += 1;
    }
    if n < cs.len() {
        assert(cs@.skip(n as int)[0] == cs@[n as int]);
    }
    n
}

fn text_between(cs: &Vec<char>, from: usize, to: usize) -> (r: String)
    requires
        from <= to <= cs.len(),
    ensures
        r@ == cs@.subrange(from as int, to as int),
{
    let mut r = String::new();
    let mut i: usize = from;
    assert(r@ =~= cs@.subrange(from as int, from as int));
    while i < to
        invariant
            from <= i <= to <= cs.len(),
            r@ == cs@.subrange(from as int, i as int),
        decreases to - i,
    {
        r.push(cs[i]);
        assert(cs@.subrange(from as int, i + 1) =~= cs@.subrange(from as int, i as int).push(cs@[i as int]));
        i += 1;
    }
    r
}

fn in_capitals(c: char) -> (r: char)
    ensures
        r == capital(c),
{
    if 'a' <= c && c <= 'z' {
        ((c as u8) - 32) as char
    } else {
        c
    }
}

fn finds_drive(cs: &Vec<char>, from: usize) -> (r: bool)
    requires
        from <= cs.len(),
    ensures
        r == begins_with_drive(cs@.skip(from as int)),
{
    let ghost s = cs@.skip(from as int);
    if cs.len() - from < 2 {
        return false;
    }
    assert(s[0] == cs@[from as int] && s[1] == cs@[from + 1]);
    let c: char = cs[from];
    (('a' <= c && c <= 'z') || ('A' <= c && c <= 'Z')) && cs[from + 1] == ':'
}

fn drive_text(cs: &Vec<char>, from: usize) -> (r: String)
    requires
        from + 2 <= cs.len(),
    ensures
        r@ == drive_name(cs@.skip(from as int)),
{
    let mut r = String::new();
    r.push(in_capitals(cs[from]));
    r.push(':');
    assert(cs@.skip(from as int)[0] == cs@[from as int]);
    assert(r@ =~= drive_name(cs@.skip(from as int)));
    r
}

/// The server and the share that stand from `from` on, and where they end.
fn find_share(verbatim: bool, cs: &Vec<char>, from: usize) -> (r: (String, String, usize))
    requires
        from <= cs.len(),
    ensures
        from <= r.2 <= cs.len(),
        ({
            let s = cs@.skip(from as int);
            &&& r.0@ == first_name(verbatim, s)
            &&& r.1@ == first_name(verbatim, behind_name(verbatim, s))
            &&& r.2 - from == share_len(verbatim, s)
        }),
{
    let ghost s = cs@.skip(from as int);
    let end: usize = find_name_end(verbatim, cs, from);
    let server = text_between(cs, from, end);
    assert(server@ =~= first_name(verbatim, s));
    if end == cs.len() {
        let none = String::new();
        assert(behind_name(verbatim, s) =~= Seq::empty());
        assert(name_len(verbatim, Seq::empty()) == 0);
        assert(none@ =~= first_name(verbatim, behind_name(verbatim, s)));
        return (server, none, end);
    }
    let last: usize = find_name_end(verbatim, cs, end + 1);
    let share = text_between(cs, end + 1, last);
    assert(behind_name(verbatim, s) =~= cs@.skip(end + 1));
    assert(share@ =~= first_name(verbatim, behind_name(verbatim, s)));
    if last > end + 1 {
        (server, share, last)
    } else {
        (server, share, end)
    }
}

fn find_verbatim(cs: &Vec<char>) -> (r: PathPrefix)
    requires
        cs.len() >= 4,
    ensures
        r.view() == verbatim_prefix(cs@.skip(4)),
{
    let ghost s = cs@.skip(4);
    if cs.len() >= 8 && cs[4] == 'U' && cs[5] == 'N' && cs[6] == 'C' && is_separator(true, cs[7]) {
        let (server, share, end) = find_share(true, cs, 8);
        assert(s.skip(4) =~= cs@.skip(8));
        let parts: Vec<String> = vec!["\\\\?\\UNC\\".to_owned(), server, share];
        assert(texts(parts@) =~= verbatim_prefix(s).parts);
        return PathPrefix { len: end, verbatim: true, rooted: false, parts };
    }
    if finds_drive(cs, 4) && (cs.len() == 6 || is_separator(true, cs[6])) {
        let parts: Vec<String> = vec!["\\\\?\\".to_owned(), drive_text(cs, 4)];
        assert(texts(parts@) =~= verbatim_prefix(s).parts);
        return PathPrefix { len: 6, verbatim: true, rooted: false, parts };
    }
    let end: usize = find_name_end(true, cs, 4);
    let name = text_between(cs, 4, end);
    assert(name@ =~= first_name(true, s));
    let parts: Vec<String> = vec!["\\\\?\\".to_owned(), name];
    assert(texts(parts@) =~= verbatim_prefix(s).parts);
    PathPrefix { len: end, verbatim: true, rooted: false, parts }
}

fn none_found() -> (r: PathPrefix)
    ensures
        r.view() == no_prefix(),
{
    let parts: Vec<String> = Vec::new();
    assert(texts(parts@) =~= Seq::empty());
    PathPrefix { len: 0, verbatim: false, rooted: false, parts }
}

fn find_network(cs: &Vec<char>) -> (r: PathPrefix)
    requires
        cs.len() >= 2,
    ensures
        r.view() == network_prefix(cs@.skip(2)),
{
    let ghost s = cs@.skip(2);
    if cs.len() >= 4 && cs[2] == '.' && is_separator(true, cs[3]) {
        let end: usize = find_name_end(false, cs, 4);
        let name = text_between(cs, 4, end);
        assert(s.skip(2) =~= cs@.skip(4));
        assert(name@ =~= first_name(false, s.skip(2)));
        let parts: Vec<String> = vec!["\\\\.\\".to_owned(), name];
        assert(texts(parts@) =~= network_prefix(s).parts);
        return PathPrefix { len: end, verbatim: false, rooted: true, parts };
    }
    let (server, share, end) = find_share(false, cs, 2);
    let named = !server.as_str().is_empty() && !share.as_str().is_empty();
    if named {
        let parts: Vec<String> = vec!["\\\\".to_owned(), server, share];
        assert(texts(parts@) =~= network_prefix(s).parts);
        PathPrefix { len: end, verbatim: false, rooted: true, parts }
    } else {
        none_found()
    }
}

/// What a path begins with.
pub fn find_prefix(windows: bool, cs: &Vec<char>) -> (r: PathPrefix)
    ensures
        r.view() == prefix_of(windows, cs@),
        r.len <= cs.len(),
{
    proof {
        prefix_bounds(windows, cs@);
        assert(cs@.skip(0) =~= cs@);
    }
    if !windows {
        return none_found();
    }
    if cs.len() >= 2 && is_separator(true, cs[0]) && is_separator(true, cs[1]) {
        if cs.len() >= 4 && cs[0] == '\\' && cs[1] == '\\' && cs[2] == '?' && cs[3] == '\\' {
            return find_verbatim(cs);
        }
        return find_network(cs);
    }
    if finds_drive(cs, 0) {
        let parts: Vec<String> = vec![drive_text(cs, 0)];
        assert(texts(parts@) =~= seq![drive_name(cs@)]);
        return PathPrefix { len: 2, verbatim: false, rooted: false, parts };
    }
    none_found()
}

} // verus!
