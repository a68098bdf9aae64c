//! Backups of files.

use crate::hermes::paths::{body_start, find_body};
use crate::hermes::prefix::{find_prefix, is_separator_in, prefix_bounds, prefix_of, separates_in};
use crate::text::chars_of;
use vstd::prelude::*;
use vstd::string::*;

verus! {

/// Where the last name among the first `n` characters of a path ends, whose parts begin at `from`: before the
/// separators and single dots that follow it. In a verbatim path a dot is a name.
pub open spec fn bare_end(windows: bool, verbatim: bool, s: Seq<char>, from: int, n: int) -> int
    decreases n,
{
    if n > from && n > 0 && separates_in(windows, verbatim, s[n - 1]) {
        bare_end(windows, verbatim, s, from, n - 1)
    } else if !verbatim && n > from + 1 && n > 1 && s[n - 1] == '.' && separates_in(windows, verbatim, s[n - 2]) {
        bare_end(windows, verbatim, s, from, n - 1)
    } else {
        n
    }
}

/// The place behind the last character `c` of the first `n`, zero where there is none.
pub open spec fn behind_last(s: Seq<char>, c: char, n: int) -> int
    decreases n,
{
    if n <= 0 {
        0
    } else if s[n - 1] == c {
        n
    } else {
        behind_last(s, c, n - 1)
    }
}

/// The place behind the last separator among the first `n` characters of a path, whose parts begin at `from`.
pub open spec fn behind_separator(windows: bool, verbatim: bool, s: Seq<char>, from: int, n: int) -> int
    decreases n,
{
    if n <= from || n <= 0 {
        from
    } else if separates_in(windows, verbatim, s[n - 1]) {
        n
    } else {
        behind_separator(windows, verbatim, s, from, n - 1)
    }
}

/// Where the last name of a path ends.
pub open spec fn name_end(windows: bool, s: Seq<char>) -> int {
    bare_end(windows, prefix_of(windows, s).verbatim, s, body_start(windows, s), s.len() as int)
}

/// Where the last name of a path begins.
pub open spec fn name_start(windows: bool, s: Seq<char>) -> int {
    behind_separator(
        windows,
        prefix_of(windows, s).verbatim,
        s,
        body_start(windows, s),
        name_end(windows, s),
    )
}

/// The last name of a path.
pub open spec fn last_name(windows: bool, s: Seq<char>) -> Seq<char> {
    s.subrange(name_start(windows, s), name_end(windows, s))
}

/// A name that a file can have: not one of the current directory or of the one above.
pub open spec fn file_name(name: Seq<char>) -> bool {
    name.len() > 0 && name != "."@ && name != ".."@
}

/// The place of the dot of a name's extension: the last one, unless the name begins with it.
pub open spec fn extension_dot(name: Seq<char>) -> Option<int> {
    let behind = behind_last(name, '.', name.len() as int);
    if behind > 1 {
        Some(behind - 1)
    } else {
        None
    }
}

/// A name with a suffix for backups behind it; a dot at the end of the name is not doubled.
pub open spec fn backup_name(name: Seq<char>) -> Seq<char> {
    match extension_dot(name) {
        Some(dot) => if dot == name.len() - 1 {
            name.take(dot) + ".nemo-relay.bak"@
        } else {
            name + ".nemo-relay.bak"@
        },
        None => name + ".nemo-relay.bak"@,
    }
}

/// The path of the backup of a file. A path that names no file has none and stays as it is.
pub open spec fn backup_of(windows: bool, path: Seq<char>) -> Seq<char> {
    let name = last_name(windows, path);
    if file_name(name) {
        path.take(name_start(windows, path)) + backup_name(name)
    } else {
        path
    }
}

/// The place of the last name of a path: where it begins and where it ends.
fn find_name(windows: bool, cs: &Vec<char>) -> (r: (usize, usize))
    ensures
        r.0 == name_start(windows, cs@),
        r.1 == name_end(windows, cs@),
        r.0 <= r.1 <= cs.len(),
{
    let prefix = find_prefix(windows, cs);
    let verbatim = prefix.verbatim;
    let from: usize = find_body(windows, cs, &prefix);
    let mut end: usize = cs.len();
    while end > from && (is_separator_in(windows, verbatim, cs[end - 1]) || (!verbatim && end - from > 1 && cs[end - 1]
        == '.' && is_separator_in(windows, verbatim, cs[end - 2])))
        invariant
            from <= end <= cs.len(),
            bare_end(windows, verbatim, cs@, from as int, cs@.len() as int) == bare_end(
                windows,
                verbatim,
                cs@,
                from as int,
                end as int,
            ),
        decreases end,
    {
        end -= 1;
    }
    let mut start: usize = end;
    while start > from && !is_separator_in(windows, verbatim, cs[start - 1])
        invariant
            from <= start <= end <= cs.len(),
            behind_separator(windows, verbatim, cs@, from as int, end as int) == behind_separator(
                windows,
                verbatim,
                cs@,
                from as int,
                start as int,
            ),
        decreases start,
    {
        start -= 1;
    }
    (start, end)
}

proof fn behind_last_bounds(s: Seq<char>, c: char, n: int)
    requires
        0 <= n <= s.len(),
    ensures
        0 <= behind_last(s, c, n) <= n,
        behind_last(s, c, n) > 0 ==> s[behind_last(s, c, n) - 1] == c,
        forall|i: int| behind_last(s, c, n) <= i < n ==> s[i] != c,
    decreases n,
{
    if n > 0 {
        behind_last_bounds(s, c, n - 1);
    }
}

fn find_behind_last(cs: &Vec<char>, c: char, from: usize, to: usize) -> (r: usize)
    requires
        from <= to <= cs.len(),
    ensures
        r == behind_last(cs@.subrange(from as int, to as int), c, to - from),
{
    let ghost s = cs@.subrange(from as int, to as int);
    let mut n: usize = to;
    while n > from
        invariant
            from <= n <= to <= cs.len(),
            s == cs@.subrange(from as int, to as int),
            behind_last(s, c, to - from) == behind_last(s, c, n - from),
        decreases n,
    {
        assert(s[n - 1 - from] == cs@[n - 1]);
        if cs[n - 1] == c {
            return n - from;
        }
        n -= 1;
    }
    0
}

/// The path of the backup of a file.
pub fn backup_path(windows: bool, path: &str) -> (r: String)
    ensures
        r@ == backup_of(windows, path@),
{
    let cs = chars_of(path);
    let (start, end) = find_name(windows, &cs);
    proof {
        reveal_strlit(".");
        reveal_strlit("..");
    }
    let ghost name = last_name(windows, path@);
    let names_file = !(start == end || (end - start == 1 && cs[start] == '.') || (end - start == 2 && cs[start] == '.'
        && cs[start + 1] == '.'));
    proof {
        if end - start == 1 && cs@[start as int] == '.' {
            assert(name =~= "."@);
        }
        if end - start == 2 && cs@[start as int] == '.' && cs@[start + 1] == '.' {
            assert(name =~= ".."@);
        }
        assert(name.len() == end - start);
        assert(name.len() > 0 ==> name[0] == cs@[start as int]);
        assert(name.len() > 1 ==> name[1] == cs@[start + 1]);
        assert(names_file == file_name(name));
    }
    if !names_file {
        return path.to_owned();
    }
    let behind: usize = find_behind_last(&cs, '.', start, end);
    proof {
        behind_last_bounds(name, '.', name.len() as int);
    }
    if behind > 1 && behind == end - start {
        let stem = path.substring_char(0, end - 1);
        let r = stem.to_owned().concat(".nemo-relay.bak");
        assert(stem@ =~= path@.take(start as int) + name.take(behind - 1));
        assert(r@ =~= path@.take(start as int) + backup_name(name));
        r
    } else {
        let own = path.substring_char(0, end);
        let r = own.to_owned().concat(".nemo-relay.bak");
        assert(own@ =~= path@.take(start as int) + name);
        assert(r@ =~= path@.take(start as int) + backup_name(name));
        r
    }
}

/// Whether a backup is made: not over one that is there, and only of a file that is.
pub fn makes_backup(backup_exists: bool, file_exists: bool) -> (r: bool)
    ensures
        r == (!backup_exists && file_exists),
{
    !backup_exists && file_exists
}

proof fn name_bounds(windows: bool, s: Seq<char>)
    ensures
        0 <= name_start(windows, s) <= name_end(windows, s) <= s.len(),
{
    let verbatim = prefix_of(windows, s).verbatim;
    let from = body_start(windows, s);
    prefix_bounds(windows, s);
    end_bounds(windows, verbatim, s, from, s.len() as int);
    start_bounds(windows, verbatim, s, from, name_end(windows, s));
}

proof fn end_bounds(windows: bool, verbatim: bool, s: Seq<char>, from: int, n: int)
    requires
        0 <= from <= n <= s.len(),
    ensures
        from <= bare_end(windows, verbatim, s, from, n) <= n,
    decreases n,
{
    if n > from {
        end_bounds(windows, verbatim, s, from, n - 1);
    }
}

proof fn start_bounds(windows: bool, verbatim: bool, s: Seq<char>, from: int, n: int)
    requires
        0 <= from <= n <= s.len(),
    ensures
        from <= behind_separator(windows, verbatim, s, from, n) <= n,
    decreases n,
{
    if n > from {
        start_bounds(windows, verbatim, s, from, n - 1);
    }
}

/// The backup of a file stands beside it, under another name.
pub proof fn a_backup_is_another_file_beside(windows: bool, path: Seq<char>)
    requires
        file_name(last_name(windows, path)),
    ensures
        ({
            let start = name_start(windows, path);
            &&& backup_of(windows, path).take(start) == path.take(start)
            &&& backup_of(windows, path).skip(start) == backup_name(last_name(windows, path))
            &&& backup_name(last_name(windows, path)) != last_name(windows, path)
        }),
{
    let name = last_name(windows, path);
    let start = name_start(windows, path);
    name_bounds(windows, path);
    behind_last_bounds(name, '.', name.len() as int);
    reveal_strlit(".nemo-relay.bak");
    assert(".nemo-relay.bak"@.len() == 15);
    assert(backup_of(windows, path).take(start) =~= path.take(start));
    assert(backup_of(windows, path).skip(start) =~= backup_name(name));
    assert(backup_name(name).len() > name.len());
}

} // verus!
