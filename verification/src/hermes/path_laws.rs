//! What the text of a path says of where it leads.

use crate::hermes::paths::{
    begins_here, body_parts, body_start, closed_parts, components, counted, joined_path, lies_in, path_lead,
    path_parts, root_is_written, same_place, user_config,
};
use crate::hermes::prefix::{
    begins_with_drive, behind_name, capital, drive_letter, drive_name, first_name, name_len, prefix_of, separates,
    separates_in,
};
use vstd::prelude::*;
use vstd::string::*;

verus! {

/// A separator ends a part: the parts of a path are those before it and those behind it. So it does not matter how many
/// separators stand together, as nothing between two of them is no part.
pub proof fn a_separator_ends_a_part(
    windows: bool,
    verbatim: bool,
    before: Seq<char>,
    separator: char,
    behind: Seq<char>,
    current: Seq<char>,
)
    requires
        separates_in(windows, verbatim, separator),
    ensures
        path_parts(windows, verbatim, before + seq![separator] + behind, current) == path_parts(
            windows,
            verbatim,
            before,
            current,
        ) + path_parts(windows, verbatim, behind, Seq::empty()),
        path_parts(windows, verbatim, Seq::empty(), Seq::empty()) == Seq::<Seq<char>>::empty(),
    decreases before.len(),
{
    let whole = before + seq![separator] + behind;
    if before.len() == 0 {
        assert(whole[0] == separator);
        assert(whole.skip(1) =~= behind);
    } else {
        assert(whole[0] == before[0]);
        assert(whole.skip(1) =~= before.skip(1) + seq![separator] + behind);
        if separates_in(windows, verbatim, before[0]) {
            a_separator_ends_a_part(windows, verbatim, before.skip(1), separator, behind, Seq::empty());
            let own = counted(verbatim, current);
            let rest = path_parts(windows, verbatim, before.skip(1), Seq::empty());
            let tail = path_parts(windows, verbatim, behind, Seq::empty());
            assert(own + (rest + tail) =~= own + rest + tail);
        } else {
            a_separator_ends_a_part(windows, verbatim, before.skip(1), separator, behind, current.push(before[0]));
        }
    }
}

/// A name without separators is one part, unless it is empty or, where that does not count, a single dot.
pub proof fn a_name_is_one_part(windows: bool, verbatim: bool, name: Seq<char>, current: Seq<char>)
    requires
        forall|i: int| 0 <= i < name.len() ==> !separates_in(windows, verbatim, #[trigger] name[i]),
    ensures
        current + name != Seq::<char>::empty() && (verbatim || current + name != "."@) ==> path_parts(
            windows,
            verbatim,
            name,
            current,
        ) == seq![current + name],
        !verbatim && current + name == "."@ ==> path_parts(windows, verbatim, name, current)
            == Seq::<Seq<char>>::empty(),
    decreases name.len(),
{
    if name.len() == 0 {
        assert(current + name =~= current);
        if current.len() == 0 {
            assert(current =~= Seq::empty());
        }
    } else {
        let rest = name.skip(1);
        assert forall|i: int| 0 <= i < rest.len() implies !separates_in(windows, verbatim, #[trigger] rest[i]) by {
            assert(rest[i] == name[i + 1]);
        }
        assert(!separates_in(windows, verbatim, name[0]));
        a_name_is_one_part(windows, verbatim, rest, current.push(name[0]));
        assert(current.push(name[0]) + rest =~= current + name);
    }
}

/// No part of a path is empty or holds a separator, and none is a single dot where that does not count.
pub proof fn parts_hold_no_separator(windows: bool, verbatim: bool, s: Seq<char>, current: Seq<char>, n: int)
    requires
        forall|i: int| 0 <= i < current.len() ==> !separates_in(windows, verbatim, #[trigger] current[i]),
        0 <= n < path_parts(windows, verbatim, s, current).len(),
    ensures
        ({
            let part = path_parts(windows, verbatim, s, current)[n];
            &&& part.len() > 0
            &&& !verbatim ==> part != "."@
            &&& forall|i: int| 0 <= i < part.len() ==> !separates_in(windows, verbatim, #[trigger] part[i])
        }),
    decreases s.len(),
{
    if s.len() > 0 {
        let own = counted(verbatim, current);
        if separates_in(windows, verbatim, s[0]) {
            if n >= own.len() {
                let none = Seq::<char>::empty();
                parts_hold_no_separator(windows, verbatim, s.skip(1), none, n - own.len());
            }
        } else {
            parts_hold_no_separator(windows, verbatim, s.skip(1), current.push(s[0]), n);
        }
    }
}

/// On Windows a part may be ended by either separator, but not in a verbatim path, where it is the backslash alone.
pub proof fn either_separator_will_do(s: Seq<char>, t: Seq<char>, current: Seq<char>)
    requires
        s.len() == t.len(),
        forall|i: int|
            0 <= i < s.len() ==> #[trigger] s[i] == t[i] || ((s[i] == '/' || s[i] == '\\') && (t[i] == '/' || t[i]
                == '\\')),
    ensures
        path_parts(true, false, s, current) == path_parts(true, false, t, current),
    decreases s.len(),
{
    if s.len() > 0 {
        assert(s[0] == t[0] || ((s[0] == '/' || s[0] == '\\') && (t[0] == '/' || t[0] == '\\')));
        let a = s.skip(1);
        let b = t.skip(1);
        assert forall|i: int| 0 <= i < a.len() implies #[trigger] a[i] == b[i] || ((a[i] == '/' || a[i] == '\\') && (
        b[i] == '/' || b[i] == '\\')) by {
            assert(a[i] == s[i + 1]);
        }
        if separates(true, s[0]) {
            either_separator_will_do(a, b, Seq::empty());
        } else {
            either_separator_will_do(a, b, current.push(s[0]));
        }
    }
}

/// What the characters of a path separate: a slash always, a backslash on Windows, and in a verbatim path it alone.
pub proof fn slashes_separate(windows: bool, c: char)
    ensures
        separates_in(windows, false, c) <==> c == '/' || (windows && c == '\\'),
        separates_in(windows, true, c) <==> c == '\\',
{
}

/// A plain name in a directory leads to one component more than the directory: the name. This holds of every path that a
/// POSIX system has, and on Windows of every path on a drive.
pub proof fn a_name_in_a_directory_is_one_component_more(windows: bool, home: Seq<char>, name: Seq<char>)
    requires
        windows ==> begins_with_drive(home),
        name.len() > 0,
        name != "."@,
        forall|i: int| 0 <= i < name.len() ==> !separates(windows, #[trigger] name[i]),
    ensures
        components(windows, joined_path(windows, home, name)) == components(windows, home).push(name),
{
    reveal_strlit("/");
    reveal_strlit("\\");
    reveal_strlit(".");
    let whole = joined_path(windows, home, name);
    let prefix = prefix_of(windows, home);
    let mark = if windows {
        '\\'
    } else {
        '/'
    };
    assert("/"@ =~= seq!['/']);
    assert("\\"@ =~= seq!['\\']);
    assert("."@ =~= seq!['.']);
    if windows {
        assert(!separates(true, home[0]));
    }
    assert(!prefix.verbatim);
    // The prefix is the same.
    assert(prefix_of(windows, whole) == prefix) by {
        if windows {
            assert(whole[0] == home[0] && whole[1] == home[1]);
            assert(drive_name(whole) =~= drive_name(home));
        }
    }
    let n = prefix.len;
    assert(windows ==> n == 2);
    assert(!windows ==> n == 0);
    let rest = home.skip(n);
    let more = whole.skip(n);
    let joins_directly = home.len() == 0 || (home.len() == 2 && begins_with_drive(home) && windows) || separates(
        windows,
        home.last(),
    );
    if joins_directly {
        assert(more =~= rest + name);
    } else {
        assert(more =~= rest + seq![mark] + name);
    }
    if rest.len() > 0 {
        assert(more[0] == rest[0]);
    } else {
        assert(more =~= name) by {
            if !joins_directly {
                assert(home.len() == n);
            }
        }
        assert(more[0] == name[0]);
        assert(!separates(windows, more[0]));
    }
    assert(root_is_written(windows, whole) == root_is_written(windows, home));
    // So is what the path begins with.
    if n == 0 {
        assert(more =~= whole);
        assert(rest =~= home);
        assert(begins_here(windows, whole) == begins_here(windows, home)) by {
            if home.len() == 0 {
                if whole.len() == 1 && whole[0] == '.' {
                    assert(whole =~= "."@);
                }
                if whole.len() > 1 {
                    assert(!separates(windows, name[1]));
                }
            } else if home.len() == 1 {
                assert(whole[0] == home[0]);
                if home[0] == '.' {
                    assert(!joins_directly);
                    assert(whole[1] == mark);
                }
            } else {
                assert(whole[0] == home[0] && whole[1] == home[1]);
            }
        }
    }
    assert(path_lead(windows, whole) == path_lead(windows, home));
    // The parts behind it are those of the directory and the name.
    let start = body_start(windows, home);
    assert(body_start(windows, whole) == start);
    let body = home.skip(start);
    let full = whole.skip(start);
    let none = Seq::<char>::empty();
    assert forall|i: int| 0 <= i < name.len() implies !separates_in(windows, false, #[trigger] name[i]) by {}
    a_name_is_one_part(windows, false, name, none);
    assert(none + name =~= name);
    if body.len() == 0 {
        assert(full =~= name) by {
            if !joins_directly {
                assert(home.len() == start);
                assert(root_is_written(windows, home));
                assert(separates(windows, home.last()));
            }
        }
        assert(body =~= none);
        assert(path_parts(windows, false, none, none) =~= Seq::empty());
    } else if separates(windows, body.last()) {
        assert(body.last() == home.last());
        let front = body.drop_last();
        assert(body =~= front + seq![body.last()] + none);
        assert(full =~= front + seq![body.last()] + name);
        a_separator_ends_a_part(windows, false, front, body.last(), none, none);
        a_separator_ends_a_part(windows, false, front, body.last(), name, none);
        assert(path_parts(windows, false, none, none) =~= Seq::empty());
    } else {
        assert(body.last() == home.last());
        assert(!joins_directly) by {
            if home.len() == 2 && windows {
                assert(body.len() == 0);
            }
        }
        assert(full =~= body + seq![mark] + name);
        a_separator_ends_a_part(windows, false, body, mark, name, none);
    }
    assert(body_parts(windows, whole) =~= body_parts(windows, home).push(name));
    assert(components(windows, whole) =~= components(windows, home).push(name));
}

/// What lies in a directory has the directory's components first; the directory itself lies in it, and so does a plain
/// name in it.
pub proof fn a_name_lies_in_its_directory(windows: bool, home: Seq<char>, name: Seq<char>)
    requires
        windows ==> begins_with_drive(home),
        name.len() > 0,
        name != "."@,
        forall|i: int| 0 <= i < name.len() ==> !separates(windows, #[trigger] name[i]),
    ensures
        lies_in(windows, home, home),
        lies_in(windows, joined_path(windows, home, name), home),
        !lies_in(windows, home, joined_path(windows, home, name)),
        !same_place(windows, home, joined_path(windows, home, name)),
{
    a_name_in_a_directory_is_one_component_more(windows, home, name);
    let own = components(windows, home);
    assert(own.take(own.len() as int) =~= own);
    assert(own.push(name).take(own.len() as int) =~= own);
    assert(own.push(name).len() == own.len() + 1);
}

/// Paths that lie in each other are the same place, and what lies in what lies in a directory lies in the directory.
pub proof fn places_lie_in_each_other_in_order(windows: bool, a: Seq<char>, b: Seq<char>, c: Seq<char>)
    ensures
        lies_in(windows, a, b) && lies_in(windows, b, a) ==> same_place(windows, a, b),
        same_place(windows, a, b) ==> lies_in(windows, a, b),
        lies_in(windows, a, b) && lies_in(windows, b, c) ==> lies_in(windows, a, c),
{
    let x = components(windows, a);
    let y = components(windows, b);
    let z = components(windows, c);
    if lies_in(windows, a, b) && lies_in(windows, b, a) {
        assert(x.take(y.len() as int) =~= x);
    }
    if same_place(windows, a, b) {
        assert(x.take(x.len() as int) =~= x);
    }
    if lies_in(windows, a, b) && lies_in(windows, b, c) {
        assert(x.take(y.len() as int).take(z.len() as int) =~= x.take(z.len() as int));
    }
}

/// On a drive it does not matter in which case its letter is written.
pub proof fn drives_are_the_same_in_either_case(s: Seq<char>, t: Seq<char>)
    requires
        begins_with_drive(s),
        begins_with_drive(t),
        capital(s[0]) == capital(t[0]),
        s.skip(2) == t.skip(2),
    ensures
        same_place(true, s, t),
        drive_name(s)[1] == ':',
        'A' <= drive_name(s)[0] <= 'Z',
{
    assert(drive_name(s) =~= drive_name(t));
    assert(!separates(true, s[0]) && !separates(true, t[0]));
    if root_is_written(true, s) {
        assert(s.skip(3) =~= s.skip(2).skip(1));
        assert(t.skip(3) =~= t.skip(2).skip(1));
    }
    assert(root_is_written(true, s) == root_is_written(true, t));
    assert(components(true, s) =~= components(true, t));
}

/// The user's configuration lies in the agent's home where that is named, and else in `.hermes` in the user's home.
pub proof fn the_configuration_lies_in_the_agents_home(default_home: Seq<char>, hermes_home: Option<Seq<char>>)
    ensures
        hermes_home matches Some(home) ==> home.len() > 0 ==> components(
            false,
            user_config(false, default_home, hermes_home),
        ) == components(false, home).push("config.yaml"@),
        hermes_home is None || hermes_home->Some_0.len() == 0 ==> components(
            false,
            user_config(false, default_home, hermes_home),
        ) == components(false, default_home).push(".hermes"@).push("config.yaml"@),
{
    reveal_strlit("config.yaml");
    reveal_strlit(".hermes");
    reveal_strlit(".");
    assert("config.yaml"@.len() == 11 && ".hermes"@.len() == 7 && "."@.len() == 1);
    if let Some(home) = hermes_home {
        a_name_in_a_directory_is_one_component_more(false, home, "config.yaml"@);
    }
    a_name_in_a_directory_is_one_component_more(false, default_home, ".hermes"@);
    a_name_in_a_directory_is_one_component_more(false, joined_path(false, default_home, ".hermes"@), "config.yaml"@);
}

/// A name of a prefix is what stands before the first separator.
pub proof fn a_name_ends_at_the_first_separator(verbatim: bool, name: Seq<char>, rest: Seq<char>)
    requires
        forall|i: int| 0 <= i < name.len() ==> !separates_in(true, verbatim, #[trigger] name[i]),
        rest.len() > 0 ==> separates_in(true, verbatim, rest[0]),
    ensures
        name_len(verbatim, name + rest) == name.len(),
        first_name(verbatim, name + rest) == name,
        behind_name(verbatim, name + rest) == (if rest.len() > 0 {
            rest.skip(1)
        } else {
            Seq::empty()
        }),
    decreases name.len(),
{
    let whole = name + rest;
    if name.len() == 0 {
        assert(whole =~= rest);
        assert(whole.take(0) =~= name);
        if rest.len() > 0 {
            assert(whole.skip(1) =~= rest.skip(1));
        }
    } else {
        let shorter = name.skip(1);
        assert forall|i: int| 0 <= i < shorter.len() implies !separates_in(true, verbatim, #[trigger] shorter[i]) by {
            assert(shorter[i] == name[i + 1]);
        }
        a_name_ends_at_the_first_separator(verbatim, shorter, rest);
        assert(whole.skip(1) =~= shorter + rest);
        assert(whole[0] == name[0]);
        assert(whole.take(name.len() as int) =~= name);
        if rest.len() > 0 {
            assert(whole.skip(name.len() as int + 1) =~= rest.skip(1));
        }
    }
}

/// A path on Windows that begins with two separators names a server and a share, and the root of the share follows.
pub proof fn a_network_path_names_its_share(server: Seq<char>, share: Seq<char>, rest: Seq<char>)
    requires
        server.len() > 0,
        share.len() > 0,
        server != "."@,
        server != "?"@,
        forall|i: int| 0 <= i < server.len() ==> !separates(true, #[trigger] server[i]),
        forall|i: int| 0 <= i < share.len() ==> !separates(true, #[trigger] share[i]),
        rest.len() > 0 ==> separates(true, rest[0]),
    ensures
        ({
            let path = "\\\\"@ + server + "\\"@ + share + rest;
            let prefix = prefix_of(true, path);
            &&& prefix.parts == seq!["\\\\"@, server, share]
            &&& prefix.len == 3 + server.len() + share.len()
            &&& prefix.rooted
            &&& !prefix.verbatim
        }),
{
    reveal_strlit("\\\\");
    reveal_strlit("\\");
    reveal_strlit(".");
    reveal_strlit("?");
    assert("\\\\"@ =~= seq!['\\', '\\']);
    assert("\\"@ =~= seq!['\\']);
    let path = "\\\\"@ + server + "\\"@ + share + rest;
    let named = server + ("\\"@ + share + rest);
    assert(path.skip(2) =~= named);
    assert forall|i: int| 0 <= i < server.len() implies !separates_in(true, false, #[trigger] server[i]) by {}
    assert forall|i: int| 0 <= i < share.len() implies !separates_in(true, false, #[trigger] share[i]) by {}
    a_name_ends_at_the_first_separator(false, server, "\\"@ + share + rest);
    assert(("\\"@ + share + rest).skip(1) =~= share + rest);
    a_name_ends_at_the_first_separator(false, share, rest);
    assert(named[0] == server[0]);
    assert(path[0] == '\\' && path[1] == '\\');
    assert(path[2] == server[0]);
    if server.len() == 1 {
        assert(server =~= seq![server[0]]);
        assert("."@ =~= seq!['.']);
        assert("?"@ =~= seq!['?']);
    } else {
        assert(named[1] == server[1]);
        assert(path[3] == server[1]);
        assert(!separates(true, server[1]));
    }
}

/// A path is taken as it is written exactly where it begins with `\\?\`, in backslashes, on Windows.
pub proof fn only_a_question_mark_makes_a_path_verbatim(windows: bool, s: Seq<char>)
    ensures
        prefix_of(windows, s).verbatim <==> {
            &&& windows
            &&& s.len() >= 4
            &&& s[0] == '\\'
            &&& s[1] == '\\'
            &&& s[2] == '?'
            &&& s[3] == '\\'
        },
        !windows ==> prefix_of(windows, s).len == 0 && prefix_of(windows, s).parts.len() == 0,
{
}

/// The parts of a verbatim path are written with a separator behind each.
pub proof fn each_part_is_closed_by_a_separator(parts: Seq<Seq<char>>, more: Seq<char>)
    ensures
        closed_parts(Seq::<Seq<char>>::empty()) == Seq::<char>::empty(),
        closed_parts(parts.push(more)) == closed_parts(parts) + more + "\\"@,
{
    assert(parts.push(more).drop_last() =~= parts);
}

/// A name in a directory stands behind what the directory is written as, with a separator between them where none stands
/// there and the directory is not empty or a drive alone. A directory in a verbatim path keeps its prefix.
pub proof fn a_name_stands_behind_its_directory(windows: bool, home: Seq<char>, name: Seq<char>)
    requires
        !prefix_of(windows, home).verbatim,
    ensures
        home.len() == 0 ==> joined_path(windows, home, name) == name,
        home.len() > 0 && (home.last() == '/' || (windows && home.last() == '\\')) ==> joined_path(windows, home,
            name)
            == home + name,
        windows && home.len() == 2 && begins_with_drive(home) ==> joined_path(windows, home, name) == home + name,
        home.len() > 0 && !windows && home.last() != '/' ==> joined_path(windows, home, name)
            == home + seq!['/'] + name,
        windows && home.len() > 0 && home.last() != '/' && home.last() != '\\' && !(home.len() == 2
            && begins_with_drive(home)) ==> joined_path(windows, home, name) == home + seq!['\\'] + name,
{
    reveal_strlit("/");
    reveal_strlit("\\");
    assert("/"@ =~= seq!['/']);
    assert("\\"@ =~= seq!['\\']);
    if home.len() == 0 {
        assert(home + name =~= name);
    }
}

/// A verbatim path on a drive names the drive, in capitals; one that names neither a drive nor a share names what stands
/// before its first separator.
pub proof fn a_verbatim_path_names_its_drive(letter: char, rest: Seq<char>)
    requires
        drive_letter(letter),
        rest.len() > 0 ==> rest[0] == '\\',
    ensures
        ({
            let path = seq!['\\', '\\', '?', '\\', letter, ':'] + rest;
            let prefix = prefix_of(true, path);
            &&& prefix.verbatim
            &&& !prefix.rooted
            &&& prefix.len == 6
            &&& prefix.parts.len() == 2
            &&& prefix.parts[0] == "\\\\?\\"@
            &&& prefix.parts[1] == seq![capital(letter), ':']
        }),
{
    let path = seq!['\\', '\\', '?', '\\', letter, ':'] + rest;
    let behind = path.skip(4);
    assert(behind[0] == letter && behind[1] == ':');
    assert(behind.len() == 2 + rest.len());
    if rest.len() > 0 {
        assert(behind[2] == rest[0]);
    }
    assert(drive_name(behind) =~= seq![capital(letter), ':']);
}

/// A verbatim path to a share names its server and the share.
pub proof fn a_verbatim_path_names_its_share(server: Seq<char>, share: Seq<char>, rest: Seq<char>)
    requires
        share.len() > 0,
        forall|i: int| 0 <= i < server.len() ==> #[trigger] server[i] != '\\',
        forall|i: int| 0 <= i < share.len() ==> #[trigger] share[i] != '\\',
        rest.len() > 0 ==> rest[0] == '\\',
    ensures
        ({
            let path = seq!['\\', '\\', '?', '\\', 'U', 'N', 'C', '\\'] + server + seq!['\\'] + share + rest;
            let prefix = prefix_of(true, path);
            &&& prefix.verbatim
            &&& !prefix.rooted
            &&& prefix.len == 9 + server.len() + share.len()
            &&& prefix.parts.len() == 3
            &&& prefix.parts[1] == server
            &&& prefix.parts[2] == share
        }),
{
    let path = seq!['\\', '\\', '?', '\\', 'U', 'N', 'C', '\\'] + server + seq!['\\'] + share + rest;
    let behind = path.skip(4);
    assert(behind[0] == 'U' && behind[1] == 'N' && behind[2] == 'C' && behind[3] == '\\');
    let named = behind.skip(4);
    assert(named =~= server + (seq!['\\'] + share + rest));
    a_name_ends_at_the_first_separator(true, server, seq!['\\'] + share + rest);
    assert((seq!['\\'] + share + rest).skip(1) =~= share + rest);
    a_name_ends_at_the_first_separator(true, share, rest);
}

} // verus!
