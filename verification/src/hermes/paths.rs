//! Where the integration keeps its files. On Windows, either slash separates, the backward one is written, and a
//! prefix may stand in front.

use crate::error::{CliError, Failure};
use crate::hermes::prefix::{
    begins_with_drive, find_prefix, is_separator, is_separator_in, name_len, prefix_of, separates, separates_in,
    PathPrefix,
};
use crate::text::{chars_of, opt_str, same_text, texts};
use vstd::prelude::*;
use vstd::string::*;

verus! {

/// The path of the plain name `name` in the directory `home`. A drive alone stands for the directory that is the
/// current one on it. A verbatim path is put together anew from its components.
pub open spec fn joined_path(windows: bool, home: Seq<char>, name: Seq<char>) -> Seq<char> {
    let prefix = prefix_of(windows, home);
    if prefix.verbatim {
        home.take(prefix.len) + "\\"@ + closed_parts(body_parts(windows, home)) + name
    } else if home.len() == 0 || (home.len() == 2 && begins_with_drive(home) && windows) || separates(
        windows,
        home.last(),
    ) {
        home + name
    } else if windows {
        home + "\\"@ + name
    } else {
        home + "/"@ + name
    }
}

/// The path of the plain name `name` in the directory `home`.
pub fn join_path(windows: bool, home: &str, name: &str) -> (r: String)
    ensures
        r@ == joined_path(windows, home@, name@),
{
    let cs = chars_of(home);
    let n: usize = cs.len();
    let prefix = find_prefix(windows, &cs);
    if prefix.verbatim {
        let parts = split_body(windows, &cs, &prefix);
        let named = home.substring_char(0, prefix.len);
        assert(named@ =~= home@.take(prefix.len as int));
        let rest = close_parts(&parts);
        return named.to_owned().concat("\\").concat(rest.as_str()).concat(name);
    }
    proof {
        if n == 2 {
            drive_alone(windows, home@);
        }
    }
    if n == 0 || (n == 2 && prefix.len == 2) || is_separator(windows, cs[n - 1]) {
        home.to_owned().concat(name)
    } else if windows {
        home.to_owned().concat("\\").concat(name)
    } else {
        home.to_owned().concat("/").concat(name)
    }
}

/// Of two characters, a prefix is a drive.
proof fn drive_alone(windows: bool, s: Seq<char>)
    requires
        s.len() == 2,
    ensures
        prefix_of(windows, s).len == 2 <==> windows && begins_with_drive(s),
{
    reveal_with_fuel(name_len, 2);
}

/// Parts with a separator behind each.
pub open spec fn closed_parts(parts: Seq<Seq<char>>) -> Seq<char>
    decreases parts.len(),
{
    if parts.len() == 0 {
        Seq::empty()
    } else {
        closed_parts(parts.drop_last()) + parts.last() + "\\"@
    }
}

fn close_parts(parts: &Vec<String>) -> (r: String)
    ensures
        r@ == closed_parts(texts(parts@)),
{
    let ghost all = texts(parts@);
    let mut r = String::new();
    let mut i: usize = 0;
    assert(all.take(0) =~= Seq::empty());
    assert(r@ =~= closed_parts(all.take(0)));
    while i < parts.len()
        invariant
            i <= parts.len(),
            all == texts(parts@),
            r@ == closed_parts(all.take(i as int)),
        decreases parts.len() - i,
    {
        assert(all.take(i + 1).drop_last() =~= all.take(i as int));
        assert(all.take(i + 1).last() == parts@[i as int]@);
        r = r.concat(parts[i].as_str()).concat("\\");
        i += 1;
    }
    assert(all.take(i as int) =~= all);
    r
}

/// A part of a path that counts: in a verbatim path a single dot too.
pub open spec fn counted(verbatim: bool, part: Seq<char>) -> Seq<Seq<char>> {
    if part.len() == 0 || (!verbatim && part == "."@) {
        Seq::empty()
    } else {
        seq![part]
    }
}

/// The parts of a path: what stands between separators, and counts. `current` is the beginning of the first.
pub open spec fn path_parts(windows: bool, verbatim: bool, s: Seq<char>, current: Seq<char>) -> Seq<Seq<char>>
    decreases s.len(),
{
    if s.len() == 0 {
        counted(verbatim, current)
    } else if separates_in(windows, verbatim, s[0]) {
        counted(verbatim, current) + path_parts(windows, verbatim, s.skip(1), Seq::empty())
    } else {
        path_parts(windows, verbatim, s.skip(1), current.push(s[0]))
    }
}

fn push_counted(verbatim: bool, parts: &mut Vec<String>, part: String)
    ensures
        texts(final(parts)@) == texts(old(parts)@) + counted(verbatim, part@),
{
    let ghost before = texts(parts@);
    if part.as_str().is_empty() || (!verbatim && same_text(part.as_str(), ".")) {
        assert(texts(parts@) =~= before + counted(verbatim, part@));
    } else {
        let ghost text = part@;
        parts.push(part);
        assert(texts(parts@) =~= before + counted(verbatim, text));
    }
}

fn split_path(windows: bool, verbatim: bool, cs: &Vec<char>, from: usize) -> (r: Vec<String>)
    requires
        from <= cs.len(),
    ensures
        texts(r@) == path_parts(windows, verbatim, cs@.skip(from as int), Seq::empty()),
{
    let ghost s = cs@.skip(from as int);
    let mut parts: Vec<String> = Vec::new();
    let mut current = String::new();
    let mut i: usize = from;
    assert(texts(parts@) =~= Seq::empty());
    assert(current@ =~= Seq::empty());
    assert(path_parts(windows, verbatim, s, Seq::empty()) =~= texts(parts@) + path_parts(
        windows,
        verbatim,
        s,
        current@,
    ));
    while i < cs.len()
        invariant
            i <= cs.len(),
            path_parts(windows, verbatim, s, Seq::empty()) == texts(parts@) + path_parts(
                windows,
                verbatim,
                cs@.skip(i as int),
                current@,
            ),
        decreases cs.len() - i,
    {
        let ghost rest = cs@.skip(i + 1);
        assert(cs@.skip(i as int).skip(1) =~= rest);
        assert(cs@.skip(i as int)[0] == cs@[i as int]);
        if is_separator_in(windows, verbatim, cs[i]) {
            let ghost before = texts(parts@);
            let ghost part = current@;
            push_counted(verbatim, &mut parts, current);
            current = String::new();
            assert(current@ =~= Seq::empty());
            assert(before + (counted(verbatim, part) + path_parts(windows, verbatim, rest, Seq::empty())) =~= texts(
                parts@,
            ) + path_parts(windows, verbatim, rest, current@));
        } else {
            current.push(cs[i]);
        }
        i += 1;
    }
    push_counted(verbatim, &mut parts, current);
    parts
}

/// Whether two vectors hold the same texts.
pub fn same_texts(a: &Vec<String>, b: &Vec<String>) -> (r: bool)
    ensures
        r == (texts(a@) == texts(b@)),
{
    if a.len() != b.len() {
        assert(texts(a@).len() != texts(b@).len());
        return false;
    }
    let mut i: usize = 0;
    while i < a.len()
        invariant
            i <= a.len(),
            a.len() == b.len(),
            forall|j: int| 0 <= j < i ==> #[trigger] texts(a@)[j] == texts(b@)[j],
        decreases a.len() - i,
    {
        if !same_text(a[i].as_str(), b[i].as_str()) {
            assert(texts(a@)[i as int] != texts(b@)[i as int]);
            return false;
        }
        assert(texts(a@)[i as int] == texts(b@)[i as int]);
        i += 1;
    }
    assert(texts(a@) =~= texts(b@));
    true
}

/// Whether the root is written behind the prefix of a path.
pub open spec fn root_is_written(windows: bool, s: Seq<char>) -> bool {
    let rest = s.skip(prefix_of(windows, s).len);
    rest.len() > 0 && separates(windows, rest[0])
}

/// Whether a path says that it begins in the current directory.
pub open spec fn begins_here(windows: bool, s: Seq<char>) -> bool {
    s.len() > 0 && s[0] == '.' && (s.len() == 1 || separates(windows, s[1]))
}

/// What the root is told by: a text that no other component has.
pub open spec fn root_mark(windows: bool) -> Seq<char> {
    if windows {
        "\\"@
    } else {
        "/"@
    }
}

/// What a path begins with: its prefix, then the root, or the current directory where it says so.
pub open spec fn path_lead(windows: bool, s: Seq<char>) -> Seq<Seq<char>> {
    let prefix = prefix_of(windows, s);
    prefix.parts + (if root_is_written(windows, s) || prefix.rooted {
        seq![root_mark(windows)]
    } else if prefix.len == 0 && begins_here(windows, s) {
        seq!["."@]
    } else {
        Seq::empty()
    })
}

/// Where the parts of a path begin: behind its prefix and the root.
pub open spec fn body_start(windows: bool, s: Seq<char>) -> int {
    if root_is_written(windows, s) {
        prefix_of(windows, s).len + 1
    } else {
        prefix_of(windows, s).len
    }
}

/// The parts of a path behind its prefix and the root.
pub open spec fn body_parts(windows: bool, s: Seq<char>) -> Seq<Seq<char>> {
    path_parts(windows, prefix_of(windows, s).verbatim, s.skip(body_start(windows, s)), Seq::empty())
}

/// The components of a path.
pub open spec fn components(windows: bool, s: Seq<char>) -> Seq<Seq<char>> {
    path_lead(windows, s) + body_parts(windows, s)
}

/// Whether a path lies in a directory or is it, as far as their text says.
pub open spec fn lies_in(windows: bool, path: Seq<char>, directory: Seq<char>) -> bool {
    components(windows, directory).len() <= components(windows, path).len() && components(windows, path).take(
        components(windows, directory).len() as int,
    ) == components(windows, directory)
}

fn finds_root(windows: bool, cs: &Vec<char>, prefix: &PathPrefix) -> (r: bool)
    requires
        prefix.view() == prefix_of(windows, cs@),
        prefix.len <= cs.len(),
    ensures
        r == root_is_written(windows, cs@),
        r ==> prefix.len < cs.len(),
{
    if prefix.len < cs.len() {
        assert(cs@.skip(prefix.len as int)[0] == cs@[prefix.len as int]);
        is_separator(windows, cs[prefix.len])
    } else {
        false
    }
}

/// Where the parts of a path begin.
pub(crate) fn find_body(windows: bool, cs: &Vec<char>, prefix: &PathPrefix) -> (r: usize)
    requires
        prefix.view() == prefix_of(windows, cs@),
        prefix.len <= cs.len(),
    ensures
        r == body_start(windows, cs@),
        r <= cs.len(),
{
    if finds_root(windows, cs, prefix) {
        prefix.len + 1
    } else {
        prefix.len
    }
}

fn split_body(windows: bool, cs: &Vec<char>, prefix: &PathPrefix) -> (r: Vec<String>)
    requires
        prefix.view() == prefix_of(windows, cs@),
        prefix.len <= cs.len(),
    ensures
        texts(r@) == body_parts(windows, cs@),
{
    split_path(windows, prefix.verbatim, cs, find_body(windows, cs, prefix))
}

fn split_components(windows: bool, s: &str) -> (r: Vec<String>)
    ensures
        texts(r@) == components(windows, s@),
{
    let cs = chars_of(s);
    let prefix = find_prefix(windows, &cs);
    let root = finds_root(windows, &cs, &prefix);
    let parts = split_body(windows, &cs, &prefix);
    let has_prefix = prefix.len > 0;
    let rooted = root || prefix.rooted;
    let mut r: Vec<String> = prefix.parts;
    let ghost named = texts(r@);
    if rooted {
        if windows {
            r.push("\\".to_owned());
        } else {
            r.push("/".to_owned());
        }
    } else if !has_prefix && cs.len() > 0 && cs[0] == '.' && (cs.len() == 1 || is_separator(windows, cs[1])) {
        r.push(".".to_owned());
    }
    assert(texts(r@) =~= path_lead(windows, s@));
    let mut i: usize = 0;
    let ghost lead = texts(r@);
    let ghost all = texts(parts@);
    assert(lead + all.take(0) =~= lead);
    while i < parts.len()
        invariant
            i <= parts.len(),
            all == texts(parts@),
            texts(r@) == lead + all.take(i as int),
        decreases parts.len() - i,
    {
        let ghost before = r@;
        r.push(parts[i].clone());
        assert(texts(r@) =~= texts(before).push(all[i as int]));
        assert(lead + all.take(i + 1) =~= (lead + all.take(i as int)).push(all[i as int]));
        i += 1;
    }
    assert(all.take(i as int) =~= all);
    r
}

/// Whether two paths name the same place, as far as their text says.
pub open spec fn same_place(windows: bool, a: Seq<char>, b: Seq<char>) -> bool {
    components(windows, a) == components(windows, b)
}

/// Whether two paths name the same place, as far as their text says.
pub fn same_path(windows: bool, a: &str, b: &str) -> (r: bool)
    ensures
        r == same_place(windows, a@, b@),
{
    same_texts(&split_components(windows, a), &split_components(windows, b))
}

/// Whether a path lies in a directory or is it, as far as their text says.
pub fn path_starts_with(windows: bool, path: &str, directory: &str) -> (r: bool)
    ensures
        r == lies_in(windows, path@, directory@),
{
    let own = split_components(windows, path);
    let front = split_components(windows, directory);
    let ghost a = texts(own@);
    let ghost b = texts(front@);
    if front.len() > own.len() {
        return false;
    }
    let mut i: usize = 0;
    while i < front.len()
        invariant
            i <= front.len() <= own.len(),
            a == texts(own@),
            b == texts(front@),
            a == components(windows, path@),
            b == components(windows, directory@),
            forall|j: int| 0 <= j < i ==> #[trigger] a[j] == b[j],
        decreases front.len() - i,
    {
        if !same_text(own[i].as_str(), front[i].as_str()) {
            assert(a[i as int] != b[i as int]);
            assert(a.take(b.len() as int)[i as int] != b[i as int]);
            return false;
        }
        assert(a[i as int] == b[i as int]);
        i += 1;
    }
    assert(a.take(b.len() as int) =~= b);
    true
}

/// The path of the user's Hermes configuration: in `HERMES_HOME` where that is set to something, else in
/// `.hermes` under the home directory.
pub open spec fn user_config(windows: bool, default_home: Seq<char>, hermes_home: Option<Seq<char>>) -> Seq<char> {
    match hermes_home {
        Some(home) => if home.len() > 0 {
            joined_path(windows, home, "config.yaml"@)
        } else {
            joined_path(windows, joined_path(windows, default_home, ".hermes"@), "config.yaml"@)
        },
        None => joined_path(windows, joined_path(windows, default_home, ".hermes"@), "config.yaml"@),
    }
}

/// The path of the user's Hermes configuration.
pub fn user_config_path_with_override(windows: bool, default_home: &str, hermes_home: Option<&str>) -> (r: String)
    ensures
        r@ == user_config(
            windows,
            default_home@,
            opt_str(hermes_home),
        ),
{
    if let Some(home) = hermes_home {
        if !home.is_empty() {
            return join_path(windows, home, "config.yaml");
        }
    }
    join_path(windows, join_path(windows, default_home, ".hermes").as_str(), "config.yaml")
}

/// The path of the configuration that a launch uses: the configured one, else the user's. `home` is the
/// user's home directory, where it is known.
pub fn hooks_path_for_launch(
    windows: bool,
    configured: Option<&str>,
    hermes_home: Option<&str>,
    home: Option<&str>,
) -> (r: Result<String, CliError>)
    ensures
        match configured {
            Some(path) => r is Ok && r->Ok_0@ == path@,
            None => match hermes_home {
                Some(h) if h@.len() > 0 => r is Ok && r->Ok_0@ == joined_path(windows, h@, "config.yaml"@),
                _ => match home {
                    Some(h) => r is Ok && r->Ok_0@ == user_config(windows, h@, None),
                    None => r is Err && r->Err_0.view() == Failure::Launch(
                        "could not resolve home directory for Hermes hooks"@,
                    ),
                },
            },
        },
{
    if let Some(path) = configured {
        return Ok(path.to_owned());
    }
    if let Some(h) = hermes_home {
        if !h.is_empty() {
            return Ok(join_path(windows, h, "config.yaml"));
        }
    }
    match home {
        Some(h) => Ok(user_config_path_with_override(windows, h, None)),
        None => Err(CliError::Launch("could not resolve home directory for Hermes hooks".to_owned())),
    }
}

pub const ALLOWLIST_FILE_NAME: &'static str = "shell-hooks-allowlist.json";

pub const INSTALL_LOCK_FILE_NAME: &'static str = ".nemo-relay-operation.lock";

/// The files of a persistent installation.
#[derive(Debug, Clone)]
pub struct PersistentPaths {
    pub config: String,
    pub allowlist: String,
    pub generation: String,
}

impl PersistentPaths {
    /// The files beside the configuration at `config`, in the directory `parent` that it lies in.
    pub fn for_config(windows: bool, config: &str, parent: Option<&str>, generation_file_name: &str) -> (r: Result<
        Self,
        CliError,
    >)
        ensures
            match parent {
                Some(home) => r is Ok && r->Ok_0.config@ == config@ && r->Ok_0.allowlist@ == joined_path(
                    windows,
                    home@,
                    ALLOWLIST_FILE_NAME@,
                ) && r->Ok_0.generation@ == joined_path(windows, home@, generation_file_name@),
                None => r is Err && r->Err_0.view() == Failure::Install(
                    "Hermes config path "@ + config@ + " has no parent directory"@,
                ),
            },
    {
        match parent {
            Some(home) => Ok(
                PersistentPaths {
                    allowlist: join_path(windows, home, ALLOWLIST_FILE_NAME),
                    generation: join_path(windows, home, generation_file_name),
                    config: config.to_owned(),
                },
            ),
            None => Err(
                CliError::Install(
                    "Hermes config path ".to_owned().concat(config).concat(" has no parent directory"),
                ),
            ),
        }
    }

    /// The files, the configuration first.
    pub fn all(&self) -> (r: Vec<String>)
        ensures
            texts(r@) == seq![self.config@, self.allowlist@, self.generation@],
    {
        let files: Vec<String> = vec![self.config.clone(), self.allowlist.clone(), self.generation.clone()];
        assert(texts(files@) =~= seq![self.config@, self.allowlist@, self.generation@]);
        files
    }

    /// The file whose lock serializes updates of the integration, in the directory `home`.
    pub fn install_lock(windows: bool, home: &str) -> (r: String)
        ensures
            r@ == joined_path(windows, home@, INSTALL_LOCK_FILE_NAME@),
    {
        join_path(windows, home, INSTALL_LOCK_FILE_NAME)
    }

    /// The file whose lock the agent itself takes when it changes the allowlist.
    pub fn allowlist_lock(&self) -> (r: String)
        ensures
            r@ == self.allowlist@ + ".lock"@,
    {
        self.allowlist.clone().concat(".lock")
    }
}

} // verus!
