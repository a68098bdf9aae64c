//! Commands of lifecycle hooks.

use crate::ordered::{inserted, lookup, lookup_inserted, StringMap};
use crate::text::{begins, begins_with, chars_of, holds, holds_text, same_text, texts};
use vstd::prelude::*;
use vstd::string::*;

verus! {

/// Where the shared gateway listens.
pub const DEFAULT_BIND: &'static str = "127.0.0.1:47632";

/// The URL of the shared gateway.
pub const DEFAULT_URL: &'static str = "http://127.0.0.1:47632";

/// How a platform writes the commands of hooks. What a POSIX shell reads is a line of words. On Windows a command is
/// encoded as a whole, and an argument is quoted in another way; a form that is not known stands as it is.
#[derive(Debug, Clone)]
pub struct Platform {
    pub windows: bool,
    /// The encoded commands of Windows, each under the line that a POSIX shell would read.
    pub encoded_commands: StringMap<String>,
    /// The quoted arguments of Windows, each under the argument itself.
    pub quoted_arguments: StringMap<String>,
}

impl Platform {
    /// A platform whose hooks are run by a POSIX shell.
    pub fn posix() -> (r: Self)
        ensures
            !r.windows,
    {
        Platform { windows: false, encoded_commands: StringMap::new(), quoted_arguments: StringMap::new() }
    }

    /// Windows, before any of its forms is known.
    pub fn windows() -> (r: Self)
        ensures
            r.windows,
            r.encoded_commands.view().len() == 0,
            r.quoted_arguments.view().len() == 0,
    {
        Platform { windows: true, encoded_commands: StringMap::new(), quoted_arguments: StringMap::new() }
    }

    /// The command of these words.
    pub open spec fn command(self, words: Seq<Seq<char>>) -> Seq<char> {
        if self.windows {
            match lookup(self.encoded_commands.view(), command_of(words)) {
                Some(encoded) => encoded,
                None => command_of(words),
            }
        } else {
            command_of(words)
        }
    }

    /// An argument, quoted.
    pub open spec fn quoted(self, argument: Seq<char>) -> Seq<char> {
        if self.windows {
            match lookup(self.quoted_arguments.view(), argument) {
                Some(quoted) => quoted,
                None => argument,
            }
        } else {
            shell_word(argument)
        }
    }

    /// Makes the encoded form of a command of these words known.
    pub fn learn_command(&mut self, words: &Vec<String>, encoded: String)
        ensures
            final(self).windows == old(self).windows,
            final(self).quoted_arguments == old(self).quoted_arguments,
            final(self).encoded_commands.view() == inserted(
                old(self).encoded_commands.view(),
                command_of(texts(words@)),
                encoded@,
            ),
            final(self).windows ==> final(self).command(texts(words@)) == encoded@,
    {
        let mut plain: Vec<&str> = Vec::new();
        let mut i: usize = 0;
        while i < words.len()
            invariant
                i <= words.len(),
                plain.len() == i,
                forall|j: int| 0 <= j < i ==> (#[trigger] plain@[j])@ == words@[j]@,
            decreases words.len() - i,
        {
            plain.push(words[i].as_str());
            i += 1;
        }
        assert(words_view(plain@) =~= texts(words@));
        let line = command_from(plain);
        let ghost known = self.encoded_commands.view();
        let ghost key = line@;
        let ghost form = encoded@;
        self.encoded_commands.insert(line, encoded);
        proof {
            lookup_inserted(known, key, form, key);
        }
    }

    /// Makes the quoted form of an argument known.
    pub fn learn_argument(&mut self, argument: String, quoted: String)
        ensures
            final(self).windows == old(self).windows,
            final(self).encoded_commands == old(self).encoded_commands,
            final(self).quoted_arguments.view() == inserted(
                old(self).quoted_arguments.view(),
                argument@,
                quoted@,
            ),
            final(self).windows ==> final(self).quoted(argument@) == quoted@,
    {
        let ghost known = self.quoted_arguments.view();
        let ghost key = argument@;
        let ghost form = quoted@;
        self.quoted_arguments.insert(argument, quoted);
        proof {
            lookup_inserted(known, key, form, key);
        }
    }

    /// The command of these words, as the platform writes it.
    fn write_command(&self, words: Vec<&str>) -> (r: String)
        ensures
            r@ == self.command(words_view(words@)),
    {
        let line = command_from(words);
        if self.windows {
            if let Some(encoded) = self.encoded_commands.get(line.as_str()) {
                return encoded.clone();
            }
        }
        line
    }

    /// An argument, quoted as the platform does.
    pub fn quote(&self, argument: &str) -> (r: String)
        ensures
            r@ == self.quoted(argument@),
    {
        if self.windows {
            match self.quoted_arguments.get(argument) {
                Some(quoted) => quoted.clone(),
                None => argument.to_owned(),
            }
        } else {
            shell_quote_arg(argument)
        }
    }
}

/// A character that a shell takes as it is.
pub open spec fn plain_char(c: char) -> bool {
    ||| 'a' <= c <= 'z'
    ||| 'A' <= c <= 'Z'
    ||| '0' <= c <= '9'
    ||| c == '/' || c == '.' || c == '_' || c == '-' || c == ':'
}

fn is_plain(c: char) -> (r: bool)
    ensures
        r == plain_char(c),
{
    ('a' <= c && c <= 'z') || ('A' <= c && c <= 'Z') || ('0' <= c && c <= '9') || c == '/' || c == '.' || c == '_' || c
        == '-' || c == ':'
}

/// A text that a shell takes as it is.
pub open spec fn plain_text(s: Seq<char>) -> bool {
    s.len() > 0 && forall|i: int| 0 <= i < s.len() ==> plain_char(#[trigger] s[i])
}

/// What stands between single quotes for a text: a single quote ends them, is written on its own, and opens
/// them again.
pub open spec fn escaped(s: Seq<char>) -> Seq<char>
    decreases s.len(),
{
    if s.len() == 0 {
        s
    } else if s.last() == '\'' {
        escaped(s.drop_last()) + seq!['\'', '\\', '\'', '\'']
    } else {
        escaped(s.drop_last()).push(s.last())
    }
}

/// A text as one word of a shell command.
pub open spec fn shell_word(s: Seq<char>) -> Seq<char> {
    if plain_text(s) {
        s
    } else {
        seq!['\''] + escaped(s) + seq!['\'']
    }
}

/// A text as one word of a shell command.
pub fn shell_quote_arg(s: &str) -> (r: String)
    ensures
        r@ == shell_word(s@),
{
    let cs: Vec<char> = chars_of(s);
    let mut plain = cs.len() > 0;
    let mut i: usize = 0;
    while i < cs.len()
        invariant
            i <= cs.len(),
            cs@ == s@,
            plain == (cs.len() > 0 && forall|j: int| 0 <= j < i ==> plain_char(#[trigger] s@[j])),
        decreases cs.len() - i,
    {
        if !is_plain(cs[i]) {
            assert(!plain_char(s@[i as int]));
            plain = false;
        }
        i += 1;
    }
    if plain {
        return s.to_owned();
    }
    let mut r = String::new();
    r.push('\'');
    let mut k: usize = 0;
    assert(r@ =~= seq!['\''] + escaped(s@.take(0)));
    while k < cs.len()
        invariant
            k <= cs.len(),
            cs@ == s@,
            r@ == seq!['\''] + escaped(s@.take(k as int)),
        decreases cs.len() - k,
    {
        assert(s@.take(k + 1).drop_last() =~= s@.take(k as int));
        assert(s@.take(k + 1).last() == s@[k as int]);
        let ghost before = r@;
        if cs[k] == '\'' {
            r.push('\'');
            r.push('\\');
            r.push('\'');
            r.push('\'');
            assert(r@ =~= seq!['\''] + escaped(s@.take(k + 1)));
        } else {
            r.push(cs[k]);
            assert(r@ =~= seq!['\''] + escaped(s@.take(k + 1)));
        }
        k += 1;
    }
    assert(s@.take(k as int) =~= s@);
    r.push('\'');
    assert(r@ =~= seq!['\''] + escaped(s@) + seq!['\'']);
    r
}

/// The first word that a shell reads in a command, and what stands behind the blank after it. `quoted`
/// says whether reading begins between single quotes.
pub open spec fn read_word(s: Seq<char>, quoted: bool) -> (Seq<char>, Seq<char>)
    decreases s.len(),
{
    if s.len() == 0 {
        (s, s)
    } else if quoted {
        if s[0] == '\'' {
            read_word(s.skip(1), false)
        } else {
            let (word, rest) = read_word(s.skip(1), true);
            (seq![s[0]] + word, rest)
        }
    } else if s[0] == ' ' {
        (Seq::empty(), s.skip(1))
    } else if s[0] == '\'' {
        read_word(s.skip(1), true)
    } else if s[0] == '\\' {
        if s.len() == 1 {
            (Seq::empty(), Seq::empty())
        } else {
            let (word, rest) = read_word(s.skip(2), false);
            (seq![s[1]] + word, rest)
        }
    } else {
        let (word, rest) = read_word(s.skip(1), false);
        (seq![s[0]] + word, rest)
    }
}

/// What follows on a word: nothing, or a blank and more.
pub open spec fn behind_word(rest: Seq<char>) -> Seq<char> {
    if rest.len() == 0 {
        rest
    } else {
        rest.skip(1)
    }
}

proof fn plain_is_read(s: Seq<char>, rest: Seq<char>)
    requires
        forall|i: int| 0 <= i < s.len() ==> plain_char(#[trigger] s[i]),
        rest.len() == 0 || rest[0] == ' ',
    ensures
        read_word(s + rest, false) == (s, behind_word(rest)),
    decreases s.len(),
{
    if s.len() == 0 {
        assert(s + rest =~= rest);
        assert(s =~= Seq::empty());
        if rest.len() == 0 {
            assert(rest =~= Seq::empty());
        }
    } else {
        assert(plain_char(s[0]));
        let tail = s.skip(1);
        assert forall|i: int| 0 <= i < tail.len() implies plain_char(#[trigger] tail[i]) by {
            assert(plain_char(s[i + 1]));
        }
        plain_is_read(tail, rest);
        assert((s + rest).skip(1) =~= tail + rest);
        assert(seq![s[0]] + tail =~= s);
    }
}

/// What stands between single quotes for a text that begins with `c`.
pub open spec fn escaped_char(c: char) -> Seq<char> {
    if c == '\'' {
        seq!['\'', '\\', '\'', '\'']
    } else {
        seq![c]
    }
}

proof fn escaped_front(s: Seq<char>)
    requires
        s.len() > 0,
    ensures
        escaped(s) == escaped_char(s[0]) + escaped(s.skip(1)),
    decreases s.len(),
{
    if s.len() == 1 {
        assert(s.drop_last() =~= Seq::empty());
        assert(s.skip(1) =~= Seq::empty());
        assert(escaped(s) =~= escaped_char(s[0]) + escaped(s.skip(1)));
    } else {
        escaped_front(s.drop_last());
        assert(s.drop_last().skip(1) =~= s.skip(1).drop_last());
        assert(s.skip(1).last() == s.last());
        assert(escaped(s) =~= escaped_char(s[0]) + escaped(s.skip(1)));
    }
}

proof fn escaped_is_read(s: Seq<char>, rest: Seq<char>)
    requires
        rest.len() == 0 || rest[0] == ' ',
    ensures
        read_word(escaped(s) + seq!['\''] + rest, true) == (s, behind_word(rest)),
    decreases s.len(),
{
    let all = escaped(s) + seq!['\''] + rest;
    if s.len() == 0 {
        assert(s =~= Seq::empty());
        assert(all =~= seq!['\''] + rest);
        assert(all.skip(1) =~= rest);
        plain_is_read(Seq::empty(), rest);
        assert(Seq::empty() + rest =~= rest);
    } else {
        escaped_front(s);
        let tail = s.skip(1);
        let more = escaped(tail) + seq!['\''] + rest;
        escaped_is_read(tail, rest);
        assert(seq![s[0]] + tail =~= s);
        if s[0] == '\'' {
            let unquoted = seq!['\\', '\'', '\''] + more;
            let reopened = seq!['\''] + more;
            assert(all =~= seq!['\''] + unquoted);
            assert(all.skip(1) =~= unquoted);
            assert(unquoted.skip(2) =~= reopened);
            assert(reopened.skip(1) =~= more);
            assert(read_word(reopened, false) == read_word(more, true));
            assert(read_word(unquoted, false) == (seq!['\''] + tail, behind_word(rest)));
        } else {
            assert(all =~= seq![s[0]] + more);
            assert(all.skip(1) =~= more);
        }
    }
}

/// A shell reads back the text that a word stands for, and nothing of what follows.
pub proof fn a_shell_reads_back_a_word(s: Seq<char>, rest: Seq<char>)
    requires
        rest.len() == 0 || rest[0] == ' ',
    ensures
        read_word(shell_word(s) + rest, false) == (s, behind_word(rest)),
{
    if plain_text(s) {
        plain_is_read(s, rest);
    } else {
        escaped_is_read(s, rest);
        let all = shell_word(s) + rest;
        assert(all =~= seq!['\''] + (escaped(s) + seq!['\''] + rest));
        assert(all.skip(1) =~= escaped(s) + seq!['\''] + rest);
    }
}

/// Reading a word uses up some of what is there.
pub proof fn read_word_shrinks(s: Seq<char>, quoted: bool)
    ensures
        read_word(s, quoted).1.len() <= s.len(),
        s.len() > 0 ==> read_word(s, quoted).1.len() < s.len(),
    decreases s.len(),
{
    if s.len() > 0 {
        read_word_shrinks(s.skip(1), true);
        read_word_shrinks(s.skip(1), false);
        if s.len() > 1 {
            read_word_shrinks(s.skip(2), false);
        }
    }
}

/// The words that a shell reads in a command.
pub open spec fn shell_words(s: Seq<char>) -> Seq<Seq<char>>
    decreases s.len(),
{
    if s.len() == 0 {
        Seq::empty()
    } else {
        proof {
            read_word_shrinks(s, false);
        }
        let (word, rest) = read_word(s, false);
        seq![word] + shell_words(rest)
    }
}

/// A command of these words.
pub open spec fn command_of(words: Seq<Seq<char>>) -> Seq<char>
    decreases words.len(),
{
    if words.len() == 0 {
        Seq::empty()
    } else if words.len() == 1 {
        shell_word(words[0])
    } else {
        shell_word(words[0]) + seq![' '] + command_of(words.skip(1))
    }
}

/// A shell reads back the words that a command is made of.
pub proof fn a_shell_reads_back_a_command(words: Seq<Seq<char>>)
    ensures
        shell_words(command_of(words)) == words,
    decreases words.len(),
{
    if words.len() == 0 {
        assert(words =~= Seq::empty());
    } else if words.len() == 1 {
        a_shell_reads_back_a_word(words[0], Seq::empty());
        assert(shell_word(words[0]) + Seq::empty() =~= shell_word(words[0]));
        assert(words =~= seq![words[0]]);
        assert(shell_words(Seq::empty()) =~= Seq::<Seq<char>>::empty());
        assert(shell_word(words[0]).len() > 0);
        assert(seq![words[0]] + Seq::<Seq<char>>::empty() =~= words);
    } else {
        let tail = command_of(words.skip(1));
        let rest = seq![' '] + tail;
        a_shell_reads_back_a_word(words[0], rest);
        a_shell_reads_back_a_command(words.skip(1));
        assert(command_of(words) =~= shell_word(words[0]) + rest);
        assert(rest.skip(1) =~= tail);
        assert(words =~= seq![words[0]] + words.skip(1));
    }
}

/// The words of the hook command of a persistent installation.
pub open spec fn persistent_words(relay: Seq<char>, generation: Seq<char>, token: Seq<char>) -> Seq<Seq<char>> {
    seq![
        relay,
        "hook-forward"@,
        "hermes"@,
        "--gateway-url"@,
        DEFAULT_URL@,
        "--generation-file"@,
        generation,
        "--generation-token"@,
        token,
    ]
}

/// The words of the hook command of a transparent run.
pub open spec fn transparent_words(relay: Seq<char>, gateway_url: Seq<char>) -> Seq<Seq<char>> {
    seq![relay, "hook-forward"@, "hermes"@, "--gateway-url"@, gateway_url, "--transparent-run"@]
}

/// The hook command of a persistent installation.
pub open spec fn persistent_command(
    platform: Platform,
    relay: Seq<char>,
    generation: Seq<char>,
    token: Seq<char>,
) -> Seq<char> {
    platform.command(persistent_words(relay, generation, token))
}

/// The hook command of a transparent run.
pub open spec fn transparent_command(platform: Platform, relay: Seq<char>, gateway_url: Seq<char>) -> Seq<char> {
    platform.command(transparent_words(relay, gateway_url))
}

/// What vectors of words hold.
pub open spec fn words_view(words: Seq<&str>) -> Seq<Seq<char>> {
    Seq::new(words.len(), |i: int| words[i]@)
}

fn command_from(words: Vec<&str>) -> (r: String)
    ensures
        r@ == command_of(words_view(words@)),
{
    let ghost all = words_view(words@);
    let mut r = String::new();
    let mut i: usize = words.len();
    assert(all.skip(all.len() as int) =~= Seq::empty());
    while i > 0
        invariant
            i <= words.len(),
            all == words_view(words@),
            r@ == command_of(all.skip(i as int)),
        decreases i,
    {
        let word = shell_quote_arg(words[i - 1]);
        assert(all.skip(i - 1).skip(1) =~= all.skip(i as int));
        assert(all.skip(i - 1)[0] == words@[i - 1]@);
        if i == words.len() {
            r = word;
        } else {
            let ghost behind = r@;
            let mut joined = word;
            joined.push(' ');
            let whole = joined.concat(r.as_str());
            assert(whole@ =~= shell_word(words@[i - 1]@) + seq![' '] + behind);
            r = whole;
        }
        i -= 1;
    }
    assert(all.skip(0) =~= all);
    r
}

/// The hook command of a persistent installation: the relay at `relay` forwards to the shared gateway, under
/// the generation that the file `generation` and the token name.
pub fn persistent_hook_command(platform: &Platform, relay: &str, generation: &str, generation_token: &str) -> (r:
    String)
    ensures
        r@ == persistent_command(*platform, relay@, generation@, generation_token@),
{
    let words: Vec<&str> = vec![
        relay,
        "hook-forward",
        "hermes",
        "--gateway-url",
        DEFAULT_URL,
        "--generation-file",
        generation,
        "--generation-token",
        generation_token,
    ];
    assert(words_view(words@) =~= persistent_words(relay@, generation@, generation_token@));
    platform.write_command(words)
}

/// The words of the hook command of a persistent installation, as a platform that encodes them is given them.
pub fn persistent_hook_words(relay: &str, generation: &str, generation_token: &str) -> (r: Vec<String>)
    ensures
        texts(r@) == persistent_words(relay@, generation@, generation_token@),
{
    let words: Vec<String> = vec![
        relay.to_owned(),
        "hook-forward".to_owned(),
        "hermes".to_owned(),
        "--gateway-url".to_owned(),
        DEFAULT_URL.to_owned(),
        "--generation-file".to_owned(),
        generation.to_owned(),
        "--generation-token".to_owned(),
        generation_token.to_owned(),
    ];
    assert(texts(words@) =~= persistent_words(relay@, generation@, generation_token@));
    words
}

/// The words of the hook command of a transparent run, as a platform that encodes them is given them.
pub fn transparent_hook_words(relay: &str, gateway_url: &str) -> (r: Vec<String>)
    ensures
        texts(r@) == transparent_words(relay@, gateway_url@),
{
    let words: Vec<String> = vec![
        relay.to_owned(),
        "hook-forward".to_owned(),
        "hermes".to_owned(),
        "--gateway-url".to_owned(),
        gateway_url.to_owned(),
        "--transparent-run".to_owned(),
    ];
    assert(texts(words@) =~= transparent_words(relay@, gateway_url@));
    words
}

/// The hook command of a transparent run: the relay at `relay` forwards to the gateway of that run.
pub fn transparent_hook_forward_command(platform: &Platform, relay: &str, gateway_url: &str) -> (r: String)
    ensures
        r@ == transparent_command(*platform, relay@, gateway_url@),
{
    let words: Vec<&str> = vec![relay, "hook-forward", "hermes", "--gateway-url", gateway_url, "--transparent-run"];
    assert(words_view(words@) =~= transparent_words(relay@, gateway_url@));
    platform.write_command(words)
}

/// A POSIX shell that runs a persistent hook command starts the relay at the path it was made with, for the
/// generation it was made with, whatever characters these hold.
pub proof fn a_persistent_hook_runs_its_relay(
    platform: Platform,
    relay: Seq<char>,
    generation: Seq<char>,
    token: Seq<char>,
)
    requires
        !platform.windows,
    ensures
        shell_words(persistent_command(platform, relay, generation, token)) == persistent_words(relay, generation, token),
{
    a_shell_reads_back_a_command(persistent_words(relay, generation, token));
}

/// A POSIX shell that runs a transparent hook command starts the relay at the path it was made with, for the
/// gateway it was made with.
pub proof fn a_transparent_hook_runs_its_relay(platform: Platform, relay: Seq<char>, gateway_url: Seq<char>)
    requires
        !platform.windows,
    ensures
        shell_words(transparent_command(platform, relay, gateway_url)) == transparent_words(relay, gateway_url),
{
    a_shell_reads_back_a_command(transparent_words(relay, gateway_url));
}

/// Two persistent hook commands of a POSIX shell are the same only where relay, generation and token are.
pub proof fn persistent_hooks_differ(
    platform: Platform,
    relay: Seq<char>,
    generation: Seq<char>,
    token: Seq<char>,
    other_relay: Seq<char>,
    other_generation: Seq<char>,
    other_token: Seq<char>,
)
    requires
        !platform.windows,
        persistent_command(platform, relay, generation, token) == persistent_command(
            platform,
            other_relay,
            other_generation,
            other_token,
        ),
    ensures
        relay == other_relay,
        generation == other_generation,
        token == other_token,
{
    a_persistent_hook_runs_its_relay(platform, relay, generation, token);
    a_persistent_hook_runs_its_relay(platform, other_relay, other_generation, other_token);
    let a = persistent_words(relay, generation, token);
    let b = persistent_words(other_relay, other_generation, other_token);
    assert(a[0] == b[0]);
    assert(a[6] == b[6]);
    assert(a[8] == b[8]);
}

/// The hook command of a persistent installation is never that of a transparent run, where a POSIX shell reads
/// them.
pub proof fn hooks_of_runs_and_installations_differ(
    platform: Platform,
    relay: Seq<char>,
    generation: Seq<char>,
    token: Seq<char>,
    gateway_url: Seq<char>,
)
    requires
        !platform.windows,
    ensures
        persistent_command(platform, relay, generation, token) != transparent_command(platform, relay, gateway_url),
{
    a_persistent_hook_runs_its_relay(platform, relay, generation, token);
    a_transparent_hook_runs_its_relay(platform, relay, gateway_url);
    assert(persistent_words(relay, generation, token).len() != transparent_words(relay, gateway_url).len());
}

/// A command of an old installation: the relay, as it is or quoted, and one of the two old ways to forward.
pub open spec fn legacy_command(platform: Platform, command: Seq<char>, relay: Seq<char>) -> bool {
    forwards_behind(command, relay) || forwards_behind(command, platform.quoted(relay))
}

pub open spec fn forwards_behind(command: Seq<char>, prefix: Seq<char>) -> bool {
    begins(command, prefix) && {
        let arguments = command.skip(prefix.len() as int);
        begins(arguments, " hook-forward hermes"@) || begins(arguments, " plugin-shim hook hermes"@)
    }
}

fn forwards_from(command: &str, prefix: &str) -> (r: bool)
    ensures
        r == forwards_behind(command@, prefix@),
{
    if !begins_with(command, prefix) {
        return false;
    }
    let n: usize = prefix.unicode_len();
    let m: usize = command.unicode_len();
    let arguments = command.substring_char(n, m);
    assert(arguments@ =~= command@.skip(n as int));
    begins_with(arguments, " hook-forward hermes") || begins_with(arguments, " plugin-shim hook hermes")
}

/// Whether a command is one of an old installation of the relay at `relay`.
pub fn legacy_command_uses_relay(platform: &Platform, command: &str, relay: &str) -> (r: bool)
    ensures
        r == legacy_command(*platform, command@, relay@),
{
    forwards_from(command, relay) || forwards_from(command, platform.quote(relay).as_str())
}

/// A command that looks like the hook of a persistent installation.
pub open spec fn persistent_looking(command: Seq<char>) -> bool {
    &&& holds(command, "hook-forward"@)
    &&& holds(command, "hermes"@)
    &&& holds(command, "--gateway-url"@)
    &&& holds(command, DEFAULT_URL@)
    &&& holds(command, "--generation-file"@)
    &&& holds(command, "--generation-token"@)
}

/// Arguments, taken out of an encoded command, that are those of the hook of a persistent installation.
pub open spec fn persistent_arguments(arguments: Seq<Seq<char>>) -> bool {
    &&& arguments.len() == 9
    &&& arguments[1] == "hook-forward"@
    &&& arguments[2] == "hermes"@
    &&& arguments[3] == "--gateway-url"@
    &&& arguments[4] == DEFAULT_URL@
    &&& arguments[5] == "--generation-file"@
    &&& arguments[7] == "--generation-token"@
    &&& arguments[8].len() > 0
}

/// Whether a command is the hook of a persistent installation. `decoded` holds its arguments where it is an
/// encoded command.
pub fn is_persistent_relay_hook_command(command: &str, decoded: Option<&Vec<String>>) -> (r: bool)
    ensures
        r == (match decoded {
            Some(arguments) => persistent_arguments(texts(arguments@)),
            None => persistent_looking(command@),
        }),
{
    match decoded {
        Some(arguments) => {
            if arguments.len() != 9 {
                return false;
            }
            proof {
                assert(texts(arguments@)[1] == arguments@[1]@);
                assert(texts(arguments@)[2] == arguments@[2]@);
                assert(texts(arguments@)[3] == arguments@[3]@);
                assert(texts(arguments@)[4] == arguments@[4]@);
                assert(texts(arguments@)[5] == arguments@[5]@);
                assert(texts(arguments@)[7] == arguments@[7]@);
                assert(texts(arguments@)[8] == arguments@[8]@);
            }
            same_text(arguments[1].as_str(), "hook-forward") && same_text(arguments[2].as_str(), "hermes")
                && same_text(arguments[3].as_str(), "--gateway-url") && same_text(arguments[4].as_str(), DEFAULT_URL)
                && same_text(arguments[5].as_str(), "--generation-file") && same_text(
                arguments[7].as_str(),
                "--generation-token",
            ) && !arguments[8].as_str().is_empty()
        },
        None => holds_text(command, "hook-forward") && holds_text(command, "hermes") && holds_text(
            command,
            "--gateway-url",
        ) && holds_text(command, DEFAULT_URL) && holds_text(command, "--generation-file") && holds_text(
            command,
            "--generation-token",
        ),
    }
}

proof fn a_plain_word_stands_in_its_command(words: Seq<Seq<char>>, i: int)
    requires
        0 <= i < words.len(),
        plain_text(words[i]),
    ensures
        holds(command_of(words), words[i]),
    decreases words.len(),
{
    let whole = command_of(words);
    let word = words[i];
    if i == 0 {
        assert(whole.skip(0) =~= whole);
        assert(whole.take(word.len() as int) =~= word);
        assert(begins(whole.skip(0), word));
    } else {
        let tail = command_of(words.skip(1));
        let front = shell_word(words[0]) + seq![' '];
        a_plain_word_stands_in_its_command(words.skip(1), i - 1);
        let k = choose|k: int| 0 <= k <= tail.len() && begins(#[trigger] tail.skip(k), word);
        assert(whole =~= front + tail);
        assert(whole.skip(front.len() + k) =~= tail.skip(k));
        assert(begins(whole.skip(front.len() + k), word));
    }
}

/// The hook command of a persistent installation is known again as one: by its text where a POSIX shell reads it, and
/// by its words where it is encoded.
pub proof fn a_persistent_hook_is_known_again(
    platform: Platform,
    relay: Seq<char>,
    generation: Seq<char>,
    token: Seq<char>,
)
    ensures
        !platform.windows ==> persistent_looking(persistent_command(platform, relay, generation, token)),
        token.len() > 0 ==> persistent_arguments(persistent_words(relay, generation, token)),
{
    let words = persistent_words(relay, generation, token);
    reveal_strlit("hook-forward");
    reveal_strlit("hermes");
    reveal_strlit("--gateway-url");
    reveal_strlit("http://127.0.0.1:47632");
    reveal_strlit("--generation-file");
    reveal_strlit("--generation-token");
    assert(plain_text(words[1]));
    assert(plain_text(words[2]));
    assert(plain_text(words[3]));
    assert(plain_text(words[4]));
    assert(plain_text(words[5]));
    assert(plain_text(words[7]));
    a_plain_word_stands_in_its_command(words, 1);
    a_plain_word_stands_in_its_command(words, 2);
    a_plain_word_stands_in_its_command(words, 3);
    a_plain_word_stands_in_its_command(words, 4);
    a_plain_word_stands_in_its_command(words, 5);
    a_plain_word_stands_in_its_command(words, 7);
}

} // verus!
