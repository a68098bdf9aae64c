//! What hook commands start, and how they are told from others.

use crate::error::Failure;
use crate::hermes::hooks::{
    a_persistent_hook_runs_its_relay, a_shell_reads_back_a_command, a_transparent_hook_runs_its_relay, command_of, escaped,
    forwards_behind, legacy_command, persistent_arguments, persistent_command, persistent_looking, plain_text, shell_word,
    shell_words, transparent_command, Platform,
};
use crate::hermes::transaction::{
    existing, rollback_text, steps, transaction_start, transaction_step, ActionView, StateView, TransactionAction,
    TransactionState,
};
use crate::ordered::lookup;
use crate::text::{begins, holds, joined, texts};
use crate::text_laws::a_beginning_is_followed_by_the_rest;
use vstd::prelude::*;
use vstd::string::*;

verus! {

/// A POSIX shell that runs the hook of a persistent installation starts the relay, and has it forward the agent's hooks
/// to the shared gateway, under the generation that the file and the token name.
pub proof fn a_persistent_hook_forwards_to_the_shared_gateway(
    platform: Platform,
    relay: Seq<char>,
    generation: Seq<char>,
    token: Seq<char>,
)
    requires
        !platform.windows,
    ensures
        ({
            let words = shell_words(persistent_command(platform, relay, generation, token));
            &&& words.len() == 9
            &&& words[0] == relay
            &&& words[1] == "hook-forward"@
            &&& words[2] == "hermes"@
            &&& words[3] == "--gateway-url"@
            &&& words[4] == "http://127.0.0.1:47632"@
            &&& words[5] == "--generation-file"@
            &&& words[6] == generation
            &&& words[7] == "--generation-token"@
            &&& words[8] == token
        }),
{
    a_persistent_hook_runs_its_relay(platform, relay, generation, token);
}

/// A POSIX shell that runs the hook of a transparent run starts the relay, and has it forward the agent's hooks to the
/// gateway of that run.
pub proof fn a_transparent_hook_forwards_to_its_gateway(platform: Platform, relay: Seq<char>, gateway_url: Seq<char>)
    requires
        !platform.windows,
    ensures
        ({
            let words = shell_words(transparent_command(platform, relay, gateway_url));
            &&& words.len() == 6
            &&& words[0] == relay
            &&& words[1] == "hook-forward"@
            &&& words[2] == "hermes"@
            &&& words[3] == "--gateway-url"@
            &&& words[4] == gateway_url
            &&& words[5] == "--transparent-run"@
        }),
{
    a_transparent_hook_runs_its_relay(platform, relay, gateway_url);
}

/// On Windows a command is written in the form that is known for its words; one whose form is not known, and every
/// command elsewhere, is written as a POSIX shell reads it.
pub proof fn a_command_is_written_as_its_platform_does(platform: Platform, words: Seq<Seq<char>>, argument: Seq<char>)
    ensures
        !platform.windows ==> shell_words(platform.command(words)) == words,
        platform.windows ==> (lookup(platform.encoded_commands.view(), command_of(words)) matches Some(encoded)
            ==> platform.command(words) == encoded),
        platform.windows && lookup(platform.encoded_commands.view(), command_of(words)) is None ==> shell_words(
            platform.command(words),
        ) == words,
        !platform.windows ==> shell_words(platform.quoted(argument)) == seq![argument],
        platform.windows ==> (lookup(platform.quoted_arguments.view(), argument) matches Some(quoted)
            ==> platform.quoted(argument) == quoted),
        platform.windows && lookup(platform.quoted_arguments.view(), argument) is None ==> platform.quoted(argument)
            == argument,
{
    a_shell_reads_back_a_command(words);
    a_shell_reads_back_a_command(seq![argument]);
    assert(command_of(seq![argument]) == shell_word(argument));
}

/// Arguments are those of a persistent hook exactly where they are the words of one, of some relay and some generation,
/// whose token is not empty.
pub proof fn persistent_arguments_are_words_of_a_hook(arguments: Seq<Seq<char>>)
    ensures
        persistent_arguments(arguments) <==> arguments.len() == 9 && arguments[8].len() > 0 && arguments == seq![
            arguments[0],
            "hook-forward"@,
            "hermes"@,
            "--gateway-url"@,
            "http://127.0.0.1:47632"@,
            "--generation-file"@,
            arguments[6],
            "--generation-token"@,
            arguments[8],
        ],
{
    if persistent_arguments(arguments) {
        assert(arguments =~= seq![
            arguments[0],
            "hook-forward"@,
            "hermes"@,
            "--gateway-url"@,
            "http://127.0.0.1:47632"@,
            "--generation-file"@,
            arguments[6],
            "--generation-token"@,
            arguments[8],
        ]);
    }
}

/// A command looks like a persistent hook exactly where it holds every plain word of one.
pub proof fn a_persistent_hook_holds_every_plain_word(command: Seq<char>)
    ensures
        persistent_looking(command) <==> {
            &&& holds(command, "hook-forward"@)
            &&& holds(command, "hermes"@)
            &&& holds(command, "--gateway-url"@)
            &&& holds(command, "http://127.0.0.1:47632"@)
            &&& holds(command, "--generation-file"@)
            &&& holds(command, "--generation-token"@)
        },
{
}

/// A command is one of an old installation where the relay, as it is or quoted, stands first in it and forwards in one of
/// the two old ways, whatever follows.
pub proof fn an_old_hook_begins_with_its_relay(platform: Platform, relay: Seq<char>, rest: Seq<char>)
    ensures
        legacy_command(platform, relay + " hook-forward hermes"@ + rest, relay),
        legacy_command(platform, relay + " plugin-shim hook hermes"@ + rest, relay),
        legacy_command(platform, platform.quoted(relay) + " hook-forward hermes"@ + rest, relay),
        legacy_command(platform, platform.quoted(relay) + " plugin-shim hook hermes"@ + rest, relay),
{
    an_old_way_follows(relay, " hook-forward hermes"@, rest);
    an_old_way_follows(relay, " plugin-shim hook hermes"@, rest);
    an_old_way_follows(platform.quoted(relay), " hook-forward hermes"@, rest);
    an_old_way_follows(platform.quoted(relay), " plugin-shim hook hermes"@, rest);
}

proof fn an_old_way_follows(relay: Seq<char>, way: Seq<char>, rest: Seq<char>)
    requires
        way == " hook-forward hermes"@ || way == " plugin-shim hook hermes"@,
    ensures
        forwards_behind(relay + way + rest, relay),
{
    let command = relay + way + rest;
    assert(command =~= relay + (way + rest));
    a_beginning_is_followed_by_the_rest(relay, way + rest, command);
    assert(command.skip(relay.len() as int) =~= way + rest);
    a_beginning_is_followed_by_the_rest(way, rest, command);
}

/// No other command is one of an old installation of the relay.
pub proof fn only_a_forwarding_relay_is_an_old_hook(platform: Platform, command: Seq<char>, relay: Seq<char>)
    requires
        legacy_command(platform, command, relay),
    ensures
        exists|first: Seq<char>, way: Seq<char>, rest: Seq<char>|
            #![trigger first + way + rest]
            command == first + way + rest && (first == relay || first == platform.quoted(relay)) && (way
                == " hook-forward hermes"@ || way == " plugin-shim hook hermes"@),
{
    let first = if forwards_behind(command, relay) {
        relay
    } else {
        platform.quoted(relay)
    };
    let arguments = command.skip(first.len() as int);
    let way = if begins(arguments, " hook-forward hermes"@) {
        " hook-forward hermes"@
    } else {
        " plugin-shim hook hermes"@
    };
    let rest = arguments.skip(way.len() as int);
    a_beginning_is_followed_by_the_rest(first, rest, command);
    a_beginning_is_followed_by_the_rest(way, rest, arguments);
    assert(command =~= first + way + rest);
}

/// What a failed change says is what was to be done and the error, and behind them everything that could not be put back.
pub proof fn a_failed_change_tells_what_was_not_put_back(
    operation: Seq<char>,
    error: Seq<char>,
    failures: Seq<Seq<char>>,
)
    ensures
        ({
            let base = "failed to "@ + operation + " Hermes MCP integration: "@ + error;
            &&& failures.len() == 0 ==> rollback_text(operation, error, failures) == base
            &&& failures.len() > 0 ==> rollback_text(operation, error, failures)
                == base + ("; rollback also failed: "@
                + joined(failures, "; "@))
        }),
{
    let base = "failed to "@ + operation + " Hermes MCP integration: "@ + error;
    assert(base + Seq::<char>::empty() =~= base);
}

/// The files that a removal affects are those that are there, and no others.
pub proof fn a_removal_affects_the_files_that_are_there(paths: Seq<Seq<char>>, there: Seq<bool>, path: Seq<char>)
    requires
        paths.len() == there.len(),
    ensures
        existing(paths, there).contains(path) <==> exists|i: int| 0 <= i < paths.len() && #[trigger] paths[i]
            == path && there[i],
    decreases paths.len(),
{
    if paths.len() > 0 {
        let n = paths.len() - 1;
        let front = paths.drop_last();
        let flags = there.drop_last();
        a_removal_affects_the_files_that_are_there(front, flags, path);
        let before = existing(front, flags);
        let now = existing(paths, there);
        if before.contains(path) {
            let i = choose|i: int| 0 <= i < before.len() && before[i] == path;
            assert(now[i] == path);
            let j = choose|j: int| 0 <= j < front.len() && #[trigger] front[j] == path && flags[j];
            assert(paths[j] == path && there[j]);
        }
        if there[n] {
            assert(now[now.len() - 1] == paths[n]);
        }
        if now.contains(path) && !before.contains(path) {
            let i = choose|i: int| 0 <= i < now.len() && now[i] == path;
            if i < before.len() {
                assert(before[i] == path);
            }
            assert(paths[n] == path && there[n]);
        }
        if exists|i: int| 0 <= i < paths.len() && #[trigger] paths[i] == path && there[i] {
            let i = choose|i: int| 0 <= i < paths.len() && #[trigger] paths[i] == path && there[i];
            if i < n {
                assert(front[i] == path && flags[i]);
            }
        }
    }
}

/// A transaction makes its changes in order, one after the other, and checks what was written when all are made; with
/// nothing to change it checks at once.
pub proof fn changes_are_made_in_order(operation: Seq<char>, changes: int, files: int, i: int)
    requires
        0 <= i < changes,
    ensures
        transaction_start(changes) == (Some(StateView::Changing(0)), ActionView::Change(0)),
        transaction_start(0) == (Some(StateView::Checking), ActionView::Check),
        i + 1 < changes ==> transaction_step(operation, changes, files, StateView::Changing(i), None) == (
            Some(StateView::Changing(i + 1)),
            ActionView::Change(i + 1),
        ),
        i + 1 == changes ==> transaction_step(operation, changes, files, StateView::Changing(i), None) == (
            Some(StateView::Checking),
            ActionView::Check,
        ),
        transaction_step(operation, changes, files, StateView::Checking, None) == (None::<StateView>,
            ActionView::Done),
{
}

/// With the first failure of a change, or of the check, the files are put back, the last first. What cannot be put back is
/// remembered, and does not keep the others from being put back; when none is left, the transaction fails with the first
/// error.
pub proof fn a_failure_puts_the_files_back(
    operation: Seq<char>,
    changes: int,
    files: int,
    state: StateView,
    error: Seq<char>,
    failures: Seq<Seq<char>>,
    place: int,
    failure: Seq<char>,
)
    requires
        state is Changing || state is Checking,
        files > 0,
        place > 0,
    ensures
        transaction_step(operation, changes, files, state, Some(error)) == (
            Some(StateView::Restoring { place: files - 1, error, failures: Seq::empty() }),
            ActionView::Restore(files - 1),
        ),
        transaction_step(operation, changes, files, StateView::Restoring { place, error, failures }, None) == (
            Some(StateView::Restoring { place: place - 1, error, failures }),
            ActionView::Restore(place - 1),
        ),
        transaction_step(operation, changes, files, StateView::Restoring { place, error, failures }, Some(failure))
            == (
            Some(StateView::Restoring { place: place - 1, error, failures: failures.push(failure) }),
            ActionView::Restore(place - 1),
        ),
        transaction_step(operation, changes, files, StateView::Restoring { place: 0, error, failures }, None) == (
            None::<StateView>,
            ActionView::Failed(rollback_text(operation, error, failures)),
        ),
{
}

/// A step that is taken is the one that is meant: its action, and what the transaction then waits for.
pub proof fn a_step_is_the_one_that_is_meant(
    r: (Option<TransactionState>, TransactionAction),
    expected: (Option<StateView>, ActionView),
)
    requires
        steps(r, expected),
    ensures
        r.0 is Some <==> expected.0 is Some,
        r.0 matches Some(TransactionState::Changing(i)) ==> expected.0 == Some(StateView::Changing(i as int)),
        r.0 matches Some(TransactionState::Checking) ==> expected.0 == Some(StateView::Checking),
        r.0 matches Some(TransactionState::Restoring { place, error, failures }) ==> expected.0 == Some(
            StateView::Restoring { place: place as int, error: error@, failures: texts(failures@) },
        ),
        r.1 matches TransactionAction::Change(i) ==> expected.1 == ActionView::Change(i as int),
        r.1 is Check ==> expected.1 == ActionView::Check,
        r.1 matches TransactionAction::Restore(i) ==> expected.1 == ActionView::Restore(i as int),
        r.1 is Done ==> expected.1 == ActionView::Done,
        r.1 matches TransactionAction::Failed(error) ==> error.view() == Failure::Install(expected.1->Failed_0),
{
}

/// A word stands in a command as it is only where it holds nothing that a shell could take for more than itself: letters,
/// digits, slashes, dots, underscores, hyphens and colons. Any other word is quoted.
pub proof fn only_harmless_words_stand_as_they_are(word: Seq<char>)
    ensures
        shell_word(word) == word <==> word.len() > 0 && forall|i: int|
            #![trigger word[i]]
            0 <= i < word.len() ==> {
                ||| 'a' <= word[i] <= 'z' || 'A' <= word[i] <= 'Z' || '0' <= word[i] <= '9'
                ||| word[i] == '/' || word[i] == '.' || word[i] == '_' || word[i] == '-' || word[i] == ':'
            },
        shell_word(word) != word ==> shell_word(word)[0] == '\'' && shell_word(word).last() == '\'',
{
    if !plain_text(word) {
        a_quoted_word_is_longer(word);
    }
}

proof fn a_quoted_word_is_longer(word: Seq<char>)
    ensures
        escaped(word).len() >= word.len(),
    decreases word.len(),
{
    if word.len() > 0 {
        a_quoted_word_is_longer(word.drop_last());
    }
}

} // verus!
