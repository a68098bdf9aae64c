//! Changing the files of an installation: the order of the writes, and what follows a failure.

use crate::error::{CliError, Failure};
use crate::hermes::paths::PersistentPaths;
use crate::hermes::plan::{InstallPlan, UninstallPlan};
use crate::text::{join_texts, joined, opt_text, texts};
use vstd::prelude::*;
use vstd::string::*;

verus! {

/// A change of one file: to this text, or away where there is none.
#[derive(Debug)]
pub struct FileChange {
    pub path: String,
    pub text: Option<String>,
}

/// What a change does.
pub open spec fn change_view(change: FileChange) -> (Seq<char>, Option<Seq<char>>) {
    (change.path@, opt_text(change.text))
}

/// What changes do.
pub open spec fn changes_view(changes: Seq<FileChange>) -> Seq<(Seq<char>, Option<Seq<char>>)> {
    Seq::new(changes.len(), |i: int| change_view(changes[i]))
}

/// The writes of an installation. The approvals come before the configuration, so that no configured hook is
/// ever seen without its approval; with the configuration the installation stands.
pub fn install_changes(paths: &PersistentPaths, plan: &InstallPlan) -> (r: Vec<FileChange>)
    ensures
        changes_view(r@) == seq![
            (paths.generation@, Some(plan.generation@)),
            (paths.allowlist@, Some(plan.allowlist@)),
            (paths.config@, Some(plan.config@)),
        ],
{
    let r = vec![
        FileChange { path: paths.generation.clone(), text: Some(plan.generation.clone()) },
        FileChange { path: paths.allowlist.clone(), text: Some(plan.allowlist.clone()) },
        FileChange { path: paths.config.clone(), text: Some(plan.config.clone()) },
    ];
    assert(changes_view(r@) =~= seq![
        (paths.generation@, Some(plan.generation@)),
        (paths.allowlist@, Some(plan.allowlist@)),
        (paths.config@, Some(plan.config@)),
    ]);
    r
}

/// The changes of a removal: the generation goes first, so that no client of it starts any more.
pub fn uninstall_changes(paths: &PersistentPaths, plan: &UninstallPlan) -> (r: Vec<FileChange>)
    ensures
        changes_view(r@) == seq![
            (paths.generation@, None),
            (paths.allowlist@, opt_text(plan.allowlist)),
            (paths.config@, opt_text(plan.config)),
        ],
{
    let allowlist: Option<String> = match &plan.allowlist {
        Some(text) => Some(text.clone()),
        None => None,
    };
    let config: Option<String> = match &plan.config {
        Some(text) => Some(text.clone()),
        None => None,
    };
    let r = vec![
        FileChange { path: paths.generation.clone(), text: None },
        FileChange { path: paths.allowlist.clone(), text: allowlist },
        FileChange { path: paths.config.clone(), text: config },
    ];
    assert(changes_view(r@) =~= seq![
        (paths.generation@, None),
        (paths.allowlist@, opt_text(plan.allowlist)),
        (paths.config@, opt_text(plan.config)),
    ]);
    r
}

/// The files that a removal affects: those of the installation that exist.
pub open spec fn existing(paths: Seq<Seq<char>>, exists: Seq<bool>) -> Seq<Seq<char>>
    decreases paths.len(),
{
    if paths.len() == 0 || exists.len() == 0 {
        Seq::empty()
    } else {
        let before = existing(paths.drop_last(), exists.drop_last());
        if exists.last() {
            before.push(paths.last())
        } else {
            before
        }
    }
}

/// The files that a removal affects.
pub fn affected_files(
    paths: &PersistentPaths,
    config_exists: bool,
    allowlist_exists: bool,
    generation_exists: bool,
) -> (r: Vec<String>)
    ensures
        texts(r@) == existing(
            seq![paths.config@, paths.allowlist@, paths.generation@],
            seq![config_exists, allowlist_exists, generation_exists],
        ),
{
    let mut files: Vec<String> = Vec::new();
    proof {
        let all = seq![paths.config@, paths.allowlist@, paths.generation@];
        let exists = seq![config_exists, allowlist_exists, generation_exists];
        reveal_with_fuel(existing, 4);
        assert(all.drop_last().drop_last().drop_last() =~= Seq::empty());
        assert(all.drop_last().drop_last().last() == all[0] && exists.drop_last().drop_last().last() == exists[0]);
        assert(all.drop_last().last() == all[1] && exists.drop_last().last() == exists[1]);
        assert(texts(files@) =~= Seq::empty());
    }
    if config_exists {
        files.push(paths.config.clone());
    }
    let ghost one = texts(files@);
    assert(one =~= if config_exists {
        Seq::empty().push(paths.config@)
    } else {
        Seq::empty()
    });
    if allowlist_exists {
        files.push(paths.allowlist.clone());
    }
    let ghost two = texts(files@);
    assert(two =~= if allowlist_exists {
        one.push(paths.allowlist@)
    } else {
        one
    });
    if generation_exists {
        files.push(paths.generation.clone());
    }
    assert(texts(files@) =~= if generation_exists {
        two.push(paths.generation@)
    } else {
        two
    });
    files
}

/// Where a transaction stands: which change is being made, or which file put back.
#[derive(Debug)]
pub enum TransactionState {
    /// The change at this place is being made.
    Changing(usize),
    /// What was written is being checked.
    Checking,
    /// The file at this place is being put back, because of `error`; `failures` says which could not be.
    Restoring { place: usize, error: String, failures: Vec<String> },
}

/// What a transaction does next.
#[derive(Debug)]
pub enum TransactionAction {
    /// Make the change at this place.
    Change(usize),
    /// Check what was written.
    Check,
    /// Put the file at this place back.
    Restore(usize),
    /// All is done.
    Done,
    /// Something failed.
    Failed(CliError),
}

/// Where a transaction stands.
pub enum StateView {
    Changing(int),
    Checking,
    Restoring { place: int, error: Seq<char>, failures: Seq<Seq<char>> },
}

/// What a transaction does next.
pub enum ActionView {
    Change(int),
    Check,
    Restore(int),
    Done,
    Failed(Seq<char>),
}

impl TransactionState {
    pub open spec fn view(&self) -> StateView {
        match self {
            TransactionState::Changing(i) => StateView::Changing(*i as int),
            TransactionState::Checking => StateView::Checking,
            TransactionState::Restoring { place, error, failures } => StateView::Restoring {
                place: *place as int,
                error: error@,
                failures: texts(failures@),
            },
        }
    }
}

/// Whether an action is this one; a failure is one of an installation.
pub open spec fn acts(action: TransactionAction, expected: ActionView) -> bool {
    match action {
        TransactionAction::Change(i) => expected == ActionView::Change(i as int),
        TransactionAction::Check => expected == ActionView::Check,
        TransactionAction::Restore(i) => expected == ActionView::Restore(i as int),
        TransactionAction::Done => expected == ActionView::Done,
        TransactionAction::Failed(error) => expected is Failed && error.view() == Failure::Install(expected->Failed_0),
    }
}

/// What a failed transaction says.
pub open spec fn rollback_text(operation: Seq<char>, error: Seq<char>, failures: Seq<Seq<char>>) -> Seq<char> {
    "failed to "@ + operation + " Hermes MCP integration: "@ + error + (if failures.len() == 0 {
        Seq::empty()
    } else {
        "; rollback also failed: "@ + joined(failures, "; "@)
    })
}

/// What a failed transaction says.
pub fn rollback_error(operation: &str, error: &str, failures: &Vec<String>) -> (r: CliError)
    ensures
        r.view() == Failure::Install(rollback_text(operation@, error@, texts(failures@))),
{
    let base = "failed to ".to_owned().concat(operation).concat(" Hermes MCP integration: ").concat(error);
    assert(texts(failures@).len() == failures@.len());
    if failures.len() == 0 {
        assert(base@ + Seq::<char>::empty() =~= base@);
        CliError::Install(base)
    } else {
        let more = "; rollback also failed: ".to_owned().concat(join_texts(failures, "; ").as_str());
        CliError::Install(base.concat(more.as_str()))
    }
}

/// Putting the files back, from the last to the first.
pub open spec fn restoring(operation: Seq<char>, left: int, error: Seq<char>, failures: Seq<Seq<char>>) -> (
    Option<StateView>,
    ActionView,
) {
    if left <= 0 {
        (None, ActionView::Failed(rollback_text(operation, error, failures)))
    } else {
        (
            Some(StateView::Restoring { place: left - 1, error, failures }),
            ActionView::Restore(left - 1),
        )
    }
}

/// The step of a transaction with `changes` changes on `files` files. The changes are made in order, then
/// checked; with the first failure every file is put back.
pub open spec fn transaction_step(
    operation: Seq<char>,
    changes: int,
    files: int,
    state: StateView,
    outcome: Option<Seq<char>>,
) -> (Option<StateView>, ActionView) {
    match state {
        StateView::Changing(i) => match outcome {
            Some(error) => restoring(operation, files, error, Seq::empty()),
            None => if i + 1 < changes {
                (Some(StateView::Changing(i + 1)), ActionView::Change(i + 1))
            } else {
                (Some(StateView::Checking), ActionView::Check)
            },
        },
        StateView::Checking => match outcome {
            Some(error) => restoring(operation, files, error, Seq::empty()),
            None => (None, ActionView::Done),
        },
        StateView::Restoring { place, error, failures } => restoring(
            operation,
            place,
            error,
            match outcome {
                Some(failure) => failures.push(failure),
                None => failures,
            },
        ),
    }
}

/// The start of a transaction.
pub open spec fn transaction_start(changes: int) -> (Option<StateView>, ActionView) {
    if changes <= 0 {
        (Some(StateView::Checking), ActionView::Check)
    } else {
        (Some(StateView::Changing(0)), ActionView::Change(0))
    }
}

/// Whether a step of a transaction is this one.
pub open spec fn steps(
    r: (Option<TransactionState>, TransactionAction),
    expected: (Option<StateView>, ActionView),
) -> bool {
    &&& acts(r.1, expected.1)
    &&& match r.0 {
        Some(state) => expected.0 == Some(state.view()),
        None => expected.0 is None,
    }
}

/// Starts a transaction.
pub fn begin_transaction(changes: usize) -> (r: (Option<TransactionState>, TransactionAction))
    ensures
        steps(r, transaction_start(changes as int)),
{
    if changes == 0 {
        (Some(TransactionState::Checking), TransactionAction::Check)
    } else {
        (Some(TransactionState::Changing(0)), TransactionAction::Change(0))
    }
}

fn restore_next(operation: &str, left: usize, error: String, failures: Vec<String>) -> (r: (
    Option<TransactionState>,
    TransactionAction,
))
    ensures
        steps(r, restoring(operation@, left as int, error@, texts(failures@))),
{
    if left == 0 {
        (None, TransactionAction::Failed(rollback_error(operation, error.as_str(), &failures)))
    } else {
        (
            Some(TransactionState::Restoring { place: left - 1, error, failures }),
            TransactionAction::Restore(left - 1),
        )
    }
}

/// What a transaction does after what it did last: `outcome` is the error of that, in words.
pub fn advance_transaction(
    operation: &str,
    changes: usize,
    files: usize,
    state: TransactionState,
    outcome: Result<(), String>,
) -> (r: (Option<TransactionState>, TransactionAction))
    ensures
        steps(
            r,
            transaction_step(
                operation@,
                changes as int,
                files as int,
                state.view(),
                match outcome {
                    Ok(_) => None,
                    Err(error) => Some(error@),
                },
            ),
        ),
{
    match state {
        TransactionState::Changing(i) => match outcome {
            Err(error) => {
                let none: Vec<String> = Vec::new();
                assert(texts(none@) =~= Seq::empty());
                restore_next(operation, files, error, none)
            },
            Ok(_) => {
                if i < changes && i + 1 < changes {
                    (Some(TransactionState::Changing(i + 1)), TransactionAction::Change(i + 1))
                } else {
                    (Some(TransactionState::Checking), TransactionAction::Check)
                }
            },
        },
        TransactionState::Checking => match outcome {
            Err(error) => {
                let none: Vec<String> = Vec::new();
                assert(texts(none@) =~= Seq::empty());
                restore_next(operation, files, error, none)
            },
            Ok(_) => (None, TransactionAction::Done),
        },
        TransactionState::Restoring { place, error, failures } => {
            let mut failures = failures;
            if let Err(failure) = outcome {
                let ghost before = failures@;
                let ghost text = failure@;
                failures.push(failure);
                assert(texts(failures@) =~= texts(before).push(text));
            }
            restore_next(operation, place, error, failures)
        },
    }
}

/// What a transaction does from a state on, where its actions have these outcomes.
pub open spec fn run(
    operation: Seq<char>,
    changes: int,
    files: int,
    state: StateView,
    outcomes: spec_fn(ActionView) -> Option<Seq<char>>,
    action: ActionView,
    fuel: nat,
) -> Seq<ActionView>
    decreases fuel,
{
    let next = transaction_step(operation, changes, files, state, outcomes(action));
    match next.0 {
        None => seq![action, next.1],
        Some(after) => if fuel == 0 {
            seq![action]
        } else {
            seq![action] + run(operation, changes, files, after, outcomes, next.1, (fuel - 1) as nat)
        },
    }
}

/// The actions that put `left` files back, from the last to the first.
pub open spec fn restore_actions(left: int) -> Seq<ActionView> {
    Seq::new(left as nat, |i: int| ActionView::Restore(left - 1 - i))
}

/// What could not be put back of `left` files.
pub open spec fn restore_failures(left: int, outcomes: spec_fn(ActionView) -> Option<Seq<char>>) -> Seq<Seq<char>>
    decreases left,
{
    if left <= 0 {
        Seq::empty()
    } else {
        (match outcomes(ActionView::Restore(left - 1)) {
            Some(failure) => seq![failure],
            None => Seq::empty(),
        }) + restore_failures(left - 1, outcomes)
    }
}

proof fn restores_run(
    operation: Seq<char>,
    changes: int,
    files: int,
    place: int,
    error: Seq<char>,
    failures: Seq<Seq<char>>,
    outcomes: spec_fn(ActionView) -> Option<Seq<char>>,
    fuel: nat,
)
    requires
        0 <= place <= fuel,
    ensures
        run(
            operation,
            changes,
            files,
            (StateView::Restoring { place, error, failures }),
            outcomes,
            ActionView::Restore(place),
            fuel,
        ) == restore_actions(place + 1).push(
            ActionView::Failed(
                rollback_text(operation, error, failures + restore_failures(place + 1, outcomes)),
            ),
        ),
    decreases place,
{
    let outcome = outcomes(ActionView::Restore(place));
    let more = match outcome {
        Some(failure) => failures.push(failure),
        None => failures,
    };
    assert(failures + restore_failures(place + 1, outcomes) =~= more + restore_failures(place, outcomes));
    if place == 0 {
        assert(more + restore_failures(0, outcomes) =~= more);
        assert(restore_actions(1).push(ActionView::Failed(rollback_text(operation, error, more))) =~= seq![
            ActionView::Restore(0),
            ActionView::Failed(rollback_text(operation, error, more)),
        ]);
    } else {
        restores_run(operation, changes, files, place - 1, error, more, outcomes, (fuel - 1) as nat);
        let last = ActionView::Failed(
            rollback_text(operation, error, more + restore_failures(place, outcomes)),
        );
        assert(seq![ActionView::Restore(place)] + restore_actions(place).push(last) =~= restore_actions(
            place + 1,
        ).push(last));
    }
}

/// When a change or the check fails, every file is put back, the last one first, and the transaction fails
/// with that error and with whatever could not be put back.
pub proof fn a_failed_transaction_restores_every_file(
    operation: Seq<char>,
    changes: int,
    files: int,
    state: StateView,
    outcomes: spec_fn(ActionView) -> Option<Seq<char>>,
    action: ActionView,
    error: Seq<char>,
    fuel: nat,
)
    requires
        state is Changing || state is Checking,
        0 < files <= fuel,
        outcomes(action) == Some(error),
    ensures
        run(operation, changes, files, state, outcomes, action, fuel) == (seq![action] + restore_actions(files)).push(
            ActionView::Failed(rollback_text(operation, error, restore_failures(files, outcomes))),
        ),
{
    let last = ActionView::Failed(rollback_text(operation, error, restore_failures(files, outcomes)));
    restores_run(operation, changes, files, files - 1, error, Seq::empty(), outcomes, (fuel - 1) as nat);
    assert(Seq::empty() + restore_failures(files, outcomes) =~= restore_failures(files, outcomes));
    assert(seq![action] + restore_actions(files).push(last) =~= (seq![action] + restore_actions(files)).push(last));
}

/// The actions of a transaction in which nothing fails, from the change at place `i` on.
pub open spec fn change_actions(i: int, changes: int) -> Seq<ActionView> {
    Seq::new((changes - i) as nat, |j: int| ActionView::Change(i + j))
}

/// When nothing fails, every change is made, in order, and then checked.
pub proof fn a_transaction_makes_every_change(
    operation: Seq<char>,
    changes: int,
    files: int,
    i: int,
    outcomes: spec_fn(ActionView) -> Option<Seq<char>>,
    fuel: nat,
)
    requires
        0 <= i < changes,
        changes - i <= fuel,
        forall|action: ActionView| (#[trigger] outcomes(action)) is None,
    ensures
        run(operation, changes, files, StateView::Changing(i), outcomes, ActionView::Change(i), fuel)
            == change_actions(i, changes) + seq![ActionView::Check, ActionView::Done],
    decreases changes - i,
{
    assert(outcomes(ActionView::Change(i)) is None);
    let tail = seq![ActionView::Check, ActionView::Done];
    if i + 1 < changes {
        a_transaction_makes_every_change(operation, changes, files, i + 1, outcomes, (fuel - 1) as nat);
        assert(seq![ActionView::Change(i)] + (change_actions(i + 1, changes) + tail) =~= change_actions(i, changes)
            + tail);
    } else {
        assert(outcomes(ActionView::Check) is None);
        reveal_with_fuel(run, 2);
        assert(seq![ActionView::Change(i)] + tail =~= change_actions(i, changes) + tail);
    }
}

/// Files and what they hold.
pub type Files = Map<Seq<char>, Seq<u8>>;

/// The files with one put back as it was.
pub open spec fn put_back(now: Files, before: Files, path: Seq<char>) -> Files {
    if before.dom().contains(path) {
        now.insert(path, before[path])
    } else {
        now.remove(path)
    }
}

/// The files with the first `n` of `paths` put back as they were, the last one first.
pub open spec fn put_all_back(now: Files, before: Files, paths: Seq<Seq<char>>, n: int) -> Files
    decreases n,
{
    if n <= 0 {
        now
    } else {
        put_all_back(put_back(now, before, paths[n - 1]), before, paths, n - 1)
    }
}

/// Whether two states differ at most in the first `n` of `paths`.
pub open spec fn differ_only_in(a: Files, b: Files, paths: Seq<Seq<char>>, n: int) -> bool {
    forall|path: Seq<char>|
        (forall|i: int| 0 <= i < n ==> #[trigger] paths[i] != path) ==> #[trigger] a.dom().contains(path)
            == b.dom().contains(path) && (a.dom().contains(path) ==> a[path] == b[path])
}

/// Putting every file back that a transaction may have changed gives back what was there before it, whatever
/// of it was done.
pub proof fn restoring_gives_back_what_was_there(now: Files, before: Files, paths: Seq<Seq<char>>, n: int)
    requires
        0 <= n <= paths.len(),
        differ_only_in(now, before, paths, n),
    ensures
        put_all_back(now, before, paths, n) == before,
    decreases n,
{
    if n == 0 {
        assert forall|path: Seq<char>| now.dom().contains(path) == before.dom().contains(path) && (
        now.dom().contains(path) ==> now[path] == before[path]) by {
            assert(forall|i: int| 0 <= i < 0 ==> #[trigger] paths[i] != path);
        }
        assert(now =~= before);
    } else {
        let after = put_back(now, before, paths[n - 1]);
        assert forall|path: Seq<char>| (forall|i: int| 0 <= i < n - 1 ==> #[trigger] paths[i] != path) implies 
        #[trigger] after.dom().contains(path) == before.dom().contains(path) && (after.dom().contains(path)
            ==> after[path] == before[path]) by {
            if path != paths[n - 1] {
                assert(forall|i: int| 0 <= i < n ==> #[trigger] paths[i] != path);
                assert(now.dom().contains(path) == before.dom().contains(path));
            }
        }
        restoring_gives_back_what_was_there(after, before, paths, n - 1);
    }
}

} // verus!
