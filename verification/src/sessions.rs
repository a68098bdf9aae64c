//! Sweeping idle sessions.
//!
//! An idle session is taken out of the table, its turn is closed, and what is left of it goes back, unless
//! another session has taken its place meanwhile.

use crate::text::{any_text, texts};
use vstd::prelude::*;
use vstd::string::*;

verus! {

/// How long an agent's session may be idle, in seconds.
pub const AGENT_IDLE_TIMEOUT_SECONDS: u64 = 30;

/// The pause between two sweeps, in seconds.
pub const AGENT_IDLE_SWEEP_INTERVAL_SECONDS: u64 = 5;

/// What came of closing the turn of an idle session.
pub struct ClosedTurn<E> {
    pub session_id: String,
    /// The subagents that ended with the turn, or why the turn could not be closed.
    pub result: Result<Vec<String>, E>,
    /// Whether nothing is left of the session.
    pub empty: bool,
}

/// How many of the first `n` turns were closed.
pub open spec fn closed_count<E>(turns: Seq<ClosedTurn<E>>, n: int) -> int
    decreases n,
{
    if n <= 0 {
        0
    } else {
        closed_count(turns, n - 1) + (if turns[n - 1].result is Ok {
            1int
        } else {
            0
        })
    }
}

/// The subagents of a session, each with its session.
pub open spec fn with_session(session_id: Seq<char>, subagents: Seq<Seq<char>>) -> Seq<(Seq<char>, Seq<char>)> {
    Seq::new(subagents.len(), |i: int| (session_id, subagents[i]))
}

/// The subagents that ended with the first `n` turns.
pub open spec fn ended_subagents<E>(turns: Seq<ClosedTurn<E>>, n: int) -> Seq<(Seq<char>, Seq<char>)>
    decreases n,
{
    if n <= 0 {
        Seq::empty()
    } else {
        ended_subagents(turns, n - 1) + (match turns[n - 1].result {
            Ok(subagents) => with_session(turns[n - 1].session_id@, texts(subagents@)),
            Err(_) => Seq::empty(),
        })
    }
}

/// The sessions among the first `n` of which something is left.
pub open spec fn left_sessions<E>(turns: Seq<ClosedTurn<E>>, n: int) -> Seq<Seq<char>>
    decreases n,
{
    if n <= 0 {
        Seq::empty()
    } else if turns[n - 1].empty {
        left_sessions(turns, n - 1)
    } else {
        left_sessions(turns, n - 1).push(turns[n - 1].session_id@)
    }
}

/// The first error from place `from` on.
pub open spec fn first_turn_error<E>(turns: Seq<ClosedTurn<E>>, from: int) -> Option<E>
    decreases turns.len() - from,
{
    if from >= turns.len() {
        None
    } else {
        match turns[from].result {
            Err(error) => Some(error),
            Ok(_) => first_turn_error(turns, from + 1),
        }
    }
}

/// What pairs of texts hold.
pub open spec fn pairs_of(pairs: Seq<(String, String)>) -> Seq<(Seq<char>, Seq<char>)> {
    Seq::new(pairs.len(), |i: int| (pairs[i].0@, pairs[i].1@))
}

/// What a sweep came to.
pub struct Sweep<E> {
    pub closed_turns: usize,
    /// The subagents that ended, each with its session.
    pub closed_subagents: Vec<(String, String)>,
    /// The sessions of which something is left.
    pub retained: Vec<String>,
    pub first_error: Option<E>,
}

proof fn closed_count_bound<E>(turns: Seq<ClosedTurn<E>>, n: int)
    requires
        0 <= n,
    ensures
        0 <= closed_count(turns, n) <= n,
    decreases n,
{
    if n > 0 {
        closed_count_bound(turns, n - 1);
    }
}

fn push_subagents(pairs: &mut Vec<(String, String)>, session_id: &str, subagents: &Vec<String>)
    ensures
        pairs_of(final(pairs)@) == pairs_of(old(pairs)@) + with_session(session_id@, texts(subagents@)),
{
    let ghost before = pairs_of(pairs@);
    let ghost more = with_session(session_id@, texts(subagents@));
    let mut i: usize = 0;
    assert(before + more.take(0) =~= before);
    while i < subagents.len()
        invariant
            i <= subagents.len(),
            more == with_session(session_id@, texts(subagents@)),
            pairs_of(pairs@) == before + more.take(i as int),
        decreases subagents.len() - i,
    {
        let ghost own = pairs@;
        pairs.push((session_id.to_owned(), subagents[i].clone()));
        assert(pairs_of(pairs@) =~= pairs_of(own).push(more[i as int]));
        assert(before + more.take(i + 1) =~= (before + more.take(i as int)).push(more[i as int]));
        i += 1;
    }
    assert(more.take(i as int) =~= more);
}

/// What a sweep came to, from what came of each idle session.
pub fn summarize_sweep<E>(turns: Vec<ClosedTurn<E>>) -> (r: Sweep<E>)
    ensures
        r.closed_turns == closed_count(turns@, turns@.len() as int),
        pairs_of(r.closed_subagents@) == ended_subagents(turns@, turns@.len() as int),
        texts(r.retained@) == left_sessions(turns@, turns@.len() as int),
        r.first_error == first_turn_error(turns@, 0),
{
    let ghost all = turns@;
    let mut closed_turns: usize = 0;
    let mut closed_subagents: Vec<(String, String)> = Vec::new();
    let mut retained: Vec<String> = Vec::new();
    let mut failed: Option<usize> = None;
    assert(pairs_of(closed_subagents@) =~= Seq::empty());
    assert(texts(retained@) =~= Seq::empty());
    let mut i: usize = 0;
    while i < turns.len()
        invariant
            i <= turns.len(),
            all == turns@,
            closed_turns <= i,
            closed_turns == closed_count(all, i as int),
            pairs_of(closed_subagents@) == ended_subagents(all, i as int),
            texts(retained@) == left_sessions(all, i as int),
            match failed {
                Some(k) => k < all.len() && all[k as int].result is Err && first_turn_error(all, 0) == Some(
                    all[k as int].result->Err_0,
                ),
                None => first_turn_error(all, 0) == first_turn_error(all, i as int),
            },
        decreases turns.len() - i,
    {
        proof {
            closed_count_bound(all, i + 1);
        }
        let session_id = turns[i].session_id.as_str();
        match &turns[i].result {
            Ok(subagents) => {
                closed_turns += 1;
                push_subagents(&mut closed_subagents, session_id, subagents);
            },
            Err(_) => {
                assert(pairs_of(closed_subagents@) + Seq::empty() =~= pairs_of(closed_subagents@));
                if failed.is_none() {
                    failed = Some(i);
                }
            },
        }
        if !turns[i].empty {
            let ghost own = retained@;
            retained.push(session_id.to_owned());
            assert(texts(retained@) =~= texts(own).push(session_id@));
        }
        i += 1;
    }
    let mut turns = turns;
    let first_error: Option<E> = match failed {
        Some(k) => match turns.remove(k).result {
            Err(error) => Some(error),
            Ok(_) => None,
        },
        None => None,
    };
    Sweep { closed_turns, closed_subagents, retained, first_error }
}

/// The texts among the first `n` that are not among others.
pub open spec fn not_among(list: Seq<Seq<char>>, others: Seq<Seq<char>>, n: int) -> Seq<Seq<char>>
    decreases n,
{
    if n <= 0 {
        Seq::empty()
    } else if others.contains(list[n - 1]) {
        not_among(list, others, n - 1)
    } else {
        not_among(list, others, n - 1).push(list[n - 1])
    }
}

/// The sessions that go back into the table: those whose place is free. `present` holds the sessions that are
/// in the table by now.
pub fn sessions_to_restore(retained: &Vec<String>, present: &Vec<String>) -> (r: Vec<String>)
    ensures
        texts(r@) == not_among(texts(retained@), texts(present@), retained@.len() as int),
{
    let ghost all = texts(retained@);
    let ghost others = texts(present@);
    let mut r: Vec<String> = Vec::new();
    let mut i: usize = 0;
    assert(texts(r@) =~= Seq::empty());
    while i < retained.len()
        invariant
            i <= retained.len(),
            all == texts(retained@),
            others == texts(present@),
            texts(r@) == not_among(all, others, i as int),
        decreases retained.len() - i,
    {
        assert(all[i as int] == retained@[i as int]@);
        if !any_text(present, retained[i].as_str()) {
            let ghost before = r@;
            r.push(retained[i].clone());
            assert(texts(r@) =~= texts(before).push(all[i as int]));
        }
        i += 1;
    }
    r
}

/// The subagents among the first `n` whose session's place was not taken by another.
pub open spec fn to_clear(
    subagents: Seq<(Seq<char>, Seq<char>)>,
    restored: Seq<Seq<char>>,
    present: Seq<Seq<char>>,
    n: int,
) -> Seq<(Seq<char>, Seq<char>)>
    decreases n,
{
    if n <= 0 {
        Seq::empty()
    } else if restored.contains(subagents[n - 1].0) || !present.contains(subagents[n - 1].0) {
        to_clear(subagents, restored, present, n - 1).push(subagents[n - 1])
    } else {
        to_clear(subagents, restored, present, n - 1)
    }
}

/// The subagents whose traces in the alignment are cleared: those of a session that went back into the table,
/// or that is in it no more. Where another session took the place, its traces stay.
pub fn subagents_to_clear(
    closed_subagents: &Vec<(String, String)>,
    restored: &Vec<String>,
    present: &Vec<String>,
) -> (r: Vec<(String, String)>)
    ensures
        pairs_of(r@) == to_clear(
            pairs_of(closed_subagents@),
            texts(restored@),
            texts(present@),
            closed_subagents@.len() as int,
        ),
{
    let ghost all = pairs_of(closed_subagents@);
    let mut r: Vec<(String, String)> = Vec::new();
    let mut i: usize = 0;
    assert(pairs_of(r@) =~= Seq::empty());
    while i < closed_subagents.len()
        invariant
            i <= closed_subagents.len(),
            all == pairs_of(closed_subagents@),
            pairs_of(r@) == to_clear(all, texts(restored@), texts(present@), i as int),
        decreases closed_subagents.len() - i,
    {
        let session_id = closed_subagents[i].0.as_str();
        assert(all[i as int].0 == session_id@);
        if any_text(restored, session_id) || !any_text(present, session_id) {
            let ghost before = r@;
            r.push((closed_subagents[i].0.clone(), closed_subagents[i].1.clone()));
            assert(pairs_of(r@) =~= pairs_of(before).push(all[i as int]));
        }
        i += 1;
    }
    r
}

proof fn restored_were_not_present(list: Seq<Seq<char>>, others: Seq<Seq<char>>, n: int, s: Seq<char>)
    requires
        0 <= n <= list.len(),
    ensures
        not_among(list, others, n).contains(s) ==> !others.contains(s),
    decreases n,
{
    if n > 0 {
        restored_were_not_present(list, others, n - 1, s);
        let before = not_among(list, others, n - 1);
        let now = not_among(list, others, n);
        if now.contains(s) && !before.contains(s) {
            let i = choose|i: int| 0 <= i < now.len() && #[trigger] now[i] == s;
            if i < before.len() {
                assert(before[i] == s);
            }
        }
    }
}

/// A subagent's traces are cleared exactly where no other session has taken the place of its session.
pub proof fn traces_go_unless_the_place_was_taken(
    subagents: Seq<(Seq<char>, Seq<char>)>,
    retained: Seq<Seq<char>>,
    present: Seq<Seq<char>>,
    n: int,
)
    requires
        0 <= n <= subagents.len(),
    ensures
        ({
            let restored = not_among(retained, present, retained.len() as int);
            to_clear(subagents, restored, present, n) == subagents.take(n).filter(
                |pair: (Seq<char>, Seq<char>)| !present.contains(pair.0),
            )
        }),
    decreases n,
{
    let restored = not_among(retained, present, retained.len() as int);
    let free = |pair: (Seq<char>, Seq<char>)| !present.contains(pair.0);
    reveal(Seq::filter);
    if n > 0 {
        traces_go_unless_the_place_was_taken(subagents, retained, present, n - 1);
        restored_were_not_present(retained, present, retained.len() as int, subagents[n - 1].0);
        assert(subagents.take(n).drop_last() =~= subagents.take(n - 1));
        assert(subagents.take(n).last() == subagents[n - 1]);
    } else {
        assert(subagents.take(0).filter(free) =~= Seq::empty());
    }
}

/// What a sweep answers: how many turns it closed, or the first error.
pub fn sweep_result<E>(closed_turns: usize, first_error: Option<E>) -> (r: Result<usize, E>)
    ensures
        r == (match first_error {
            Some(error) => Err::<usize, E>(error),
            None => Ok::<usize, E>(closed_turns),
        }),
{
    match first_error {
        Some(error) => Err(error),
        None => Ok(closed_turns),
    }
}

/// The first error, after one more outcome.
pub open spec fn after_closing<E>(first_error: Option<E>, outcome: Result<(), E>) -> Option<E> {
    match first_error {
        Some(error) => Some(error),
        None => match outcome {
            Err(error) => Some(error),
            Ok(_) => None,
        },
    }
}

/// What the first `n` outcomes come to.
pub open spec fn closing_all<E>(outcomes: Seq<Result<(), E>>, n: int) -> Option<E>
    decreases n,
{
    if n <= 0 {
        None
    } else {
        after_closing(closing_all(outcomes, n - 1), outcomes[n - 1])
    }
}

/// A shutdown answers the error of the first session that could not be closed, and succeeds where every
/// session could.
pub proof fn the_first_failure_tells<E>(outcomes: Seq<Result<(), E>>, n: int)
    requires
        0 <= n <= outcomes.len(),
    ensures
        match closing_all(outcomes, n) {
            Some(error) => exists|i: int|
                0 <= i < n && #[trigger] outcomes[i] == Err::<(), E>(error) && forall|j: int|
                    0 <= j < i ==> (#[trigger] outcomes[j]) is Ok,
            None => forall|j: int| 0 <= j < n ==> (#[trigger] outcomes[j]) is Ok,
        },
    decreases n,
{
    if n > 0 {
        the_first_failure_tells(outcomes, n - 1);
        if closing_all(outcomes, n - 1) is None && outcomes[n - 1] is Err {
            assert(outcomes[n - 1] == Err::<(), E>(outcomes[n - 1]->Err_0));
        }
    }
}

/// What closing every session for a shutdown comes to: one failure does not keep the others open, and the
/// first one tells.
pub struct ShutdownOutcome<E> {
    pub first_error: Option<E>,
}

impl<E> ShutdownOutcome<E> {
    pub fn new() -> (r: Self)
        ensures
            r.first_error is None,
    {
        ShutdownOutcome { first_error: None }
    }

    /// Counts what came of closing the next session.
    pub fn closed(&mut self, outcome: Result<(), E>)
        ensures
            final(self).first_error == after_closing(old(self).first_error, outcome),
    {
        if let Err(error) = outcome {
            if self.first_error.is_none() {
                self.first_error = Some(error);
            }
        }
    }

    /// What the shutdown answers.
    pub fn finish(self) -> (r: Result<(), E>)
        ensures
            match self.first_error {
                Some(error) => r == Err::<(), E>(error),
                None => r is Ok,
            },
    {
        match self.first_error {
            Some(error) => Err(error),
            None => Ok(()),
        }
    }
}

} // verus!
