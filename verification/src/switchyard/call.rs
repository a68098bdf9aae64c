//! A routed call as a whole: what it does next, given what came of what it did last.

use crate::json::Json;
use crate::switchyard::config::{RoutingMode, SwitchyardConfig, WireProtocol};
use crate::switchyard::contract::{LlmRequest, RoutingDecision, RoutingRequest};
use crate::switchyard::decision::{contribution_is, max_attempts, RoutingContribution};
use crate::switchyard::failure::FlowError;
use crate::switchyard::marks::{error_mark, identity_json, identity_metadata, marks_view, retry_mark, Mark, MarkView};
use crate::switchyard::request::{labelled_protocol, unknown_label, SwitchyardRuntime};
use crate::switchyard::routing::{
    begin, failure_marks, DecisionStep, FallbackReason, FirstItem, Next, RoutingRun, Start, Step,
};
use crate::switchyard::stream::Watch;
use vstd::pervasive::unreached;
use vstd::prelude::*;
use vstd::string::*;

verus! {

/// A call on its way to the target that a decision names.
#[derive(Debug)]
pub struct RoutedCall {
    pub run: RoutingRun,
    pub request: RoutingRequest,
    pub decision: RoutingDecision,
    /// The protocol of the target.
    pub target: WireProtocol,
}

/// What a call waits for.
#[derive(Debug)]
pub enum CallState {
    /// A decision that is only recorded.
    Observing,
    /// The decision for an attempt.
    Deciding(RoutingRun),
    /// The provider's answer, or that its stream opens.
    Dispatching(RoutedCall),
    /// The translation of the provider's answer.
    Translating(RoutedCall),
    /// The first item of the provider's stream.
    Opening(RoutedCall),
}

/// What came of what a call waited for.
#[derive(Debug)]
pub enum CallEvent {
    Decided(Result<Decided, String>),
    /// The provider's answer to a call whose answer comes whole.
    Answered(Result<Json, FlowError>),
    /// Whether the provider's stream opened.
    Opened(Result<(), FlowError>),
    Translated(Result<Json, String>),
    First(FirstItem),
}

/// What a decision comes to: what was asked, what was decided, and the call as it goes to the target.
#[derive(Debug)]
pub struct Decided {
    pub request: RoutingRequest,
    pub decision: RoutingDecision,
    pub routed: LlmRequest,
}

/// A stream that a call is served with.
#[derive(Debug)]
pub struct ServedStream {
    /// The chunk that was read to open the stream, handed on before anything that follows it.
    pub first: Json,
    /// The protocol of the stream.
    pub target: WireProtocol,
    /// Whether its chunks are put into the protocol of the call.
    pub translate: bool,
    /// The model that the answer tells.
    pub model: String,
    /// How the stream is watched.
    pub watch: Watch,
}

/// What a call does next.
#[derive(Debug)]
pub enum CallAction {
    /// Asks for a decision, as the attempt that the state tells.
    Decide,
    /// Goes to the target of the decision, in this form.
    Dispatch(LlmRequest),
    /// Has the answer, which is in the protocol of the target, put into that of the call.
    Translate { target: WireProtocol, response: Json },
    /// Reads the first item of the stream.
    ReadFirst,
    /// Is served with this answer.
    Serve(Json),
    /// Is served with this stream.
    Stream(ServedStream),
    /// Is served by the trusted target.
    Trust(FallbackReason),
    /// Fails.
    Fail(FlowError),
}

/// Marks to leave and what routing changed, then what follows.
#[derive(Debug)]
pub struct CallStep {
    pub marks: Vec<Mark>,
    pub contribution: Option<RoutingContribution>,
    /// What the call waits for; nothing where it is at its end.
    pub state: Option<CallState>,
    pub action: CallAction,
}

impl CallState {
    /// Attempts are counted from one up to the limit.
    pub open spec fn valid(self) -> bool {
        match self {
            CallState::Observing => true,
            CallState::Deciding(run) => run.valid(),
            CallState::Dispatching(call) => call.run.valid(),
            CallState::Translating(call) => call.run.valid(),
            CallState::Opening(call) => call.run.valid(),
        }
    }

    /// Whether this is something that the state waits for.
    pub open spec fn awaits(self, streaming: bool, event: CallEvent) -> bool {
        match self {
            CallState::Observing => event is Decided,
            CallState::Deciding(_) => event is Decided,
            CallState::Dispatching(_) => if streaming {
                event is Opened
            } else {
                event is Answered
            },
            CallState::Translating(_) => event is Translated,
            CallState::Opening(_) => event is First,
        }
    }

    /// How many steps a call in this state can still take.
    pub open spec fn steps_left(self) -> int {
        match self {
            CallState::Observing => 1,
            CallState::Deciding(run) => 3 * (run.max_attempts - run.attempt) + 3,
            CallState::Dispatching(call) => 3 * (call.run.max_attempts - call.run.attempt) + 2,
            CallState::Translating(call) => 3 * (call.run.max_attempts - call.run.attempt) + 1,
            CallState::Opening(call) => 3 * (call.run.max_attempts - call.run.attempt) + 1,
        }
    }
}

/// Whether a step leaves these marks and says nothing of what routing changed.
pub open spec fn only_marks(r: CallStep, marks: Seq<MarkView>) -> bool {
    marks_view(r.marks@) == marks && r.contribution is None
}

/// Whether a step is the last one: the call ends with what the step does.
pub open spec fn ends_with(r: CallStep, action: CallAction) -> bool {
    r.state is None && r.action == action
}

/// Whether a step begins another attempt, after the one of `call` failed for `reason`.
pub open spec fn tries_again(r: CallStep, call: RoutedCall, reason: Seq<char>) -> bool {
    &&& r.action is Decide
    &&& r.state is Some
    &&& r.state->Some_0 is Deciding
    &&& r.state->Some_0->Deciding_0.valid()
    &&& call.run.followed_by(r.state->Some_0->Deciding_0, call.decision.route.backend_id@, reason)
}

/// Whether a step is what follows on a provider's failure.
pub open spec fn follows_failure(
    mode: RoutingMode,
    r: CallStep,
    call: RoutedCall,
    class: Seq<char>,
    error: FlowError,
) -> bool {
    &&& only_marks(r, failure_marks(mode, call.run, call.request, call.decision, class, error))
    &&& if !error.retryable() {
        ends_with(r, CallAction::Trust(FallbackReason::NonRetryableProviderError))
    } else if call.run.attempt < call.run.max_attempts {
        tries_again(r, call, error.summary_text())
    } else {
        ends_with(r, CallAction::Trust(FallbackReason::RetryExhausted))
    }
}

/// Whether a step is what follows on the decision for an attempt.
pub open spec fn follows_decision(
    mode: RoutingMode,
    r: CallStep,
    run: RoutingRun,
    decided: Result<Decided, String>,
) -> bool {
    match decided {
        Err(error) => {
            &&& only_marks(r, seq![error_mark(mode, None, run.attempt, "decision_api"@, error@)])
            &&& ends_with(r, CallAction::Trust(FallbackReason::DecisionError))
        },
        Ok(decided) => {
            &&& only_marks(r, Seq::empty())
            &&& match labelled_protocol(decided.decision.route.target_protocol_profile@) {
                Some(target) => {
                    &&& r.action == CallAction::Dispatch(decided.routed)
                    &&& r.state == Some(
                        CallState::Dispatching(
                            RoutedCall { run, request: decided.request, decision: decided.decision, target },
                        ),
                    )
                },
                None => {
                    &&& r.state is None
                    &&& r.action is Fail
                    &&& unknown_label(r.action->Fail_0, decided.decision.route.target_protocol_profile@)
                },
            }
        },
    }
}

/// Whether a step is the last one, and says what routing changed.
pub open spec fn commits(config: SwitchyardConfig, r: CallStep, call: RoutedCall) -> bool {
    &&& r.state is None
    &&& r.marks@.len() == 0
    &&& contribution_is(r.contribution, config, call.decision, call.run.attempt, true)
}

/// Whether this is the stream that a call is served with, where `first` was read to open it.
pub open spec fn is_served(stream: ServedStream, mode: RoutingMode, call: RoutedCall, first: Json) -> bool {
    &&& stream.first == first
    &&& stream.target == call.target
    &&& stream.translate == (call.target != call.run.inbound)
    &&& stream.model@ == call.decision.route.target_model@
    &&& stream.watch.phase@ == "provider_stream_committed"@
    &&& stream.watch.mode == mode
    &&& stream.watch.metadata@ == identity_json(call.request.identity)
}

/// Whether a step is what follows, in this state, on this event.
pub open spec fn call_follows(
    config: SwitchyardConfig,
    streaming: bool,
    state: CallState,
    event: CallEvent,
    r: CallStep,
) -> bool {
    match state {
        CallState::Observing => {
            &&& ends_with(r, CallAction::Trust(FallbackReason::ObserveOnly))
            &&& match event->Decided_0 {
                Ok(decided) => r.marks@.len() == 0 && contribution_is(
                    r.contribution,
                    config,
                    decided.decision,
                    1,
                    false,
                ),
                Err(error) => only_marks(r, seq![error_mark(config.mode, None, 1, "decision_api"@, error@)]),
            }
        },
        CallState::Deciding(run) => follows_decision(config.mode, r, run, event->Decided_0),
        CallState::Dispatching(call) => if streaming {
            match event->Opened_0 {
                Err(error) => follows_failure(config.mode, r, call, "provider_stream_setup"@, error),
                Ok(_) => only_marks(r, Seq::empty()) && r.action is ReadFirst && r.state == Some(
                    CallState::Opening(call),
                ),
            }
        } else {
            match event->Answered_0 {
                Err(error) => follows_failure(config.mode, r, call, "provider"@, error),
                Ok(response) => only_marks(r, Seq::empty()) && r.action == (CallAction::Translate {
                    target: call.target,
                    response,
                }) && r.state == Some(CallState::Translating(call)),
            }
        },
        CallState::Translating(call) => match event->Translated_0 {
            Ok(answer) => commits(config, r, call) && r.action == CallAction::Serve(answer),
            Err(error) => {
                &&& only_marks(
                    r,
                    seq![
                        error_mark(
                            config.mode,
                            Some(call.request),
                            call.run.attempt,
                            "response_translation"@,
                            error@,
                        ),
                    ],
                )
                &&& ends_with(r, CallAction::Trust(FallbackReason::TranslationError))
            },
        },
        CallState::Opening(call) => match event->First_0 {
            FirstItem::Chunk(first) => commits(config, r, call) && r.action is Stream && is_served(
                r.action->Stream_0,
                config.mode,
                call,
                first,
            ),
            FirstItem::Failed(error) => follows_failure(config.mode, r, call, "provider_stream_open"@, error),
            FirstItem::Ended => if call.run.attempt < call.run.max_attempts {
                &&& only_marks(
                    r,
                    seq![retry_mark(config.mode, call.request, call.decision, call.run.attempt, "empty_stream"@)],
                )
                &&& tries_again(r, call, "empty_stream"@)
            } else {
                only_marks(r, Seq::empty()) && ends_with(r, CallAction::Trust(FallbackReason::EmptyStream))
            },
        },
    }
}

/// Whether a step is the first one of a routed call.
pub open spec fn call_begins(
    config: SwitchyardConfig,
    inbound: WireProtocol,
    portable: Result<(), String>,
    r: CallStep,
) -> bool {
    match portable {
        Err(error) => {
            &&& only_marks(r, seq![error_mark(config.mode, None, 0, "unsupported_provider_extension"@, error@)])
            &&& ends_with(r, CallAction::Trust(FallbackReason::UnsupportedProviderExtension))
        },
        Ok(_) => {
            &&& only_marks(r, Seq::empty())
            &&& r.action is Decide
            &&& match config.mode {
                RoutingMode::ObserveOnly => r.state == Some(CallState::Observing),
                RoutingMode::Enforce => r.state == Some(
                    CallState::Deciding(
                        RoutingRun { inbound, attempt: 1, max_attempts: max_attempts(config), previous: None },
                    ),
                ),
            }
        },
    }
}

fn last_step(marks: Vec<Mark>, contribution: Option<RoutingContribution>, action: CallAction) -> (r: CallStep)
    ensures
        r.marks == marks,
        r.contribution == contribution,
        ends_with(r, action),
{
    CallStep { marks, contribution, state: None, action }
}

fn next_step(state: CallState, action: CallAction) -> (r: CallStep)
    ensures
        only_marks(r, Seq::empty()),
        r.state == Some(state),
        r.action == action,
{
    let marks: Vec<Mark> = Vec::new();
    assert(marks_view(marks@) =~= Seq::empty());
    CallStep { marks, contribution: None, state: Some(state), action }
}

/// A step that does not go on with the attempt: another one begins, or the trusted target serves the call.
fn turned_back(step: Step) -> (r: CallStep)
    requires
        !(step.next is Proceed),
    ensures
        r.marks == step.marks,
        r.contribution is None,
        match step.next {
            Next::Proceed => false,
            Next::Retry(run) => r.action is Decide && r.state == Some(CallState::Deciding(run)),
            Next::Fallback(reason) => ends_with(r, CallAction::Trust(reason)),
        },
{
    let Step { marks, next } = step;
    match next {
        Next::Retry(run) => CallStep {
            marks,
            contribution: None,
            state: Some(CallState::Deciding(run)),
            action: CallAction::Decide,
        },
        Next::Fallback(reason) => last_step(marks, None, CallAction::Trust(reason)),
        Next::Proceed => unreached(),
    }
}

impl SwitchyardRuntime {
    /// Begins a routed call. `portable` says whether it can be translated at all.
    pub fn begin_call(&self, inbound: WireProtocol, portable: &Result<(), String>) -> (r: CallStep)
        ensures
            call_begins(self.config, inbound, *portable, r),
            r.state matches Some(state) ==> state.valid(),
    {
        match begin(&self.config, inbound, portable) {
            Start::Reject(mark) => {
                let ghost told = mark.view();
                let marks: Vec<Mark> = vec![mark];
                assert(marks_view(marks@) =~= seq![told]);
                last_step(marks, None, CallAction::Trust(FallbackReason::UnsupportedProviderExtension))
            },
            Start::Observe => next_step(CallState::Observing, CallAction::Decide),
            Start::Route(run) => next_step(CallState::Deciding(run), CallAction::Decide),
        }
    }

    fn after_observed(&self, decided: Result<Decided, String>) -> (r: CallStep)
        ensures
            call_follows(self.config, false, CallState::Observing, CallEvent::Decided(decided), r),
            call_follows(self.config, true, CallState::Observing, CallEvent::Decided(decided), r),
    {
        let outcome: Result<RoutingDecision, String> = match decided {
            Ok(decided) => Ok(decided.decision),
            Err(error) => Err(error),
        };
        let (mark, contribution) = self.after_observation(&outcome);
        let mut marks: Vec<Mark> = Vec::new();
        assert(marks_view(marks@) =~= Seq::empty());
        if let Some(mark) = mark {
            let ghost told = mark.view();
            marks.push(mark);
            assert(marks_view(marks@) =~= seq![told]);
        }
        last_step(marks, contribution, CallAction::Trust(FallbackReason::ObserveOnly))
    }

    fn after_decided(&self, run: RoutingRun, decided: Result<Decided, String>) -> (r: CallStep)
        requires
            run.valid(),
        ensures
            follows_decision(self.config.mode, r, run, decided),
    {
        match decided {
            Err(error) => {
                let outcome: Result<RoutingDecision, String> = Err(error);
                let mut marks: Vec<Mark> = Vec::new();
                if let DecisionStep::Fallback(mark) = self.after_decision(&run, &outcome) {
                    let ghost told = mark.view();
                    marks.push(mark);
                    assert(marks_view(marks@) =~= seq![told]);
                }
                last_step(marks, None, CallAction::Trust(FallbackReason::DecisionError))
            },
            Ok(decided) => {
                let Decided { request, decision, routed } = decided;
                let outcome: Result<RoutingDecision, String> = Ok(decision);
                let step = self.after_decision(&run, &outcome);
                match (step, outcome) {
                    (DecisionStep::Dispatch(target), Ok(decision)) => next_step(
                        CallState::Dispatching(RoutedCall { run, request, decision, target }),
                        CallAction::Dispatch(routed),
                    ),
                    (DecisionStep::Fail(error), _) => {
                        let marks: Vec<Mark> = Vec::new();
                        assert(marks_view(marks@) =~= Seq::empty());
                        last_step(marks, None, CallAction::Fail(error))
                    },
                    _ => unreached(),
                }
            },
        }
    }

    fn after_answered(&self, call: RoutedCall, answered: Result<Json, FlowError>) -> (r: CallStep)
        requires
            call.run.valid(),
        ensures
            call_follows(self.config, false, CallState::Dispatching(call), CallEvent::Answered(answered), r),
    {
        match answered {
            Ok(response) => {
                let target = call.target;
                next_step(CallState::Translating(call), CallAction::Translate { target, response })
            },
            Err(error) => {
                let failed: Result<(), FlowError> = Err(error);
                turned_back(self.after_response(&call.run, &call.request, &call.decision, &failed))
            },
        }
    }

    fn after_opened(&self, call: RoutedCall, opened: Result<(), FlowError>) -> (r: CallStep)
        requires
            call.run.valid(),
        ensures
            call_follows(self.config, true, CallState::Dispatching(call), CallEvent::Opened(opened), r),
    {
        let step = self.after_stream_setup(&call.run, &call.request, &call.decision, &opened);
        if let Next::Proceed = step.next {
            return next_step(CallState::Opening(call), CallAction::ReadFirst);
        }
        turned_back(step)
    }

    fn after_translated(&self, call: RoutedCall, translated: Result<Json, String>) -> (r: CallStep)
        requires
            call.run.valid(),
        ensures
            call_follows(self.config, false, CallState::Translating(call), CallEvent::Translated(translated), r),
            call_follows(self.config, true, CallState::Translating(call), CallEvent::Translated(translated), r),
    {
        match translated {
            Ok(answer) => {
                let (step, contribution) = self.after_translation(&call.run, &call.request, &call.decision, &Ok(()));
                last_step(step.marks, contribution, CallAction::Serve(answer))
            },
            Err(error) => {
                let failed: Result<(), String> = Err(error);
                let (step, _) = self.after_translation(&call.run, &call.request, &call.decision, &failed);
                turned_back(step)
            },
        }
    }

    fn after_first(&self, call: RoutedCall, first: FirstItem) -> (r: CallStep)
        requires
            call.run.valid(),
        ensures
            call_follows(self.config, false, CallState::Opening(call), CallEvent::First(first), r),
            call_follows(self.config, true, CallState::Opening(call), CallEvent::First(first), r),
    {
        let (step, contribution) = self.after_first_item(&call.run, &call.request, &call.decision, &first);
        match first {
            FirstItem::Chunk(first) => {
                let stream = ServedStream {
                    first,
                    target: call.target,
                    translate: call.target != call.run.inbound,
                    model: call.decision.route.target_model.clone(),
                    watch: Watch {
                        phase: "provider_stream_committed",
                        mode: self.config.mode,
                        metadata: identity_metadata(&call.request),
                    },
                };
                last_step(step.marks, contribution, CallAction::Stream(stream))
            },
            _ => turned_back(step),
        }
    }

    /// What a call does next, given what came of what it did last.
    pub fn advance_call(&self, streaming: bool, state: CallState, event: CallEvent) -> (r: CallStep)
        requires
            state.valid(),
            state.awaits(streaming, event),
        ensures
            call_follows(self.config, streaming, state, event, r),
    {
        match (state, event) {
            (CallState::Observing, CallEvent::Decided(decided)) => self.after_observed(decided),
            (CallState::Deciding(run), CallEvent::Decided(decided)) => self.after_decided(run, decided),
            (CallState::Dispatching(call), CallEvent::Answered(answered)) => self.after_answered(call, answered),
            (CallState::Dispatching(call), CallEvent::Opened(opened)) => self.after_opened(call, opened),
            (CallState::Translating(call), CallEvent::Translated(translated)) => self.after_translated(
                call,
                translated,
            ),
            (CallState::Opening(call), CallEvent::First(first)) => self.after_first(call, first),
            _ => unreached(),
        }
    }
}

/// Every step brings a call nearer its end: what it waits for next is valid again, and fewer steps are left. At
/// its end the call is served, by a target or by the trusted one, and fails of itself only where a decision
/// names a protocol that is not known.
pub proof fn every_step_comes_nearer_the_end(
    config: SwitchyardConfig,
    streaming: bool,
    state: CallState,
    event: CallEvent,
    r: CallStep,
)
    requires
        state.valid(),
        state.awaits(streaming, event),
        call_follows(config, streaming, state, event, r),
    ensures
        match r.state {
            Some(next) => next.valid() && 0 < next.steps_left() < state.steps_left(),
            None => {
                ||| r.action is Serve
                ||| r.action is Stream
                ||| r.action is Trust
                ||| r.action is Fail && state is Deciding && event->Decided_0 is Ok && labelled_protocol(
                    event->Decided_0->Ok_0.decision.route.target_protocol_profile@,
                ) is None
            },
        },
{
}

/// A step that a call took: from what it waited for, by what came of that.
pub struct CallMove {
    pub state: CallState,
    pub event: CallEvent,
    pub step: CallStep,
}

/// Whether a call can take these steps one after the other.
pub open spec fn is_course(config: SwitchyardConfig, streaming: bool, moves: Seq<CallMove>) -> bool {
    &&& forall|i: int|
        #![trigger moves[i]]
        0 <= i < moves.len() ==> moves[i].state.awaits(streaming, moves[i].event) && call_follows(
            config,
            streaming,
            moves[i].state,
            moves[i].event,
            moves[i].step,
        )
    &&& forall|i: int, j: int|
        #![trigger moves[i], moves[j]]
        0 <= i && j == i + 1 && j < moves.len() ==> moves[i].step.state == Some(moves[j].state)
}

proof fn courses_are_short(config: SwitchyardConfig, streaming: bool, moves: Seq<CallMove>)
    requires
        moves.len() > 0,
        moves[0].state.valid(),
        is_course(config, streaming, moves),
    ensures
        moves.len() <= moves[0].state.steps_left(),
    decreases moves.len(),
{
    let first = moves[0];
    if moves.len() > 1 {
        let rest = moves.subrange(1, moves.len() as int);
        assert(first.step.state == Some(moves[1].state));
        every_step_comes_nearer_the_end(config, streaming, first.state, first.event, first.step);
        assert forall|i: int| #![trigger rest[i]] 0 <= i < rest.len() implies rest[i].state.awaits(streaming, rest[i].event)
            && call_follows(config, streaming, rest[i].state, rest[i].event, rest[i].step) by {
            assert(rest[i] == moves[i + 1]);
        }
        assert forall|i: int, j: int|
            #![trigger rest[i], rest[j]]
            0 <= i && j == i + 1 && j < rest.len() implies rest[i].step.state == Some(rest[j].state) by {
            assert(moves[i + 1].step.state == Some(moves[j + 1].state));
        }
        courses_are_short(config, streaming, rest);
    }
}

/// Every routed call comes to its end, whatever the service and the providers answer: a call takes at most three
/// steps for each attempt that its configuration allows.
pub proof fn every_course_ends(
    config: SwitchyardConfig,
    streaming: bool,
    inbound: WireProtocol,
    portable: Result<(), String>,
    begun: CallStep,
    moves: Seq<CallMove>,
)
    requires
        call_begins(config, inbound, portable, begun),
        moves.len() > 0,
        begun.state == Some(moves[0].state),
        is_course(config, streaming, moves),
    ensures
        moves.len() <= 3 * max_attempts(config),
{
    courses_are_short(config, streaming, moves);
}

/// What routing changed is recorded exactly where the answer of a routed target is served, or a decision was
/// only observed: never where the trusted target takes a call that was to be routed.
pub proof fn only_served_decisions_count(
    config: SwitchyardConfig,
    streaming: bool,
    state: CallState,
    event: CallEvent,
    r: CallStep,
)
    requires
        state.valid(),
        state.awaits(streaming, event),
        call_follows(config, streaming, state, event, r),
    ensures
        r.contribution is Some ==> r.action is Serve || r.action is Stream || state is Observing,
        r.contribution is Some ==> (r.contribution->Some_0.applied <==> r.action is Serve || r.action is Stream),
{
}

} // verus!
