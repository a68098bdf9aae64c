//! The course of a routed call: attempts, retries and the trusted fallback.

use crate::json::{Json, JsonView, Members};
use crate::ordered::has_key;
use crate::switchyard::config::{RoutingMode, SwitchyardConfig, WireProtocol};
use crate::switchyard::contract::{LlmRequest, RoutingDecision, RoutingRequest};
use crate::switchyard::decision::{attempt_limit, contribution_is, max_attempts, RoutingContribution};
use crate::switchyard::failure::{error_is_retryable, provider_error_summary, FlowError};
use crate::switchyard::marks::{
    call_identity_json, error_mark, fallback_mark, identity_metadata_from_request, mark_error, mark_fallback,
    mark_retry, mark_terminal_error, marks_view, retry_mark, terminal_mark, Mark, MarkView,
};
use crate::switchyard::request::{
    call_protocol, labelled_protocol, protocol_from_label, routed_call, unknown_label, SwitchyardRuntime, Translated,
};
use crate::switchyard::stream::Watch;
use crate::text::debug_text;
use vstd::prelude::*;
use vstd::string::*;

verus! {

/// Why the trusted target serves a call.
#[derive(Clone, Copy, Debug, PartialEq, Eq, Structural)]
pub enum FallbackReason {
    UnsupportedProviderExtension,
    ObserveOnly,
    DecisionError,
    TranslationError,
    RetryExhausted,
    NonRetryableProviderError,
    EmptyStream,
}

impl FallbackReason {
    pub open spec fn label_text(self) -> Seq<char> {
        match self {
            FallbackReason::UnsupportedProviderExtension => "unsupported_provider_extension"@,
            FallbackReason::ObserveOnly => "observe_only"@,
            FallbackReason::DecisionError => "decision_error"@,
            FallbackReason::TranslationError => "translation_error"@,
            FallbackReason::RetryExhausted => "retry_exhausted"@,
            FallbackReason::NonRetryableProviderError => "non_retryable_provider_error"@,
            FallbackReason::EmptyStream => "empty_stream"@,
        }
    }

    /// Stable name of the reason.
    pub fn label(self) -> (r: &'static str)
        ensures
            r@ == self.label_text(),
    {
        match self {
            FallbackReason::UnsupportedProviderExtension => "unsupported_provider_extension",
            FallbackReason::ObserveOnly => "observe_only",
            FallbackReason::DecisionError => "decision_error",
            FallbackReason::TranslationError => "translation_error",
            FallbackReason::RetryExhausted => "retry_exhausted",
            FallbackReason::NonRetryableProviderError => "non_retryable_provider_error",
            FallbackReason::EmptyStream => "empty_stream",
        }
    }
}

/// Where a routed call stands: its attempt, and the route and failure of the attempt before.
#[derive(Debug)]
pub struct RoutingRun {
    pub inbound: WireProtocol,
    pub attempt: u32,
    pub max_attempts: u32,
    pub previous: Option<(String, String)>,
}

impl RoutingRun {
    /// Attempts are counted from one up to the limit.
    pub open spec fn valid(self) -> bool {
        1 <= self.attempt <= self.max_attempts
    }

    /// Whether `next` is the attempt after this one, which failed on the route `backend` for `reason`.
    pub open spec fn followed_by(self, next: RoutingRun, backend: Seq<char>, reason: Seq<char>) -> bool {
        &&& next.inbound == self.inbound
        &&& next.attempt == self.attempt + 1
        &&& next.max_attempts == self.max_attempts
        &&& next.previous is Some
        &&& next.previous->Some_0.0@ == backend
        &&& next.previous->Some_0.1@ == reason
    }
}

/// How an attempt ends.
pub enum AttemptEnd {
    /// No decision could be had.
    Undecided,
    /// The provider answered.
    Answered,
    /// The answer could not be translated.
    Untranslatable,
    /// The provider failed.
    Failed { retryable: bool },
    /// The provider's stream held nothing.
    Empty,
}

/// What follows on the end of an attempt.
pub enum Course {
    Proceed,
    Retry,
    Fallback(FallbackReason),
}

/// What follows on the end of the attempt `attempt` of at most `max`.
pub open spec fn course(end: AttemptEnd, attempt: u32, max: u32) -> Course {
    match end {
        AttemptEnd::Undecided => Course::Fallback(FallbackReason::DecisionError),
        AttemptEnd::Answered => Course::Proceed,
        AttemptEnd::Untranslatable => Course::Fallback(FallbackReason::TranslationError),
        AttemptEnd::Failed { retryable } => if !retryable {
            Course::Fallback(FallbackReason::NonRetryableProviderError)
        } else if attempt < max {
            Course::Retry
        } else {
            Course::Fallback(FallbackReason::RetryExhausted)
        },
        AttemptEnd::Empty => if attempt < max {
            Course::Retry
        } else {
            Course::Fallback(FallbackReason::EmptyStream)
        },
    }
}

/// What follows, with what it needs.
#[derive(Debug)]
pub enum Next {
    /// The attempt goes on.
    Proceed,
    /// Another attempt begins.
    Retry(RoutingRun),
    /// The trusted target serves the call.
    Fallback(FallbackReason),
}

/// Marks to leave, then what follows.
#[derive(Debug)]
pub struct Step {
    pub marks: Vec<Mark>,
    pub next: Next,
}

impl Next {
    pub open spec fn course(self) -> Course {
        match self {
            Next::Proceed => Course::Proceed,
            Next::Retry(_) => Course::Retry,
            Next::Fallback(reason) => Course::Fallback(reason),
        }
    }
}

/// The protocol by which a call is routed: none where its protocol is unknown or not enabled, and the call
/// then passes through as it is.
pub fn routed_protocol(config: &SwitchyardConfig, name: &str, request: &LlmRequest) -> (r: Option<WireProtocol>)
    ensures
        match call_protocol(name@, request.content@) {
            Some(protocol) => r == (if config.enabled_inbound_profiles.has(protocol) {
                Some(protocol)
            } else {
                None
            }),
            None => r is None,
        },
{
    match WireProtocol::from_call(name, request) {
        Some(protocol) => {
            if config.enabled_inbound_profiles.contains(protocol) {
                Some(protocol)
            } else {
                None
            }
        },
        None => None,
    }
}

/// How the routing of a call begins.
#[derive(Debug)]
pub enum Start {
    /// The call uses what cannot be translated: leave the mark, then let the trusted target serve it.
    Reject(Mark),
    /// Ask for one decision to record, then let the trusted target serve the call.
    Observe,
    /// Make a first attempt.
    Route(RoutingRun),
}

/// Begins the routing of a call. `portable` says whether the call can be translated at all.
pub fn begin(config: &SwitchyardConfig, inbound: WireProtocol, portable: &Result<(), String>) -> (r: Start)
    ensures
        match portable {
            Err(error) => r is Reject && r->Reject_0.view() == error_mark(
                config.mode,
                None,
                0,
                "unsupported_provider_extension"@,
                error@,
            ),
            Ok(_) => match config.mode {
                RoutingMode::ObserveOnly => r is Observe,
                RoutingMode::Enforce => {
                    &&& r is Route
                    &&& r->Route_0.valid()
                    &&& r->Route_0.inbound == inbound
                    &&& r->Route_0.attempt == 1
                    &&& r->Route_0.max_attempts == max_attempts(*config)
                    &&& r->Route_0.previous is None
                },
            },
        },
{
    match portable {
        Err(error) => Start::Reject(
            mark_error(config.mode, None, 0, "unsupported_provider_extension", error.as_str()),
        ),
        Ok(_) => {
            if config.mode == RoutingMode::ObserveOnly {
                Start::Observe
            } else {
                Start::Route(RoutingRun { inbound, attempt: 1, max_attempts: attempt_limit(config), previous: None })
            }
        },
    }
}

/// What follows on a decision.
#[derive(Debug)]
pub enum DecisionStep {
    /// No decision: leave the mark, then let the trusted target serve the call.
    Fallback(Mark),
    /// Dispatch the routed call to a target of this protocol.
    Dispatch(WireProtocol),
    /// The decision names no known protocol: the call fails.
    Fail(FlowError),
}

impl SwitchyardRuntime {
    /// What an observed decision leaves: the mark of a failure, or what the decision would have changed.
    pub fn after_observation(&self, decided: &Result<RoutingDecision, String>) -> (r: (
        Option<Mark>,
        Option<RoutingContribution>,
    ))
        ensures
            match decided {
                Ok(decision) => r.0 is None && contribution_is(r.1, self.config, *decision, 1, false),
                Err(error) => r.1 is None && r.0 is Some && r.0->Some_0.view() == error_mark(
                    self.config.mode,
                    None,
                    1,
                    "decision_api"@,
                    error@,
                ),
            },
    {
        match decided {
            Ok(decision) => (None, self.routing_contribution(decision, 1, false)),
            Err(error) => (Some(mark_error(self.config.mode, None, 1, "decision_api", error.as_str())), None),
        }
    }

    /// What follows on a decision.
    pub fn after_decision(&self, run: &RoutingRun, decided: &Result<RoutingDecision, String>) -> (r: DecisionStep)
        ensures
            match decided {
                Err(error) => {
                    &&& course(AttemptEnd::Undecided, run.attempt, run.max_attempts) == Course::Fallback(
                        FallbackReason::DecisionError,
                    )
                    &&& r is Fallback
                    &&& r->Fallback_0.view() == error_mark(
                        self.config.mode,
                        None,
                        run.attempt,
                        "decision_api"@,
                        error@,
                    )
                },
                Ok(decision) => match labelled_protocol(decision.route.target_protocol_profile@) {
                    Some(protocol) => r == DecisionStep::Dispatch(protocol),
                    None => r is Fail && unknown_label(r->Fail_0, decision.route.target_protocol_profile@),
                },
            },
    {
        match decided {
            Err(error) => DecisionStep::Fallback(
                mark_error(self.config.mode, None, run.attempt, "decision_api", error.as_str()),
            ),
            Ok(decision) => match protocol_from_label(decision.route.target_protocol_profile.as_str()) {
                Ok(protocol) => DecisionStep::Dispatch(protocol),
                Err(error) => DecisionStep::Fail(error),
            },
        }
    }

    /// What follows on a failure of the provider, told apart by `class`.
    pub fn after_failure(
        &self,
        run: &RoutingRun,
        request: &RoutingRequest,
        decision: &RoutingDecision,
        class: &str,
        error: &FlowError,
    ) -> (r: Step)
        requires
            run.valid(),
        ensures
            failure_step(self.config.mode, r, *run, *request, *decision, class@, *error),
    {
        let reason = provider_error_summary(error);
        let mut marks: Vec<Mark> = Vec::new();
        marks.push(mark_error(self.config.mode, Some(request), run.attempt, class, reason.as_str()));
        if error_is_retryable(error) {
            if run.attempt < run.max_attempts {
                marks.push(mark_retry(self.config.mode, request, decision, run.attempt, reason.as_str()));
                assert(marks_view(marks@) =~= failure_marks(
                    self.config.mode,
                    *run,
                    *request,
                    *decision,
                    class@,
                    *error,
                ));
                Step { marks, next: Next::Retry(next_run(run, decision, reason)) }
            } else {
                assert(marks_view(marks@) =~= failure_marks(
                    self.config.mode,
                    *run,
                    *request,
                    *decision,
                    class@,
                    *error,
                ));
                Step { marks, next: Next::Fallback(FallbackReason::RetryExhausted) }
            }
        } else {
            assert(marks_view(marks@) =~= failure_marks(self.config.mode, *run, *request, *decision, class@, *error));
            Step { marks, next: Next::Fallback(FallbackReason::NonRetryableProviderError) }
        }
    }

    /// What follows on the provider's answer to a buffered call: its translation, where it came.
    pub fn after_response(
        &self,
        run: &RoutingRun,
        request: &RoutingRequest,
        decision: &RoutingDecision,
        response: &Result<(), FlowError>,
    ) -> (r: Step)
        requires
            run.valid(),
        ensures
            match response {
                Ok(_) => r.next.course() == course(AttemptEnd::Answered, run.attempt, run.max_attempts) && r.marks@.len()
                    == 0,
                Err(error) => failure_step(self.config.mode, r, *run, *request, *decision, "provider"@, *error),
            },
    {
        match response {
            Ok(_) => Step { marks: Vec::new(), next: Next::Proceed },
            Err(error) => self.after_failure(run, request, decision, "provider", error),
        }
    }

    /// What follows on the translation of a buffered answer: where it succeeds the answer is served, with
    /// what routing changed; else the mark is left and the trusted target serves the call.
    pub fn after_translation(
        &self,
        run: &RoutingRun,
        request: &RoutingRequest,
        decision: &RoutingDecision,
        translated: &Result<(), String>,
    ) -> (r: (Step, Option<RoutingContribution>))
        requires
            run.valid(),
        ensures
            match translated {
                Ok(_) => {
                    &&& r.0.next.course() == course(AttemptEnd::Answered, run.attempt, run.max_attempts)
                    &&& r.0.marks@.len() == 0
                    &&& contribution_is(r.1, self.config, *decision, run.attempt, true)
                },
                Err(error) => {
                    &&& r.0.next.course() == course(AttemptEnd::Untranslatable, run.attempt, run.max_attempts)
                    &&& marks_view(r.0.marks@) == seq![
                        error_mark(self.config.mode, Some(*request), run.attempt, "response_translation"@, error@),
                    ]
                    &&& r.1 is None
                },
            },
    {
        match translated {
            Ok(_) => (
                Step { marks: Vec::new(), next: Next::Proceed },
                self.routing_contribution(decision, run.attempt, true),
            ),
            Err(error) => {
                let marks: Vec<Mark> = vec![
                    mark_error(self.config.mode, Some(request), run.attempt, "response_translation", error.as_str()),
                ];
                assert(marks_view(marks@) =~= seq![
                    error_mark(self.config.mode, Some(*request), run.attempt, "response_translation"@, error@),
                ]);
                (Step { marks, next: Next::Fallback(FallbackReason::TranslationError) }, None)
            },
        }
    }

    /// What follows on opening the provider's stream: reading its first item, where it opened.
    pub fn after_stream_setup(
        &self,
        run: &RoutingRun,
        request: &RoutingRequest,
        decision: &RoutingDecision,
        opened: &Result<(), FlowError>,
    ) -> (r: Step)
        requires
            run.valid(),
        ensures
            match opened {
                Ok(_) => r.next.course() == Course::Proceed && r.marks@.len() == 0,
                Err(error) => failure_step(
                    self.config.mode,
                    r,
                    *run,
                    *request,
                    *decision,
                    "provider_stream_setup"@,
                    *error,
                ),
            },
    {
        match opened {
            Ok(_) => Step { marks: Vec::new(), next: Next::Proceed },
            Err(error) => self.after_failure(run, request, decision, "provider_stream_setup", error),
        }
    }

    /// What follows on the first item of the provider's stream. A chunk commits the call to this stream; an
    /// error or an empty stream does not.
    pub fn after_first_item(
        &self,
        run: &RoutingRun,
        request: &RoutingRequest,
        decision: &RoutingDecision,
        first: &FirstItem,
    ) -> (r: (Step, Option<RoutingContribution>))
        requires
            run.valid(),
        ensures
            match first {
                FirstItem::Chunk(_) => {
                    &&& r.0.next.course() == course(AttemptEnd::Answered, run.attempt, run.max_attempts)
                    &&& r.0.marks@.len() == 0
                    &&& contribution_is(r.1, self.config, *decision, run.attempt, true)
                },
                FirstItem::Failed(error) => {
                    &&& r.1 is None
                    &&& failure_step(
                        self.config.mode,
                        r.0,
                        *run,
                        *request,
                        *decision,
                        "provider_stream_open"@,
                        *error,
                    )
                },
                FirstItem::Ended => {
                    &&& r.1 is None
                    &&& r.0.next.course() == course(AttemptEnd::Empty, run.attempt, run.max_attempts)
                    &&& marks_view(r.0.marks@) == (if run.attempt < run.max_attempts {
                        seq![retry_mark(self.config.mode, *request, *decision, run.attempt, "empty_stream"@)]
                    } else {
                        Seq::empty()
                    })
                    &&& r.0.next matches Next::Retry(next) ==> run.followed_by(
                        next,
                        decision.route.backend_id@,
                        "empty_stream"@,
                    ) && next.valid()
                },
            },
    {
        match first {
            FirstItem::Chunk(_) => (
                Step { marks: Vec::new(), next: Next::Proceed },
                self.routing_contribution(decision, run.attempt, true),
            ),
            FirstItem::Failed(error) => (
                self.after_failure(run, request, decision, "provider_stream_open", error),
                None,
            ),
            FirstItem::Ended => {
                if run.attempt < run.max_attempts {
                    let marks: Vec<Mark> = vec![
                        mark_retry(self.config.mode, request, decision, run.attempt, "empty_stream"),
                    ];
                    assert(marks_view(marks@) =~= seq![
                        retry_mark(self.config.mode, *request, *decision, run.attempt, "empty_stream"@),
                    ]);
                    (Step { marks, next: Next::Retry(next_run(run, decision, "empty_stream".to_owned())) }, None)
                } else {
                    let marks: Vec<Mark> = Vec::new();
                    assert(marks_view(marks@) =~= Seq::empty());
                    (Step { marks, next: Next::Fallback(FallbackReason::EmptyStream) }, None)
                }
            },
        }
    }

    /// Hands a call to its trusted target: the mark that is left, whose call it is, and the call as it goes out.
    /// `translated` is what the translation of the call into the protocol of that target gave.
    pub fn begin_fallback(
        &self,
        inbound: WireProtocol,
        original: LlmRequest,
        translated: Translated,
        reason: FallbackReason,
    ) -> (r: Fallback)
        ensures
            r.mark.view() == fallback_mark(self.config, inbound, reason.label_text(), original.headers.view()),
            r.watch.phase@ == "fallback_stream"@,
            r.watch.mode == self.config.mode,
            r.watch.metadata@ == call_identity_json(original.headers.view()),
            ({
                let id = self.config.default_targets.target_id(inbound);
                let call = routed_call(
                    self.config,
                    self.target_headers.view(),
                    inbound,
                    original.headers.view(),
                    original.content@,
                    id,
                    translated,
                );
                match r.call {
                    Ok(routed) => has_key(self.config.targets.view(), id) && call == Ok::<(Members, JsonView), Seq<char>>(
                        (routed.headers.view(), routed.content@),
                    ),
                    Err(error) => error is Internal && (if has_key(self.config.targets.view(), id) {
                        call == Err::<(Members, JsonView), Seq<char>>(error->Internal_0@)
                    } else {
                        error->Internal_0@ == "unknown fallback target "@ + debug_text(id)
                    }),
                }
            }),
    {
        let mark = mark_fallback(&self.config, inbound, reason.label(), &original);
        let metadata = identity_metadata_from_request(&original);
        let call = match self.fallback_request(inbound, original, translated) {
            Ok(call) => Ok(call),
            Err(error) => Err(FlowError::Internal(error)),
        };
        Fallback { mark, watch: Watch { phase: "fallback_stream", mode: self.config.mode, metadata }, call }
    }

    /// The mark of a trusted target that failed too.
    pub fn after_failed_fallback(&self, streaming: bool, error: &FlowError, metadata: Json) -> (r: Mark)
        ensures
            r.view() == terminal_mark(
                self.config.mode,
                *error,
                if streaming {
                    "fallback_stream_setup"@
                } else {
                    "fallback_buffered"@
                },
                metadata@,
            ),
    {
        mark_terminal_error(
            self.config.mode,
            error,
            if streaming {
                "fallback_stream_setup"
            } else {
                "fallback_buffered"
            },
            metadata,
        )
    }
}

/// A call on its way to its trusted target.
#[derive(Debug)]
pub struct Fallback {
    /// The mark that is left first.
    pub mark: Mark,
    /// How the answer is watched, where it is a stream.
    pub watch: Watch,
    /// The call as it goes out, or why it cannot.
    pub call: Result<LlmRequest, FlowError>,
}

/// The first item of a provider's stream.
#[derive(Debug)]
pub enum FirstItem {
    Chunk(Json),
    Failed(FlowError),
    Ended,
}

fn next_run(run: &RoutingRun, decision: &RoutingDecision, reason: String) -> (r: RoutingRun)
    requires
        run.valid(),
        run.attempt < run.max_attempts,
    ensures
        run.followed_by(r, decision.route.backend_id@, reason@),
        r.valid(),
{
    RoutingRun {
        inbound: run.inbound,
        attempt: run.attempt + 1,
        max_attempts: run.max_attempts,
        previous: Some((decision.route.backend_id.clone(), reason)),
    }
}

/// The marks of a provider's failure: the error, and the retry where there is one.
pub open spec fn failure_marks(
    mode: RoutingMode,
    run: RoutingRun,
    request: RoutingRequest,
    decision: RoutingDecision,
    class: Seq<char>,
    error: FlowError,
) -> Seq<MarkView> {
    let failed = error_mark(mode, Some(request), run.attempt, class, error.summary_text());
    if error.retryable() && run.attempt < run.max_attempts {
        seq![failed, retry_mark(mode, request, decision, run.attempt, error.summary_text())]
    } else {
        seq![failed]
    }
}

/// Whether `step` is what follows on a provider's failure.
pub open spec fn failure_step(
    mode: RoutingMode,
    step: Step,
    run: RoutingRun,
    request: RoutingRequest,
    decision: RoutingDecision,
    class: Seq<char>,
    error: FlowError,
) -> bool {
    &&& step.next.course() == course(AttemptEnd::Failed { retryable: error.retryable() }, run.attempt, run.max_attempts)
    &&& marks_view(step.marks@) == failure_marks(mode, run, request, decision, class, error)
    &&& step.next matches Next::Retry(next) ==> run.followed_by(
        next,
        decision.route.backend_id@,
        error.summary_text(),
    ) && next.valid()
}

/// How a call ends whose attempts, from `attempt` on, end as `ends` says.
pub open spec fn call_end(ends: spec_fn(u32) -> AttemptEnd, attempt: u32, max: u32) -> Course
    decreases max - attempt,
{
    match course(ends(attempt), attempt, max) {
        Course::Retry => if attempt < max {
            call_end(ends, (attempt + 1) as u32, max)
        } else {
            Course::Retry
        },
        last => last,
    }
}

/// How many attempts a call makes whose attempts, from `attempt` on, end as `ends` says.
pub open spec fn attempts_made(ends: spec_fn(u32) -> AttemptEnd, attempt: u32, max: u32) -> int
    decreases max - attempt,
{
    if attempt < max && course(ends(attempt), attempt, max) is Retry {
        1 + attempts_made(ends, (attempt + 1) as u32, max)
    } else {
        1
    }
}

/// However the attempts of a call end, the call is answered or the trusted target serves it, and no more
/// attempts are made than the limit allows.
pub proof fn every_call_ends(ends: spec_fn(u32) -> AttemptEnd, attempt: u32, max: u32)
    requires
        1 <= attempt <= max,
    ensures
        !(call_end(ends, attempt, max) is Retry),
        1 <= attempts_made(ends, attempt, max) <= max - attempt + 1,
    decreases max - attempt,
{
    if attempt < max {
        every_call_ends(ends, (attempt + 1) as u32, max);
    }
}

/// A failure that another attempt cannot mend is not tried again: the attempt is the last one.
pub proof fn hopeless_failures_are_not_retried(ends: spec_fn(u32) -> AttemptEnd, attempt: u32, max: u32)
    requires
        1 <= attempt <= max,
        ends(attempt) == (AttemptEnd::Failed { retryable: false }),
    ensures
        attempts_made(ends, attempt, max) == 1,
        call_end(ends, attempt, max) == Course::Fallback(FallbackReason::NonRetryableProviderError),
{
}

/// Retries end only at the limit: where every attempt fails in a way that may mend, all are made, and then
/// the trusted target serves the call.
pub proof fn mendable_failures_use_every_attempt(ends: spec_fn(u32) -> AttemptEnd, attempt: u32, max: u32)
    requires
        1 <= attempt <= max,
        forall|n: u32| #[trigger] ends(n) == (AttemptEnd::Failed { retryable: true }),
    ensures
        attempts_made(ends, attempt, max) == max - attempt + 1,
        call_end(ends, attempt, max) == Course::Fallback(FallbackReason::RetryExhausted),
    decreases max - attempt,
{
    if attempt < max {
        mendable_failures_use_every_attempt(ends, (attempt + 1) as u32, max);
    }
}

} // verus!
