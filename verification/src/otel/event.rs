//! Lifecycle events and the attributes that spans have from them.

use crate::ids::{hyphenated, uuid_string};
use crate::otel::attributes::{
    attributes_view, opt_attribute, optimization_attributes, push_all, push_double, push_opt_text,
    push_optimization_attributes, push_text, Attribute, AttributeView, CostSummary, LlmOptimizationSummary, ValueView,
};
use crate::text::{opt_str, opt_text, same_text};
use vstd::prelude::*;
use vstd::string::*;

verus! {

/// What a scope does.
#[derive(Debug, Clone, Copy, PartialEq, Eq, Structural)]
pub enum ScopeType {
    Agent,
    Function,
    Tool,
    Llm,
    Retriever,
    Embedder,
    Reranker,
    Guardrail,
    Evaluator,
    Custom,
    Unknown,
}

/// The kind of a span.
#[derive(Debug, Clone, Copy, PartialEq, Eq, Structural)]
pub enum SpanKind {
    Client,
    Internal,
}

/// Whether an event begins a scope, ends it, or marks a point in time.
#[derive(Debug, Clone, Copy, PartialEq, Eq, Structural)]
pub enum EventPhase {
    Start,
    End,
    Mark,
}

/// A payload of an event.
#[derive(Debug, Clone, Copy, PartialEq, Eq, Structural)]
pub enum Payload {
    Attributes,
    Data,
    Metadata,
    Input,
    Output,
    CategoryProfile,
}

/// What the keys begin with that a payload projects to in a phase; nothing where it projects to none.
pub open spec fn prefix_of(phase: EventPhase, payload: Payload) -> Option<Seq<char>> {
    match (phase, payload) {
        (EventPhase::Start, Payload::Attributes) => Some("nemo_relay.handle_attributes"@),
        (EventPhase::Start, Payload::Data) => Some("nemo_relay.start.data"@),
        (EventPhase::Start, Payload::Metadata) => Some("nemo_relay.start.metadata"@),
        (EventPhase::Start, Payload::Input) => Some("nemo_relay.start.input"@),
        (EventPhase::End, Payload::Data) => Some("nemo_relay.end.data"@),
        (EventPhase::End, Payload::Metadata) => Some("nemo_relay.end.metadata"@),
        (EventPhase::End, Payload::Output) => Some("nemo_relay.end.output"@),
        (EventPhase::Mark, Payload::Attributes) => Some("nemo_relay.mark.attributes"@),
        (EventPhase::Mark, Payload::Data) => Some("nemo_relay.mark.data"@),
        (EventPhase::Mark, Payload::Metadata) => Some("nemo_relay.mark.metadata"@),
        (EventPhase::Mark, Payload::CategoryProfile) => Some("nemo_relay.mark.category_profile"@),
        _ => None,
    }
}

/// What the keys begin with that a payload projects to in a phase.
pub fn payload_prefix(phase: EventPhase, payload: Payload) -> (r: Option<&'static str>)
    ensures
        opt_str(r) == prefix_of(phase, payload),
{
    match (phase, payload) {
        (EventPhase::Start, Payload::Attributes) => Some("nemo_relay.handle_attributes"),
        (EventPhase::Start, Payload::Data) => Some("nemo_relay.start.data"),
        (EventPhase::Start, Payload::Metadata) => Some("nemo_relay.start.metadata"),
        (EventPhase::Start, Payload::Input) => Some("nemo_relay.start.input"),
        (EventPhase::End, Payload::Data) => Some("nemo_relay.end.data"),
        (EventPhase::End, Payload::Metadata) => Some("nemo_relay.end.metadata"),
        (EventPhase::End, Payload::Output) => Some("nemo_relay.end.output"),
        (EventPhase::Mark, Payload::Attributes) => Some("nemo_relay.mark.attributes"),
        (EventPhase::Mark, Payload::Data) => Some("nemo_relay.mark.data"),
        (EventPhase::Mark, Payload::Metadata) => Some("nemo_relay.mark.metadata"),
        (EventPhase::Mark, Payload::CategoryProfile) => Some("nemo_relay.mark.category_profile"),
        _ => None,
    }
}

/// A point in time: whole seconds since 1970, and the nanoseconds behind them.
#[derive(Debug, Clone, Copy, PartialEq, Eq, Structural)]
pub struct Timestamp {
    pub seconds: i64,
    pub nanos: u32,
}

/// What is known of the cost of a model call, from the surest source down.
#[derive(Debug)]
pub struct CostSources {
    /// The cost that the response's usage reports.
    pub reported: Option<CostSummary>,
    /// The cost estimated from the response's usage.
    pub estimated: Option<CostSummary>,
    /// The total, as the bits of a double, and currency that the raw output gives.
    pub manual: Option<(u64, String)>,
    /// The cost estimated from the usage that the raw output gives.
    pub manual_estimated: Option<CostSummary>,
}

/// A lifecycle event. Its payloads come as the attributes that they project to in the event's phase.
#[derive(Debug)]
pub struct Event {
    pub phase: EventPhase,
    pub uuid: u128,
    pub parent_uuid: Option<u128>,
    pub name: String,
    pub timestamp: Timestamp,
    pub scope_type: Option<ScopeType>,
    pub category: Option<String>,
    pub model_name: Option<String>,
    pub tool_call_id: Option<String>,
    pub attributes: Vec<Attribute>,
    pub data: Vec<Attribute>,
    pub metadata: Vec<Attribute>,
    pub input: Vec<Attribute>,
    pub output: Vec<Attribute>,
    pub category_profile: Vec<Attribute>,
    pub cost: CostSources,
    pub optimization: Option<LlmOptimizationSummary>,
}

/// The kind of the span for a scope: work done by others is a client span.
pub fn span_kind(event: &Event) -> (r: SpanKind)
    ensures
        r == kind_of(event.scope_type),
{
    match event.scope_type {
        Some(ScopeType::Llm) => SpanKind::Client,
        Some(ScopeType::Tool) => SpanKind::Client,
        Some(ScopeType::Retriever) => SpanKind::Client,
        Some(ScopeType::Embedder) => SpanKind::Client,
        Some(ScopeType::Reranker) => SpanKind::Client,
        _ => SpanKind::Internal,
    }
}

pub open spec fn kind_of(scope_type: Option<ScopeType>) -> SpanKind {
    match scope_type {
        Some(t) => if t == ScopeType::Llm || t == ScopeType::Tool || t == ScopeType::Retriever || t
            == ScopeType::Embedder || t == ScopeType::Reranker {
            SpanKind::Client
        } else {
            SpanKind::Internal
        },
        None => SpanKind::Internal,
    }
}

pub open spec fn scope_text(scope_type: Option<ScopeType>) -> Seq<char> {
    match scope_type {
        Some(ScopeType::Agent) => "agent"@,
        Some(ScopeType::Function) => "function"@,
        Some(ScopeType::Tool) => "tool"@,
        Some(ScopeType::Llm) => "llm"@,
        Some(ScopeType::Retriever) => "retriever"@,
        Some(ScopeType::Embedder) => "embedder"@,
        Some(ScopeType::Reranker) => "reranker"@,
        Some(ScopeType::Guardrail) => "guardrail"@,
        Some(ScopeType::Evaluator) => "evaluator"@,
        Some(ScopeType::Custom) => "custom"@,
        Some(ScopeType::Unknown) => "unknown"@,
        None => "unknown"@,
    }
}

/// Stable name of what a scope does.
pub fn scope_type_name(scope_type: Option<ScopeType>) -> (r: &'static str)
    ensures
        r@ == scope_text(scope_type),
{
    match scope_type {
        Some(ScopeType::Agent) => "agent",
        Some(ScopeType::Function) => "function",
        Some(ScopeType::Tool) => "tool",
        Some(ScopeType::Llm) => "llm",
        Some(ScopeType::Retriever) => "retriever",
        Some(ScopeType::Embedder) => "embedder",
        Some(ScopeType::Reranker) => "reranker",
        Some(ScopeType::Guardrail) => "guardrail",
        Some(ScopeType::Evaluator) => "evaluator",
        Some(ScopeType::Custom) => "custom",
        Some(ScopeType::Unknown) => "unknown",
        None => "unknown",
    }
}

/// A UUID as text, and nothing where there is none.
pub open spec fn opt_uuid_text(uuid: Option<u128>) -> Seq<char> {
    match uuid {
        Some(n) => hyphenated(n),
        None => Seq::empty(),
    }
}

fn opt_uuid_string(uuid: Option<u128>) -> (r: String)
    ensures
        r@ == opt_uuid_text(uuid),
{
    match uuid {
        Some(n) => uuid_string(n),
        None => String::new(),
    }
}

/// The attributes that every span of a scope has.
pub open spec fn common_view(event: Event) -> Seq<AttributeView> {
    seq![
        ("nemo_relay.uuid"@, ValueView::Text(hyphenated(event.uuid))),
        ("nemo_relay.parent_uuid"@, ValueView::Text(opt_uuid_text(event.parent_uuid))),
        ("nemo_relay.scope_type"@, ValueView::Text(scope_text(event.scope_type))),
    ] + opt_attribute("nemo_relay.model_name"@, opt_text(event.model_name)) + opt_attribute(
        "nemo_relay.tool_call_id"@,
        opt_text(event.tool_call_id),
    )
}

/// The attributes that every span of a scope has.
pub fn common_attributes(event: &Event) -> (r: Vec<Attribute>)
    ensures
        attributes_view(r@) == common_view(*event),
{
    let mut attributes: Vec<Attribute> = Vec::new();
    assert(attributes_view(attributes@) =~= Seq::empty());
    push_text(&mut attributes, "nemo_relay.uuid", uuid_string(event.uuid).as_str());
    push_text(&mut attributes, "nemo_relay.parent_uuid", opt_uuid_string(event.parent_uuid).as_str());
    push_text(&mut attributes, "nemo_relay.scope_type", scope_type_name(event.scope_type));
    assert(attributes_view(attributes@) =~= seq![
        ("nemo_relay.uuid"@, ValueView::Text(hyphenated(event.uuid))),
        ("nemo_relay.parent_uuid"@, ValueView::Text(opt_uuid_text(event.parent_uuid))),
        ("nemo_relay.scope_type"@, ValueView::Text(scope_text(event.scope_type))),
    ]);
    push_opt_text(&mut attributes, "nemo_relay.model_name", &event.model_name);
    push_opt_text(&mut attributes, "nemo_relay.tool_call_id", &event.tool_call_id);
    attributes
}

/// The attributes of a span from the event that begins it.
pub open spec fn start_view(event: Event) -> Seq<AttributeView> {
    common_view(event) + attributes_view(event.attributes@) + attributes_view(event.data@) + attributes_view(
        event.metadata@,
    ) + attributes_view(event.input@)
}

/// The attributes of a span from the event that begins it.
pub fn start_attributes(event: &Event) -> (r: Vec<Attribute>)
    ensures
        attributes_view(r@) == start_view(*event),
{
    let mut attributes = common_attributes(event);
    push_all(&mut attributes, &event.attributes);
    push_all(&mut attributes, &event.data);
    push_all(&mut attributes, &event.metadata);
    push_all(&mut attributes, &event.input);
    attributes
}

/// The total and currency of a cost that has a total.
pub open spec fn cost_total(cost: CostSummary) -> Option<(u64, Seq<char>)> {
    match cost.total {
        Some(total) => Some((total, cost.currency@)),
        None => None,
    }
}

/// The cost of a model call: what the response reports decides, even where it has no total; else its
/// estimate; else what the raw output gives; else the estimate from that.
pub open spec fn llm_cost(cost: CostSources) -> Option<(u64, Seq<char>)> {
    match cost.reported {
        Some(c) => cost_total(c),
        None => match cost.estimated {
            Some(c) => cost_total(c),
            None => match cost.manual {
                Some(m) => Some((m.0, m.1@)),
                None => match cost.manual_estimated {
                    Some(c) => cost_total(c),
                    None => None,
                },
            },
        },
    }
}

fn cost_total_and_currency(cost: &CostSummary) -> (r: Option<(u64, String)>)
    ensures
        match r {
            Some(c) => cost_total(*cost) == Some((c.0, c.1@)),
            None => cost_total(*cost) is None,
        },
{
    match cost.total {
        Some(total) => Some((total, cost.currency.clone())),
        None => None,
    }
}

/// The cost of a model call: its total, as the bits of a double, and currency.
pub fn cost_from_llm_event(cost: &CostSources) -> (r: Option<(u64, String)>)
    ensures
        match r {
            Some(c) => llm_cost(*cost) == Some((c.0, c.1@)),
            None => llm_cost(*cost) is None,
        },
{
    if let Some(reported) = &cost.reported {
        return cost_total_and_currency(reported);
    }
    if let Some(estimated) = &cost.estimated {
        return cost_total_and_currency(estimated);
    }
    if let Some(manual) = &cost.manual {
        return Some((manual.0, manual.1.clone()));
    }
    match &cost.manual_estimated {
        Some(estimated) => cost_total_and_currency(estimated),
        None => None,
    }
}

/// The cost attributes of the end of a model call.
pub open spec fn cost_view(event: Event) -> Seq<AttributeView> {
    if opt_text(event.category) == Some("llm"@) {
        match llm_cost(event.cost) {
            Some(cost) => seq![
                ("nemo_relay.llm.cost.total"@, ValueView::Double(cost.0)),
                ("nemo_relay.llm.cost.currency"@, ValueView::Text(cost.1)),
            ],
            None => Seq::empty(),
        }
    } else {
        Seq::empty()
    }
}

/// The attributes of a span from the event that ends it.
pub open spec fn end_view(event: Event) -> Seq<AttributeView> {
    attributes_view(event.data@) + attributes_view(event.metadata@) + attributes_view(event.output@) + cost_view(event)
        + (match event.optimization {
        Some(summary) => optimization_attributes(summary),
        None => Seq::empty(),
    })
}

/// The attributes of a span from the event that ends it.
pub fn end_attributes(event: &Event) -> (r: Vec<Attribute>)
    ensures
        attributes_view(r@) == end_view(*event),
{
    let mut attributes: Vec<Attribute> = Vec::new();
    assert(attributes_view(attributes@) =~= Seq::empty());
    push_all(&mut attributes, &event.data);
    assert(attributes_view(attributes@) =~= attributes_view(event.data@));
    push_all(&mut attributes, &event.metadata);
    push_all(&mut attributes, &event.output);
    let ghost before = attributes_view(attributes@);
    let is_llm = match &event.category {
        Some(category) => same_text(category.as_str(), "llm"),
        None => false,
    };
    if is_llm {
        if let Some((total, currency)) = cost_from_llm_event(&event.cost) {
            push_double(&mut attributes, "nemo_relay.llm.cost.total", Some(total));
            push_text(&mut attributes, "nemo_relay.llm.cost.currency", currency.as_str());
        }
    }
    assert(attributes_view(attributes@) =~= before + cost_view(*event));
    let ghost costed = attributes_view(attributes@);
    match &event.optimization {
        Some(summary) => push_optimization_attributes(&mut attributes, summary),
        None => {
            assert(costed + Seq::empty() =~= costed);
        },
    }
    attributes
}

/// The attributes of a mark.
pub open spec fn mark_view(event: Event) -> Seq<AttributeView> {
    seq![
        ("nemo_relay.mark.uuid"@, ValueView::Text(hyphenated(event.uuid))),
        ("nemo_relay.mark.parent_uuid"@, ValueView::Text(opt_uuid_text(event.parent_uuid))),
    ] + attributes_view(event.attributes@) + attributes_view(event.data@) + attributes_view(event.metadata@)
        + opt_attribute("nemo_relay.mark.category"@, opt_text(event.category)) + attributes_view(event.category_profile@)
}

/// The attributes of a mark.
pub fn mark_attributes(event: &Event) -> (r: Vec<Attribute>)
    ensures
        attributes_view(r@) == mark_view(*event),
{
    let mut attributes: Vec<Attribute> = Vec::new();
    assert(attributes_view(attributes@) =~= Seq::empty());
    push_text(&mut attributes, "nemo_relay.mark.uuid", uuid_string(event.uuid).as_str());
    push_text(&mut attributes, "nemo_relay.mark.parent_uuid", opt_uuid_string(event.parent_uuid).as_str());
    assert(attributes_view(attributes@) =~= seq![
        ("nemo_relay.mark.uuid"@, ValueView::Text(hyphenated(event.uuid))),
        ("nemo_relay.mark.parent_uuid"@, ValueView::Text(opt_uuid_text(event.parent_uuid))),
    ]);
    push_all(&mut attributes, &event.attributes);
    push_all(&mut attributes, &event.data);
    push_all(&mut attributes, &event.metadata);
    push_opt_text(&mut attributes, "nemo_relay.mark.category", &event.category);
    push_all(&mut attributes, &event.category_profile);
    attributes
}

/// A duration before or after the beginning of 1970.
#[derive(Debug, Clone, Copy, PartialEq, Eq, Structural)]
pub struct EpochOffset {
    pub before: bool,
    pub seconds: u64,
    pub nanos: u32,
}

impl EpochOffset {
    /// The offset in nanoseconds.
    pub open spec fn total(self) -> int {
        let size = self.seconds * 1_000_000_000 + self.nanos;
        if self.before {
            -size
        } else {
            size
        }
    }
}

impl Timestamp {
    /// The time in nanoseconds.
    pub open spec fn total(self) -> int {
        self.seconds * 1_000_000_000 + self.nanos
    }
}

/// The offset of a point in time. Before 1970 the nanoseconds are at most a full second.
pub fn to_system_time(timestamp: Timestamp) -> (r: EpochOffset)
    requires
        timestamp.seconds >= 0 || timestamp.nanos <= 1_000_000_000,
    ensures
        r.total() == timestamp.total(),
        r.nanos < 1_000_000_000,
        r.before == (timestamp.seconds < 0),
{
    let seconds: i64 = timestamp.seconds;
    let nanos: u32 = timestamp.nanos;
    if seconds >= 0 {
        EpochOffset {
            before: false,
            seconds: seconds as u64 + (nanos / 1_000_000_000) as u64,
            nanos: nanos % 1_000_000_000,
        }
    } else if nanos == 0 {
        EpochOffset { before: true, seconds: magnitude(seconds), nanos: 0 }
    } else {
        EpochOffset { before: true, seconds: magnitude(seconds) - 1, nanos: 1_000_000_000 - nanos }
    }
}

fn magnitude(n: i64) -> (r: u64)
    requires
        n < 0,
    ensures
        r == -n,
{
    (-(n + 1)) as u64 + 1
}

} // verus!
