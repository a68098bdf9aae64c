//! Which spans are open, which were closed, and what an event does to them.

use crate::otel::attributes::{
    aliases, apply_attribute_mappings, attribute_mapping_aliases, attributes_view, last_value, push_all, push_bool,
    push_text, with_aliases, Attribute, AttributeView, OtlpAttributeMapping, ValueView,
};
use crate::otel::config::{effective_mark_projection, projection_of, MarkProjection};
use crate::otel::event::{
    end_attributes, end_view, kind_of, mark_attributes, mark_view, span_kind, start_attributes, start_view,
    to_system_time, EpochOffset, Event, SpanKind,
};
use crate::otel::laws::{an_ended_span_tells_its_optimization, tells_optimization};
use crate::text::{same_text, texts};
use std::collections::HashMap;
use std::collections::VecDeque;
use vstd::prelude::*;
use vstd::string::*;

verus! {

broadcast use vstd::std_specs::hash::group_hash_axioms;

/// How many closed spans stay known as parents.
pub const COMPLETED_SPAN_CONTEXT_LIMIT: usize = 4096;

/// What tells a span from others.
#[derive(Debug, PartialEq)]
pub struct SpanContext {
    pub trace_id: u128,
    pub span_id: u64,
    pub trace_flags: u8,
    pub is_remote: bool,
    pub trace_state: String,
}

impl Clone for SpanContext {
    fn clone(&self) -> (r: Self)
        ensures
            r == *self,
    {
        SpanContext {
            trace_id: self.trace_id,
            span_id: self.span_id,
            trace_flags: self.trace_flags,
            is_remote: self.is_remote,
            trace_state: self.trace_state.clone(),
        }
    }
}

/// The same span, as a local parent.
pub fn local_parent_span_context(context: &SpanContext) -> (r: SpanContext)
    ensures
        r == (SpanContext { is_remote: false, ..*context }),
{
    let mut local = context.clone();
    local.is_remote = false;
    local
}

/// An open span.
#[derive(Debug)]
pub struct ActiveSpan {
    pub context: SpanContext,
    /// The attributes from its start that mappings copy at its end.
    pub inputs: Vec<Attribute>,
}

/// The spans that are open, and those that were closed last.
#[derive(Debug)]
pub struct SpanTracker {
    pub active: HashMap<u128, ActiveSpan>,
    pub completed: HashMap<u128, SpanContext>,
    pub completed_order: VecDeque<u128>,
    pub mark_projection: MarkProjection,
    pub mark_exclude_names: Vec<String>,
    pub attribute_mappings: Vec<OtlpAttributeMapping>,
}

/// Where a key stands in a sequence it is taken out.
pub open spec fn without(s: Seq<u128>, u: u128) -> Seq<u128>
    decreases s.len(),
{
    if s.len() == 0 {
        s
    } else if s[0] == u {
        s.drop_first()
    } else {
        seq![s[0]] + without(s.drop_first(), u)
    }
}

proof fn without_at(s: Seq<u128>, u: u128, i: int)
    requires
        0 <= i <= s.len(),
        forall|j: int| 0 <= j < i ==> s[j] != u,
        i < s.len() ==> s[i] == u,
    ensures
        without(s, u) == (if i < s.len() {
            s.remove(i)
        } else {
            s
        }),
    decreases s.len(),
{
    if s.len() > 0 && i > 0 {
        assert(s[0] != u);
        without_at(s.drop_first(), u, i - 1);
        if i < s.len() {
            assert(without(s, u) =~= s.remove(i));
        } else {
            assert(without(s, u) =~= s);
        }
    } else if s.len() > 0 {
        assert(without(s, u) =~= s.remove(0));
    }
}

proof fn without_keeps(s: Seq<u128>, u: u128)
    requires
        s.no_duplicates(),
    ensures
        without(s, u).no_duplicates(),
        without(s, u).len() <= s.len(),
        forall|x: u128| without(s, u).contains(x) <==> s.contains(x) && x != u,
{
    let i = if s.contains(u) {
        choose|i: int| 0 <= i < s.len() && s[i] == u
    } else {
        s.len() as int
    };
    without_at(s, u, i);
    if i < s.len() {
        let t = s.remove(i);
        assert forall|x: u128| t.contains(x) <==> s.contains(x) && x != u by {
            if t.contains(x) {
                let j = choose|j: int| 0 <= j < t.len() && t[j] == x;
                let k = if j < i { j } else { j + 1 };
                assert(s[k] == x);
            }
            if s.contains(x) && x != u {
                let j = choose|j: int| 0 <= j < s.len() && s[j] == x;
                let k = if j < i { j } else { j - 1 };
                assert(t[k] == x);
            }
        }
    }
}

/// The order of closed spans after one more has closed: the oldest falls out over the limit.
pub open spec fn order_after(order: Seq<u128>, u: u128) -> Seq<u128> {
    if order.contains(u) {
        order
    } else if order.len() < COMPLETED_SPAN_CONTEXT_LIMIT {
        order.push(u)
    } else {
        order.push(u).drop_first()
    }
}

/// The closed spans after one more has closed.
pub open spec fn completed_after(
    completed: Map<u128, SpanContext>,
    order: Seq<u128>,
    u: u128,
    context: SpanContext,
) -> Map<u128, SpanContext> {
    if order.contains(u) || order.len() < COMPLETED_SPAN_CONTEXT_LIMIT {
        completed.insert(u, context)
    } else {
        completed.insert(u, context).remove(order[0])
    }
}

/// The attributes whose keys some mapping copies.
pub open spec fn mapped(attributes: Seq<AttributeView>, mappings: Seq<OtlpAttributeMapping>) -> Seq<AttributeView>
    decreases attributes.len(),
{
    if attributes.len() == 0 {
        Seq::empty()
    } else {
        let rest = mapped(attributes.drop_last(), mappings);
        if is_mapped(attributes.last().0, mappings) {
            rest.push(attributes.last())
        } else {
            rest
        }
    }
}

pub open spec fn is_mapped(key: Seq<char>, mappings: Seq<OtlpAttributeMapping>) -> bool {
    exists|i: int| 0 <= i < mappings.len() && (#[trigger] mappings[i]).key@ == key
}

fn key_is_mapped(key: &str, mappings: &Vec<OtlpAttributeMapping>) -> (r: bool)
    ensures
        r == is_mapped(key@, mappings@),
{
    let mut i: usize = 0;
    while i < mappings.len()
        invariant
            i <= mappings.len(),
            forall|j: int| 0 <= j < i ==> (#[trigger] mappings@[j]).key@ != key@,
        decreases mappings.len() - i,
    {
        if same_text(mappings[i].key.as_str(), key) {
            return true;
        }
        i += 1;
    }
    false
}

/// The attributes whose keys some mapping copies.
pub fn attribute_mapping_inputs(attributes: &Vec<Attribute>, mappings: &Vec<OtlpAttributeMapping>) -> (r: Vec<Attribute>)
    ensures
        attributes_view(r@) == mapped(attributes_view(attributes@), mappings@),
{
    let ghost all = attributes_view(attributes@);
    let mut r: Vec<Attribute> = Vec::new();
    let mut i: usize = 0;
    assert(attributes_view(r@) =~= Seq::empty());
    while i < attributes.len()
        invariant
            i <= attributes.len(),
            all == attributes_view(attributes@),
            attributes_view(r@) == mapped(all.take(i as int), mappings@),
        decreases attributes.len() - i,
    {
        assert(all.take(i + 1).drop_last() =~= all.take(i as int));
        assert(all.take(i + 1).last() == attributes@[i as int].view());
        if key_is_mapped(attributes[i].key.as_str(), mappings) {
            let ghost before = r@;
            r.push(attributes[i].clone());
            assert(attributes_view(r@) =~= attributes_view(before).push(attributes@[i as int].view()));
        }
        i += 1;
    }
    assert(all.take(i as int) =~= all);
    r
}

/// What opening a span takes.
#[derive(Debug)]
pub struct StartPlan {
    pub name: String,
    pub kind: SpanKind,
    pub start: EpochOffset,
    pub parent: Option<SpanContext>,
    pub attributes: Vec<Attribute>,
}

/// What closing a span takes.
#[derive(Debug)]
pub struct EndPlan {
    pub attributes: Vec<Attribute>,
    pub end: EpochOffset,
}

/// What a mark becomes.
#[derive(Debug)]
pub enum MarkPlan {
    /// An event of the open span with this UUID.
    Event { span: u128, name: String, at: EpochOffset, attributes: Vec<Attribute> },
    /// A span of its own, without duration.
    Span { name: String, at: EpochOffset, parent: Option<SpanContext>, attributes: Vec<Attribute> },
}

impl SpanTracker {
    /// Closed spans are known exactly as long as they stand in the order, each once, and at most so many as
    /// the limit says.
    pub open spec fn valid(self) -> bool {
        &&& self.completed_order@.no_duplicates()
        &&& self.completed_order@.len() <= COMPLETED_SPAN_CONTEXT_LIMIT
        &&& forall|u: u128| #[trigger] self.completed_order@.contains(u) <==> self.completed@.contains_key(u)
    }

    /// What does not change as spans open and close.
    pub open spec fn same_options(self, other: SpanTracker) -> bool {
        &&& self.mark_projection == other.mark_projection
        &&& self.mark_exclude_names == other.mark_exclude_names
        &&& self.attribute_mappings == other.attribute_mappings
    }

    /// The span that is the parent of an event: an open one, else one that was closed and is still known.
    pub open spec fn parent_of(self, parent: Option<u128>) -> Option<SpanContext> {
        match parent {
            None => None,
            Some(u) => if self.active@.contains_key(u) {
                Some(self.active@[u].context)
            } else if self.completed@.contains_key(u) {
                Some(self.completed@[u])
            } else {
                None
            },
        }
    }

    /// Whether the parent of an event is open.
    pub open spec fn parent_is_open(self, parent: Option<u128>) -> bool {
        parent is Some && self.active@.contains_key(parent->Some_0)
    }

    pub fn new(
        mark_projection: MarkProjection,
        mark_exclude_names: Vec<String>,
        attribute_mappings: Vec<OtlpAttributeMapping>,
    ) -> (r: Self)
        ensures
            r.valid(),
            r.active@ == Map::<u128, ActiveSpan>::empty(),
            r.completed@ == Map::<u128, SpanContext>::empty(),
            r.mark_projection == mark_projection,
            r.mark_exclude_names == mark_exclude_names,
            r.attribute_mappings == attribute_mappings,
    {
        SpanTracker {
            active: HashMap::new(),
            completed: HashMap::new(),
            completed_order: VecDeque::new(),
            mark_projection,
            mark_exclude_names,
            attribute_mappings,
        }
    }

    /// The parent of an event.
    pub fn parent_context(&self, event: &Event) -> (r: Option<SpanContext>)
        ensures
            r == self.parent_of(event.parent_uuid),
    {
        match event.parent_uuid {
            None => None,
            Some(u) => match self.active.get(&u) {
                Some(span) => Some(span.context.clone()),
                None => match self.completed.get(&u) {
                    Some(context) => Some(context.clone()),
                    None => None,
                },
            },
        }
    }

    /// Forgets that a span was closed.
    pub fn remove_completed_span_context(&mut self, uuid: u128)
        requires
            old(self).valid(),
        ensures
            final(self).valid(),
            final(self).completed@ == old(self).completed@.remove(uuid),
            final(self).completed_order@ == without(old(self).completed_order@, uuid),
            final(self).active@ == old(self).active@,
            final(self).same_options(*old(self)),
    {
        let ghost order = self.completed_order@;
        self.completed.remove(&uuid);
        let mut i: usize = 0;
        while i < self.completed_order.len() && self.completed_order[i] != uuid
            invariant
                i <= self.completed_order.len(),
                self.completed_order@ == order,
                forall|j: int| 0 <= j < i ==> order[j] != uuid,
            decreases self.completed_order.len() - i,
        {
            i += 1;
        }
        proof {
            without_at(order, uuid, i as int);
            without_keeps(order, uuid);
        }
        if i < self.completed_order.len() {
            self.completed_order.remove(i);
        }
        assert(self.completed_order@ == without(order, uuid));
        assert(self.completed@ == old(self).completed@.remove(uuid));
        assert forall|u: u128| #[trigger] self.completed_order@.contains(u) <==> self.completed@.contains_key(u) by {
            assert(old(self).completed_order@.contains(u) <==> old(self).completed@.contains_key(u));
        }
    }

    /// Remembers a span that was closed; over the limit the one closed longest ago is forgotten.
    pub fn record_completed_span_context(&mut self, uuid: u128, context: SpanContext)
        requires
            old(self).valid(),
        ensures
            final(self).valid(),
            final(self).completed@ == completed_after(
                old(self).completed@,
                old(self).completed_order@,
                uuid,
                context,
            ),
            final(self).completed_order@ == order_after(old(self).completed_order@, uuid),
            final(self).active@ == old(self).active@,
            final(self).same_options(*old(self)),
    {
        let ghost order = self.completed_order@;
        let ghost completed = self.completed@;
        assert(order.contains(uuid) == completed.contains_key(uuid));
        let known = self.completed.contains_key(&uuid);
        self.completed.insert(uuid, context);
        if known {
            return;
        }
        self.completed_order.push_back(uuid);
        assert(self.completed_order@ == order.push(uuid));
        proof {
            assert forall|u: u128| order.push(uuid).contains(u) <==> order.contains(u) || u == uuid by {
                if order.contains(u) {
                    let j = choose|j: int| 0 <= j < order.len() && order[j] == u;
                    assert(order.push(uuid)[j] == u);
                }
                assert(order.push(uuid)[order.len() as int] == uuid);
            }
        }
        if self.completed_order.len() > COMPLETED_SPAN_CONTEXT_LIMIT {
            let ghost full = self.completed_order@;
            if let Some(expired) = self.completed_order.pop_front() {
                self.completed.remove(&expired);
                proof {
                    assert(expired == order[0]);
                    assert forall|u: u128| full.drop_first().contains(u) <==> full.contains(u) && u != expired by {
                        if full.drop_first().contains(u) {
                            let j = choose|j: int| 0 <= j < full.drop_first().len() && full.drop_first()[j] == u;
                            assert(full[j + 1] == u);
                            assert(full[0] != full[j + 1]);
                        }
                        if full.contains(u) && u != expired {
                            let j = choose|j: int| 0 <= j < full.len() && full[j] == u;
                            assert(full.drop_first()[j - 1] == u);
                        }
                    }
                }
            }
        }
        assert forall|u: u128| #[trigger] self.completed_order@.contains(u) <==> self.completed@.contains_key(u) by {
            assert(old(self).completed_order@.contains(u) <==> old(self).completed@.contains_key(u));
        }
    }

    /// Begins a span: forgets one of the same UUID that was closed, and says what opening it takes.
    pub fn process_start(&mut self, event: &Event) -> (r: StartPlan)
        requires
            old(self).valid(),
            event.timestamp.seconds >= 0 || event.timestamp.nanos <= 1_000_000_000,
        ensures
            final(self).valid(),
            final(self).completed@ == old(self).completed@.remove(event.uuid),
            final(self).completed_order@ == without(old(self).completed_order@, event.uuid),
            final(self).active@ == old(self).active@,
            final(self).same_options(*old(self)),
            r.name@ == event.name@,
            r.kind == kind_of(event.scope_type),
            r.start.total() == event.timestamp.total(),
            r.parent == final(self).parent_of(event.parent_uuid),
            attributes_view(r.attributes@) == start_view(*event),
    {
        self.remove_completed_span_context(event.uuid);
        StartPlan {
            name: event.name.clone(),
            kind: span_kind(event),
            start: to_system_time(event.timestamp),
            parent: self.parent_context(event),
            attributes: start_attributes(event),
        }
    }

    /// Records a span that was opened with these attributes.
    pub fn span_opened(&mut self, uuid: u128, context: &SpanContext, attributes: &Vec<Attribute>)
        requires
            old(self).valid(),
        ensures
            final(self).valid(),
            final(self).active@.dom() == old(self).active@.dom().insert(uuid),
            forall|u: u128| u != uuid && old(self).active@.contains_key(u) ==> #[trigger] final(self).active@[u] == old(
                self,
            ).active@[u],
            final(self).active@[uuid].context == (SpanContext { is_remote: false, ..*context }),
            attributes_view(final(self).active@[uuid].inputs@) == mapped(
                attributes_view(attributes@),
                old(self).attribute_mappings@,
            ),
            final(self).completed@ == old(self).completed@,
            final(self).completed_order@ == old(self).completed_order@,
            final(self).same_options(*old(self)),
    {
        let span = ActiveSpan {
            context: local_parent_span_context(context),
            inputs: attribute_mapping_inputs(attributes, &self.attribute_mappings),
        };
        self.active.insert(uuid, span);
        assert(self.active@.dom() =~= old(self).active@.dom().insert(uuid));
    }

    /// Ends a span that is open: it is remembered as closed, and closing it takes what is returned. An event
    /// that ends no open span does nothing.
    pub fn process_end(&mut self, event: &Event) -> (r: Option<EndPlan>)
        requires
            old(self).valid(),
            event.timestamp.seconds >= 0 || event.timestamp.nanos <= 1_000_000_000,
        ensures
            final(self).valid(),
            final(self).same_options(*old(self)),
            r is Some == old(self).active@.contains_key(event.uuid),
            final(self).active@ == old(self).active@.remove(event.uuid),
            match r {
                None => final(self).completed@ == old(self).completed@ && final(self).completed_order@ == old(
                    self,
                ).completed_order@,
                Some(plan) => {
                    let span = old(self).active@[event.uuid];
                    &&& final(self).completed@ == completed_after(
                        old(self).completed@,
                        old(self).completed_order@,
                        event.uuid,
                        span.context,
                    )
                    &&& final(self).completed_order@ == order_after(old(self).completed_order@, event.uuid)
                    &&& plan.end.total() == event.timestamp.total()
                    &&& attributes_view(plan.attributes@) == end_view(*event) + aliases(
                        attributes_view(span.inputs@) + end_view(*event),
                        old(self).attribute_mappings@,
                        old(self).attribute_mappings@.len() as int,
                    )
                    &&& event.optimization matches Some(summary) ==> tells_optimization(
                        attributes_view(plan.attributes@),
                        summary,
                    )
                },
            },
    {
        let span = match self.active.remove(&event.uuid) {
            None => {
                assert(self.active@ =~= old(self).active@.remove(event.uuid));
                return None;
            },
            Some(span) => span,
        };
        let ActiveSpan { context, inputs } = span;
        self.record_completed_span_context(event.uuid, context);
        let mut attributes = end_attributes(event);
        let mut projected = inputs;
        push_all(&mut projected, &attributes);
        let copies = attribute_mapping_aliases(&projected, &self.attribute_mappings);
        push_all(&mut attributes, &copies);
        let plan = EndPlan { attributes, end: to_system_time(event.timestamp) };
        proof {
            if event.optimization is Some {
                an_ended_span_tells_its_optimization(
                    *event,
                    plan,
                    attributes_view(inputs@),
                    self.attribute_mappings@,
                );
            }
        }
        Some(plan)
    }

    /// What a mark becomes: an event of its open parent, unless it is to be a span or has no open parent.
    pub fn process_mark(&self, event: &Event) -> (r: MarkPlan)
        requires
            event.timestamp.seconds >= 0 || event.timestamp.nanos <= 1_000_000_000,
        ensures
            mark_plan(*self, *event, r),
    {
        let at = to_system_time(event.timestamp);
        let parent_open: bool = match event.parent_uuid {
            Some(u) => self.active.contains_key(&u),
            None => false,
        };
        let mut attributes = mark_attributes(event);
        if effective_mark_projection(event.name.as_str(), self.mark_projection, &self.mark_exclude_names)
            == MarkProjection::Tool {
            push_text(&mut attributes, "nemo_relay.mark.projection", "tool");
            push_text(&mut attributes, "nemo_relay.scope_type", "tool");
            if !parent_open {
                push_bool(&mut attributes, "nemo_relay.mark.orphan", true);
            }
            assert(attributes_view(attributes@) =~= tool_mark_view(*event, parent_open));
            apply_attribute_mappings(&mut attributes, &self.attribute_mappings);
            return MarkPlan::Span {
                name: "mark:".to_owned().concat(event.name.as_str()),
                at,
                parent: self.parent_context(event),
                attributes,
            };
        }
        if let Some(u) = event.parent_uuid {
            if parent_open {
                apply_attribute_mappings(&mut attributes, &self.attribute_mappings);
                return MarkPlan::Event { span: u, name: event.name.clone(), at, attributes };
            }
        }
        push_bool(&mut attributes, "nemo_relay.mark.orphan", true);
        apply_attribute_mappings(&mut attributes, &self.attribute_mappings);
        MarkPlan::Span {
            name: "mark:".to_owned().concat(event.name.as_str()),
            at,
            parent: self.parent_context(event),
            attributes,
        }
    }
}

/// The attributes of a mark that is a span by configuration.
pub open spec fn tool_mark_view(event: Event, parent_open: bool) -> Seq<AttributeView> {
    let own = mark_view(event) + seq![("nemo_relay.mark.projection"@, ValueView::Text("tool"@))] + seq![
        ("nemo_relay.scope_type"@, ValueView::Text("tool"@)),
    ];
    if parent_open {
        own
    } else {
        own + seq![("nemo_relay.mark.orphan"@, ValueView::Bool(true))]
    }
}

/// Whether `plan` is what a mark becomes.
pub open spec fn mark_plan(tracker: SpanTracker, event: Event, plan: MarkPlan) -> bool {
    let parent_open = tracker.parent_is_open(event.parent_uuid);
    let projection = projection_of(event.name@, tracker.mark_projection, texts(tracker.mark_exclude_names@));
    if projection == MarkProjection::Tool || !parent_open {
        &&& plan is Span
        &&& plan->Span_name@ == "mark:"@ + event.name@
        &&& plan->Span_at.total() == event.timestamp.total()
        &&& plan->Span_parent == tracker.parent_of(event.parent_uuid)
        &&& attributes_view(plan->Span_attributes@) == with_aliases(
            if projection == MarkProjection::Tool {
                tool_mark_view(event, parent_open)
            } else {
                mark_view(event) + seq![("nemo_relay.mark.orphan"@, ValueView::Bool(true))]
            },
            tracker.attribute_mappings@,
        )
    } else {
        &&& plan is Event
        &&& plan->span == event.parent_uuid->Some_0
        &&& plan->Event_name@ == event.name@
        &&& plan->Event_at.total() == event.timestamp.total()
        &&& attributes_view(plan->Event_attributes@) == with_aliases(mark_view(event), tracker.attribute_mappings@)
    }
}

proof fn last_value_of_sum(a: Seq<AttributeView>, b: Seq<AttributeView>, key: Seq<char>)
    ensures
        last_value(a + b, key) == (match last_value(b, key) {
            Some(v) => Some(v),
            None => last_value(a, key),
        }),
    decreases b.len(),
{
    if b.len() == 0 {
        assert(a + b =~= a);
    } else {
        assert((a + b).drop_last() =~= a + b.drop_last());
        assert((a + b).last() == b.last());
        last_value_of_sum(a, b.drop_last(), key);
    }
}

proof fn mapped_keeps_values(a: Seq<AttributeView>, mappings: Seq<OtlpAttributeMapping>, key: Seq<char>)
    requires
        is_mapped(key, mappings),
    ensures
        last_value(mapped(a, mappings), key) == last_value(a, key),
    decreases a.len(),
{
    if a.len() > 0 {
        let rest = mapped(a.drop_last(), mappings);
        mapped_keeps_values(a.drop_last(), mappings, key);
        if is_mapped(a.last().0, mappings) {
            assert(rest.push(a.last()).drop_last() =~= rest);
        }
    }
}

/// The copies made at the end of a span see all its attributes, from its start and from its end, though
/// only those that some mapping copies are kept from its start.
pub proof fn copies_see_the_whole_span(
    start: Seq<AttributeView>,
    end: Seq<AttributeView>,
    mappings: Seq<OtlpAttributeMapping>,
    n: int,
)
    requires
        0 <= n <= mappings.len(),
    ensures
        aliases(mapped(start, mappings) + end, mappings, n) == aliases(start + end, mappings, n),
    decreases n,
{
    if n > 0 {
        copies_see_the_whole_span(start, end, mappings, n - 1);
        let key = mappings[n - 1].key@;
        last_value_of_sum(mapped(start, mappings), end, key);
        last_value_of_sum(start, end, key);
        mapped_keeps_values(start, mappings, key);
    }
}

/// A span that has just closed is a known parent.
pub proof fn a_closed_span_is_known(
    completed: Map<u128, SpanContext>,
    order: Seq<u128>,
    u: u128,
    context: SpanContext,
)
    requires
        order.no_duplicates(),
        forall|x: u128| #[trigger] order.contains(x) <==> completed.contains_key(x),
    ensures
        completed_after(completed, order, u, context).contains_key(u),
        completed_after(completed, order, u, context)[u] == context,
{
    if !order.contains(u) && order.len() >= COMPLETED_SPAN_CONTEXT_LIMIT {
        assert(order.contains(order[0]));
    }
}

/// When a span closes, at most one other is forgotten: the one that closed longest ago, and only where the
/// limit is reached.
pub proof fn only_the_oldest_is_forgotten(
    completed: Map<u128, SpanContext>,
    order: Seq<u128>,
    u: u128,
    context: SpanContext,
    other: u128,
)
    requires
        order.no_duplicates(),
        forall|x: u128| #[trigger] order.contains(x) <==> completed.contains_key(x),
        completed.contains_key(other),
        other != u,
    ensures
        completed_after(completed, order, u, context).contains_key(other) <==> order.contains(u) || order.len()
            < COMPLETED_SPAN_CONTEXT_LIMIT || other != order[0],
        completed_after(completed, order, u, context).contains_key(other) ==> completed_after(
            completed,
            order,
            u,
            context,
        )[other] == completed[other],
{
}

} // verus!
