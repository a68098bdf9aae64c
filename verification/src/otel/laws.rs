//! What the spans of a trace tell.

use crate::ids::{hex_digits, hyphenated};
use crate::otel::attributes::{
    aliases, attributes_view, cost_attributes, count_attribute, double_attribute, last_value, opt_attribute,
    optimization_attributes, with_aliases, AttributeView, CostSummary, LlmOptimizationSummary, OtlpAttributeMapping,
    ValueView,
};
use crate::otel::config::{
    configured_attributes, projection_of, resource_view, subscriber_error, MarkProjection, OpenTelemetryConfig,
    OpenTelemetryError, OtlpTransport,
};
use crate::otel::event::{
    cost_view, end_view, kind_of, llm_cost, mark_view, opt_uuid_text, prefix_of, scope_text, start_view, CostSources,
    EpochOffset, Event, EventPhase, Payload, ScopeType, SpanKind, Timestamp,
};
use crate::otel::metadata::{grpc_key, grpc_value_error, metadata_of};
use crate::otel::spans::{mapped, mark_plan, order_after, without, EndPlan, MarkPlan, SpanTracker};
use crate::text::texts;
use vstd::prelude::*;
use vstd::string::*;

verus! {

broadcast proof fn a_sum_holds_what_its_parts_hold(
    a: Seq<AttributeView>,
    b: Seq<AttributeView>,
    attribute: AttributeView,
)
    ensures
        #[trigger] (a + b).contains(attribute) <==> a.contains(attribute) || b.contains(attribute),
{
    if a.contains(attribute) {
        let i = choose|i: int| 0 <= i < a.len() && a[i] == attribute;
        assert((a + b)[i] == attribute);
    }
    if b.contains(attribute) {
        let i = choose|i: int| 0 <= i < b.len() && b[i] == attribute;
        assert((a + b)[a.len() + i] == attribute);
    }
}

broadcast proof fn one_holds_itself(only: AttributeView, attribute: AttributeView)
    ensures
        #[trigger] seq![only].contains(attribute) <==> attribute == only,
{
    assert(seq![only][0] == only);
}

broadcast proof fn a_text_that_may_be_there(key: Seq<char>, text: Option<Seq<char>>, attribute: AttributeView)
    ensures
        #[trigger] opt_attribute(key, text).contains(attribute) <==> attribute.0 == key && text is Some && attribute.1
            == ValueView::Text(text->Some_0),
{
    if text is Some {
        one_holds_itself((key, ValueView::Text(text->Some_0)), attribute);
    }
}

broadcast proof fn a_count_that_may_be_there(key: Seq<char>, count: Option<u64>, attribute: AttributeView)
    ensures
        #[trigger] count_attribute(key, count).contains(attribute) <==> attribute.0 == key && count is Some
            && attribute.1 == ValueView::Int(
            if count->Some_0 <= i64::MAX {
                count->Some_0 as i64
            } else {
                i64::MAX
            },
        ),
{
    if count is Some {
        one_holds_itself(count_attribute(key, count)[0], attribute);
    }
}

broadcast proof fn a_double_that_may_be_there(key: Seq<char>, bits: Option<u64>, attribute: AttributeView)
    ensures
        #[trigger] double_attribute(key, bits).contains(attribute) <==> attribute.0 == key && bits is Some
            && attribute.1 == ValueView::Double(bits->Some_0),
{
    if bits is Some {
        one_holds_itself((key, ValueView::Double(bits->Some_0)), attribute);
    }
}

proof fn cost_keys_are()
    ensures
        "nemo_relay.llm.optimization."@ + "baseline"@ + "_cost"@ == "nemo_relay.llm.optimization.baseline_cost"@,
        "nemo_relay.llm.optimization."@ + "baseline"@ + "_cost_currency"@
            == "nemo_relay.llm.optimization.baseline_cost_currency"@,
        "nemo_relay.llm.optimization."@ + "baseline"@ + "_pricing_source"@
            == "nemo_relay.llm.optimization.baseline_pricing_source"@,
        "nemo_relay.llm.optimization."@ + "baseline"@ + "_pricing_as_of"@
            == "nemo_relay.llm.optimization.baseline_pricing_as_of"@,
        "nemo_relay.llm.optimization."@ + "actual"@ + "_cost"@ == "nemo_relay.llm.optimization.actual_cost"@,
        "nemo_relay.llm.optimization."@ + "actual"@ + "_cost_currency"@
            == "nemo_relay.llm.optimization.actual_cost_currency"@,
        "nemo_relay.llm.optimization."@ + "actual"@ + "_pricing_source"@
            == "nemo_relay.llm.optimization.actual_pricing_source"@,
        "nemo_relay.llm.optimization."@ + "actual"@ + "_pricing_as_of"@
            == "nemo_relay.llm.optimization.actual_pricing_as_of"@,
{
    reveal_strlit("nemo_relay.llm.optimization.");
    reveal_strlit("baseline");
    reveal_strlit("actual");
    reveal_strlit("_cost");
    reveal_strlit("_cost_currency");
    reveal_strlit("_pricing_source");
    reveal_strlit("_pricing_as_of");
    reveal_strlit("nemo_relay.llm.optimization.baseline_cost");
    reveal_strlit("nemo_relay.llm.optimization.baseline_cost_currency");
    reveal_strlit("nemo_relay.llm.optimization.baseline_pricing_source");
    reveal_strlit("nemo_relay.llm.optimization.baseline_pricing_as_of");
    reveal_strlit("nemo_relay.llm.optimization.actual_cost");
    reveal_strlit("nemo_relay.llm.optimization.actual_cost_currency");
    reveal_strlit("nemo_relay.llm.optimization.actual_pricing_source");
    reveal_strlit("nemo_relay.llm.optimization.actual_pricing_as_of");
    assert("nemo_relay.llm.optimization."@ + "baseline"@ + "_cost"@ =~= "nemo_relay.llm.optimization.baseline_cost"@);
    assert("nemo_relay.llm.optimization."@ + "baseline"@ + "_cost_currency"@ =~= "nemo_relay.llm.optimization.baseline_cost_currency"@);
    assert("nemo_relay.llm.optimization."@ + "baseline"@ + "_pricing_source"@ =~= "nemo_relay.llm.optimization.baseline_pricing_source"@);
    assert("nemo_relay.llm.optimization."@ + "baseline"@ + "_pricing_as_of"@ =~= "nemo_relay.llm.optimization.baseline_pricing_as_of"@);
    assert("nemo_relay.llm.optimization."@ + "actual"@ + "_cost"@ =~= "nemo_relay.llm.optimization.actual_cost"@);
    assert("nemo_relay.llm.optimization."@ + "actual"@ + "_cost_currency"@ =~= "nemo_relay.llm.optimization.actual_cost_currency"@);
    assert("nemo_relay.llm.optimization."@ + "actual"@ + "_pricing_source"@ =~= "nemo_relay.llm.optimization.actual_pricing_source"@);
    assert("nemo_relay.llm.optimization."@ + "actual"@ + "_pricing_as_of"@ =~= "nemo_relay.llm.optimization.actual_pricing_as_of"@);
}

/// The attributes of an optimization summary are those of the fields that it has, each under its own key, and the
/// status; there are no others. A count that no attribute can hold is told as the largest that one can; where the
/// costs name their prices, those of the baseline are told before those of the actual cost.
pub proof fn an_optimization_is_told_field_by_field(summary: LlmOptimizationSummary, attribute: AttributeView)
    ensures
        optimization_attributes(summary).contains(attribute) <==> {
            ||| attribute.0 == "nemo_relay.llm.optimization.baseline_model"@
                && (summary.baseline_model matches Some(text) && attribute.1 == ValueView::Text(text@))
            ||| attribute.0 == "nemo_relay.llm.optimization.effective_model"@
                && (summary.effective_model matches Some(text) && attribute.1 == ValueView::Text(text@))
            ||| attribute.0 == "nemo_relay.llm.optimization.prompt_tokens_saved"@
                && (summary.prompt_tokens_saved matches Some(n) && attribute.1
                == ValueView::Int(if n <= i64::MAX { n as i64 } else { i64::MAX }))
            ||| attribute.0 == "nemo_relay.llm.optimization.total_tokens_saved"@
                && (summary.total_tokens_saved matches Some(n) && attribute.1
                == ValueView::Int(if n <= i64::MAX { n as i64 } else { i64::MAX }))
            ||| attribute.0 == "nemo_relay.llm.optimization.baseline_cost"@ && (summary.baseline_cost is Some
                && (summary.baseline_cost->Some_0.total matches Some(total) && attribute.1
                == ValueView::Double(total)))
            ||| attribute.0 == "nemo_relay.llm.optimization.baseline_cost_currency"@
                && (summary.baseline_cost is Some && attribute.1
                == ValueView::Text(summary.baseline_cost->Some_0.currency@))
            ||| attribute.0 == "nemo_relay.llm.optimization.baseline_pricing_source"@
                && (summary.baseline_cost is Some
                && (summary.baseline_cost->Some_0.pricing_source matches Some(text) && attribute.1
                == ValueView::Text(text@)))
            ||| attribute.0 == "nemo_relay.llm.optimization.baseline_pricing_as_of"@
                && (summary.baseline_cost is Some && (summary.baseline_cost->Some_0.pricing_as_of matches Some(text)
                && attribute.1 == ValueView::Text(text@)))
            ||| attribute.0 == "nemo_relay.llm.optimization.actual_cost"@ && (summary.actual_cost is Some
                && (summary.actual_cost->Some_0.total matches Some(total) && attribute.1 == ValueView::Double(total)))
            ||| attribute.0 == "nemo_relay.llm.optimization.actual_cost_currency"@ && (summary.actual_cost is Some
                && attribute.1 == ValueView::Text(summary.actual_cost->Some_0.currency@))
            ||| attribute.0 == "nemo_relay.llm.optimization.actual_pricing_source"@ && (summary.actual_cost is Some
                && (summary.actual_cost->Some_0.pricing_source matches Some(text) && attribute.1
                == ValueView::Text(text@)))
            ||| attribute.0 == "nemo_relay.llm.optimization.actual_pricing_as_of"@ && (summary.actual_cost is Some
                && (summary.actual_cost->Some_0.pricing_as_of matches Some(text) && attribute.1
                == ValueView::Text(text@)))
            ||| attribute.0 == "nemo_relay.llm.optimization.estimated_cost_saved"@
                && (summary.estimated_cost_saved matches Some(saved) && attribute.1 == ValueView::Double(saved))
            ||| attribute.0 == "nemo_relay.llm.optimization.estimated_cost_saved_currency"@
                && (summary.estimated_cost_saved is Some && (summary.currency matches Some(text) && attribute.1
                == ValueView::Text(text@)))
            ||| attribute.0 == "nemo_relay.llm.optimization.currency"@ && (summary.currency matches Some(text)
                && attribute.1 == ValueView::Text(text@))
            ||| attribute.0 == "nemo_relay.llm.optimization.status"@ && (attribute.1
                == ValueView::Text(if summary.complete { "complete"@ } else { "partial"@ }))
            ||| attribute.0 == "nemo_relay.llm.optimization.pricing_source"@ && (if summary.baseline_cost is Some
                && summary.baseline_cost->Some_0.pricing_source is Some {
                attribute.1 == ValueView::Text(summary.baseline_cost->Some_0.pricing_source->Some_0@)
            } else {
                summary.actual_cost is Some && summary.actual_cost->Some_0.pricing_source is Some && attribute.1 == ValueView::Text(
                    summary.actual_cost->Some_0.pricing_source->Some_0@,
                )
            })
            ||| attribute.0 == "nemo_relay.llm.optimization.pricing_as_of"@ && (if summary.baseline_cost is Some
                && summary.baseline_cost->Some_0.pricing_as_of is Some {
                attribute.1 == ValueView::Text(summary.baseline_cost->Some_0.pricing_as_of->Some_0@)
            } else {
                summary.actual_cost is Some && summary.actual_cost->Some_0.pricing_as_of is Some && attribute.1 == ValueView::Text(
                    summary.actual_cost->Some_0.pricing_as_of->Some_0@,
                )
            })
        },
{
    broadcast use {
        a_sum_holds_what_its_parts_hold,
        one_holds_itself,
        a_text_that_may_be_there,
        a_count_that_may_be_there,
        a_double_that_may_be_there,
    };
    cost_keys_are();
    a_cost_is_told("baseline"@, summary.baseline_cost, attribute);
    a_cost_is_told("actual"@, summary.actual_cost, attribute);
}

proof fn a_cost_is_told(what: Seq<char>, cost: Option<CostSummary>, attribute: AttributeView)
    ensures
        cost_attributes(what, cost).contains(attribute) <==> {
            let stem = "nemo_relay.llm.optimization."@ + what;
            cost is Some && {
                ||| attribute.0 == stem + "_cost"@ && cost->Some_0.total is Some && attribute.1 == ValueView::Double(
                    cost->Some_0.total->Some_0,
                )
                ||| attribute.0 == stem + "_cost_currency"@ && attribute.1 == ValueView::Text(
                    cost->Some_0.currency@,
                )
                ||| attribute.0 == stem + "_pricing_source"@ && cost->Some_0.pricing_source is Some && attribute.1
                    == ValueView::Text(cost->Some_0.pricing_source->Some_0@)
                ||| attribute.0 == stem + "_pricing_as_of"@ && cost->Some_0.pricing_as_of is Some && attribute.1
                    == ValueView::Text(cost->Some_0.pricing_as_of->Some_0@)
            }
        },
{
    broadcast use {
        a_sum_holds_what_its_parts_hold,
        one_holds_itself,
        a_text_that_may_be_there,
        a_double_that_may_be_there,
    };
}

/// Whether attributes tell an optimization: each field that it has, and its status.
pub open spec fn tells_optimization(told: Seq<AttributeView>, summary: LlmOptimizationSummary) -> bool {
    &&& summary.baseline_model matches Some(text) ==> told.contains(("nemo_relay.llm.optimization.baseline_model"@,
        ValueView::Text(text@)))
    &&& summary.effective_model matches Some(text)
        ==> told.contains(("nemo_relay.llm.optimization.effective_model"@, ValueView::Text(text@)))
    &&& summary.prompt_tokens_saved matches Some(n)
        ==> told.contains(("nemo_relay.llm.optimization.prompt_tokens_saved"@,
        ValueView::Int(if n <= i64::MAX { n as i64 } else { i64::MAX })))
    &&& summary.total_tokens_saved matches Some(n)
        ==> told.contains(("nemo_relay.llm.optimization.total_tokens_saved"@,
        ValueView::Int(if n <= i64::MAX { n as i64 } else { i64::MAX })))
    &&& summary.baseline_cost matches Some(cost) ==> {
        &&& cost.total matches Some(total) ==> told.contains(("nemo_relay.llm.optimization.baseline_cost"@,
            ValueView::Double(total)))
        &&& told.contains(("nemo_relay.llm.optimization.baseline_cost_currency"@, ValueView::Text(cost.currency@)))
        &&& cost.pricing_source matches Some(text)
            ==> told.contains(("nemo_relay.llm.optimization.baseline_pricing_source"@, ValueView::Text(text@)))
        &&& cost.pricing_as_of matches Some(text)
            ==> told.contains(("nemo_relay.llm.optimization.baseline_pricing_as_of"@, ValueView::Text(text@)))
        &&& cost.pricing_source matches Some(text)
            ==> told.contains(("nemo_relay.llm.optimization.pricing_source"@, ValueView::Text(text@)))
        &&& cost.pricing_as_of matches Some(text) ==> told.contains(("nemo_relay.llm.optimization.pricing_as_of"@,
            ValueView::Text(text@)))
    }
    &&& summary.actual_cost matches Some(cost) ==> {
        &&& cost.total matches Some(total) ==> told.contains(("nemo_relay.llm.optimization.actual_cost"@,
            ValueView::Double(total)))
        &&& told.contains(("nemo_relay.llm.optimization.actual_cost_currency"@, ValueView::Text(cost.currency@)))
        &&& cost.pricing_source matches Some(text)
            ==> told.contains(("nemo_relay.llm.optimization.actual_pricing_source"@, ValueView::Text(text@)))
        &&& cost.pricing_as_of matches Some(text)
            ==> told.contains(("nemo_relay.llm.optimization.actual_pricing_as_of"@, ValueView::Text(text@)))
        &&& (summary.baseline_cost is None || summary.baseline_cost->Some_0.pricing_source is None)
            ==> (cost.pricing_source matches Some(text)
            ==> told.contains(("nemo_relay.llm.optimization.pricing_source"@, ValueView::Text(text@))))
        &&& (summary.baseline_cost is None || summary.baseline_cost->Some_0.pricing_as_of is None)
            ==> (cost.pricing_as_of matches Some(text)
            ==> told.contains(("nemo_relay.llm.optimization.pricing_as_of"@, ValueView::Text(text@))))
    }
    &&& summary.estimated_cost_saved matches Some(saved)
        ==> told.contains(("nemo_relay.llm.optimization.estimated_cost_saved"@, ValueView::Double(saved)))
    &&& summary.estimated_cost_saved is Some ==> (summary.currency matches Some(text)
        ==> told.contains(("nemo_relay.llm.optimization.estimated_cost_saved_currency"@, ValueView::Text(text@))))
    &&& summary.currency matches Some(text) ==> told.contains(("nemo_relay.llm.optimization.currency"@,
        ValueView::Text(text@)))
    &&& told.contains(("nemo_relay.llm.optimization.status"@,
        ValueView::Text(if summary.complete { "complete"@ } else { "partial"@ })))
}

/// A span that ends with an optimization summary tells it: the plan by which it is closed has, for each field that the
/// summary has, an attribute of that name with the value of the field, and the status.
pub proof fn an_ended_span_tells_its_optimization(
    event: Event,
    plan: EndPlan,
    inputs: Seq<AttributeView>,
    mappings: Seq<OtlpAttributeMapping>,
)
    requires
        event.optimization is Some,
        attributes_view(plan.attributes@) == end_view(event) + aliases(
            inputs + end_view(event),
            mappings,
            mappings.len() as int,
        ),
    ensures
        ({
            let summary = event.optimization->Some_0;
            let told = attributes_view(plan.attributes@);
            &&& summary.baseline_model matches Some(text)
                ==> told.contains(("nemo_relay.llm.optimization.baseline_model"@, ValueView::Text(text@)))
            &&& summary.effective_model matches Some(text)
                ==> told.contains(("nemo_relay.llm.optimization.effective_model"@, ValueView::Text(text@)))
            &&& summary.prompt_tokens_saved matches Some(n)
                ==> told.contains(("nemo_relay.llm.optimization.prompt_tokens_saved"@,
                ValueView::Int(if n <= i64::MAX { n as i64 } else { i64::MAX })))
            &&& summary.total_tokens_saved matches Some(n)
                ==> told.contains(("nemo_relay.llm.optimization.total_tokens_saved"@,
                ValueView::Int(if n <= i64::MAX { n as i64 } else { i64::MAX })))
            &&& summary.baseline_cost matches Some(cost) ==> {
                &&& cost.total matches Some(total) ==> told.contains(("nemo_relay.llm.optimization.baseline_cost"@,
                    ValueView::Double(total)))
                &&& told.contains(("nemo_relay.llm.optimization.baseline_cost_currency"@,
                    ValueView::Text(cost.currency@)))
                &&& cost.pricing_source matches Some(text)
                    ==> told.contains(("nemo_relay.llm.optimization.baseline_pricing_source"@,
                    ValueView::Text(text@)))
                &&& cost.pricing_as_of matches Some(text)
                    ==> told.contains(("nemo_relay.llm.optimization.baseline_pricing_as_of"@, ValueView::Text(text@)))
                &&& cost.pricing_source matches Some(text)
                    ==> told.contains(("nemo_relay.llm.optimization.pricing_source"@, ValueView::Text(text@)))
                &&& cost.pricing_as_of matches Some(text)
                    ==> told.contains(("nemo_relay.llm.optimization.pricing_as_of"@, ValueView::Text(text@)))
            }
            &&& summary.actual_cost matches Some(cost) ==> {
                &&& cost.total matches Some(total) ==> told.contains(("nemo_relay.llm.optimization.actual_cost"@,
                    ValueView::Double(total)))
                &&& told.contains(("nemo_relay.llm.optimization.actual_cost_currency"@,
                    ValueView::Text(cost.currency@)))
                &&& cost.pricing_source matches Some(text)
                    ==> told.contains(("nemo_relay.llm.optimization.actual_pricing_source"@, ValueView::Text(text@)))
                &&& cost.pricing_as_of matches Some(text)
                    ==> told.contains(("nemo_relay.llm.optimization.actual_pricing_as_of"@, ValueView::Text(text@)))
                &&& (summary.baseline_cost is None || summary.baseline_cost->Some_0.pricing_source is None)
                    ==> (cost.pricing_source matches Some(text)
                    ==> told.contains(("nemo_relay.llm.optimization.pricing_source"@, ValueView::Text(text@))))
                &&& (summary.baseline_cost is None || summary.baseline_cost->Some_0.pricing_as_of is None)
                    ==> (cost.pricing_as_of matches Some(text)
                    ==> told.contains(("nemo_relay.llm.optimization.pricing_as_of"@, ValueView::Text(text@))))
            }
            &&& summary.estimated_cost_saved matches Some(saved)
                ==> told.contains(("nemo_relay.llm.optimization.estimated_cost_saved"@, ValueView::Double(saved)))
            &&& summary.estimated_cost_saved is Some ==> (summary.currency matches Some(text)
                ==> told.contains(("nemo_relay.llm.optimization.estimated_cost_saved_currency"@,
                ValueView::Text(text@))))
            &&& summary.currency matches Some(text) ==> told.contains(("nemo_relay.llm.optimization.currency"@,
                ValueView::Text(text@)))
            &&& told.contains(("nemo_relay.llm.optimization.status"@,
                ValueView::Text(if summary.complete { "complete"@ } else { "partial"@ })))
        }),
{
    broadcast use a_sum_holds_what_its_parts_hold;
    let summary = event.optimization->Some_0;
    let told = attributes_view(plan.attributes@);
    assert forall|attribute: AttributeView| #[trigger] optimization_attributes(summary).contains(
        attribute,
    ) implies told.contains(attribute) by {}
    assert forall|attribute: AttributeView| ({
        ||| attribute.0 == "nemo_relay.llm.optimization.baseline_model"@
            && (summary.baseline_model matches Some(text) && attribute.1 == ValueView::Text(text@))
        ||| attribute.0 == "nemo_relay.llm.optimization.effective_model"@
            && (summary.effective_model matches Some(text) && attribute.1 == ValueView::Text(text@))
        ||| attribute.0 == "nemo_relay.llm.optimization.prompt_tokens_saved"@
            && (summary.prompt_tokens_saved matches Some(n) && attribute.1
            == ValueView::Int(if n <= i64::MAX { n as i64 } else { i64::MAX }))
        ||| attribute.0 == "nemo_relay.llm.optimization.total_tokens_saved"@
            && (summary.total_tokens_saved matches Some(n) && attribute.1
            == ValueView::Int(if n <= i64::MAX { n as i64 } else { i64::MAX }))
        ||| attribute.0 == "nemo_relay.llm.optimization.baseline_cost"@ && (summary.baseline_cost is Some
            && (summary.baseline_cost->Some_0.total matches Some(total) && attribute.1 == ValueView::Double(total)))
        ||| attribute.0 == "nemo_relay.llm.optimization.baseline_cost_currency"@ && (summary.baseline_cost is Some
            && attribute.1 == ValueView::Text(summary.baseline_cost->Some_0.currency@))
        ||| attribute.0 == "nemo_relay.llm.optimization.baseline_pricing_source"@ && (summary.baseline_cost is Some
            && (summary.baseline_cost->Some_0.pricing_source matches Some(text) && attribute.1
            == ValueView::Text(text@)))
        ||| attribute.0 == "nemo_relay.llm.optimization.baseline_pricing_as_of"@ && (summary.baseline_cost is Some
            && (summary.baseline_cost->Some_0.pricing_as_of matches Some(text) && attribute.1
            == ValueView::Text(text@)))
        ||| attribute.0 == "nemo_relay.llm.optimization.actual_cost"@ && (summary.actual_cost is Some
            && (summary.actual_cost->Some_0.total matches Some(total) && attribute.1 == ValueView::Double(total)))
        ||| attribute.0 == "nemo_relay.llm.optimization.actual_cost_currency"@ && (summary.actual_cost is Some
            && attribute.1 == ValueView::Text(summary.actual_cost->Some_0.currency@))
        ||| attribute.0 == "nemo_relay.llm.optimization.actual_pricing_source"@ && (summary.actual_cost is Some
            && (summary.actual_cost->Some_0.pricing_source matches Some(text) && attribute.1
            == ValueView::Text(text@)))
        ||| attribute.0 == "nemo_relay.llm.optimization.actual_pricing_as_of"@ && (summary.actual_cost is Some
            && (summary.actual_cost->Some_0.pricing_as_of matches Some(text) && attribute.1
            == ValueView::Text(text@)))
        ||| attribute.0 == "nemo_relay.llm.optimization.estimated_cost_saved"@
            && (summary.estimated_cost_saved matches Some(saved) && attribute.1 == ValueView::Double(saved))
        ||| attribute.0 == "nemo_relay.llm.optimization.estimated_cost_saved_currency"@
            && (summary.estimated_cost_saved is Some && (summary.currency matches Some(text) && attribute.1
            == ValueView::Text(text@)))
        ||| attribute.0 == "nemo_relay.llm.optimization.currency"@ && (summary.currency matches Some(text)
            && attribute.1 == ValueView::Text(text@))
        ||| attribute.0 == "nemo_relay.llm.optimization.status"@ && (attribute.1
            == ValueView::Text(if summary.complete { "complete"@ } else { "partial"@ }))
        ||| attribute.0 == "nemo_relay.llm.optimization.pricing_source"@ && (if summary.baseline_cost is Some
            && summary.baseline_cost->Some_0.pricing_source is Some {
            attribute.1 == ValueView::Text(summary.baseline_cost->Some_0.pricing_source->Some_0@)
        } else {
            summary.actual_cost is Some && summary.actual_cost->Some_0.pricing_source is Some && attribute.1 == ValueView::Text(
                summary.actual_cost->Some_0.pricing_source->Some_0@,
            )
        })
        ||| attribute.0 == "nemo_relay.llm.optimization.pricing_as_of"@ && (if summary.baseline_cost is Some
            && summary.baseline_cost->Some_0.pricing_as_of is Some {
            attribute.1 == ValueView::Text(summary.baseline_cost->Some_0.pricing_as_of->Some_0@)
        } else {
            summary.actual_cost is Some && summary.actual_cost->Some_0.pricing_as_of is Some && attribute.1 == ValueView::Text(
                summary.actual_cost->Some_0.pricing_as_of->Some_0@,
            )
        })
    }) implies #[trigger] told.contains(attribute) by {
        an_optimization_is_told_field_by_field(summary, attribute);
    }
}

/// A span ends with what the event that ends it holds: its data, its metadata and its output; the cost, where the event
/// is that of a model call and a cost is known; the optimization, where there is one; and nothing else.
pub proof fn a_span_ends_with_what_its_event_holds(event: Event, attribute: AttributeView)
    ensures
        end_view(event).contains(attribute) <==> {
            ||| attributes_view(event.data@).contains(attribute)
            ||| attributes_view(event.metadata@).contains(attribute)
            ||| attributes_view(event.output@).contains(attribute)
            ||| event.category is Some && event.category->Some_0@ == "llm"@ && llm_cost(event.cost) is Some && {
                ||| attribute == ("nemo_relay.llm.cost.total"@, ValueView::Double(llm_cost(event.cost)->Some_0.0))
                ||| attribute == ("nemo_relay.llm.cost.currency"@, ValueView::Text(llm_cost(event.cost)->Some_0.1))
            }
            ||| event.optimization is Some && optimization_attributes(event.optimization->Some_0).contains(attribute)
        },
{
    broadcast use a_sum_holds_what_its_parts_hold;
    if event.category is Some && event.category->Some_0@ == "llm"@ && llm_cost(event.cost) is Some {
        let cost = llm_cost(event.cost)->Some_0;
        let both = seq![
            ("nemo_relay.llm.cost.total"@, ValueView::Double(cost.0)),
            ("nemo_relay.llm.cost.currency"@, ValueView::Text(cost.1)),
        ];
        assert(both[0] == ("nemo_relay.llm.cost.total"@, ValueView::Double(cost.0)));
        assert(both[1] == ("nemo_relay.llm.cost.currency"@, ValueView::Text(cost.1)));
        assert(cost_view(event) == both);
    }
}

/// The surest source that is there decides what a model call cost, even where it knows no total: what the response
/// reports, then what is estimated from it, then what the raw output gives, then what is estimated from that.
pub proof fn the_surest_source_tells_the_cost(cost: CostSources)
    ensures
        cost.reported matches Some(known) ==> match known.total {
            Some(total) => llm_cost(cost) == Some((total, known.currency@)),
            None => llm_cost(cost) is None,
        },
        cost.reported is None ==> (cost.estimated matches Some(known) ==> match known.total {
            Some(total) => llm_cost(cost) == Some((total, known.currency@)),
            None => llm_cost(cost) is None,
        }),
        cost.reported is None && cost.estimated is None ==> (cost.manual matches Some(given) ==> llm_cost(cost)
            == Some(
            (given.0, given.1@),
        )),
        cost.reported is None && cost.estimated is None && cost.manual is None ==> match cost.manual_estimated {
            Some(known) => match known.total {
                Some(total) => llm_cost(cost) == Some((total, known.currency@)),
                None => llm_cost(cost) is None,
            },
            None => llm_cost(cost) is None,
        },
{
}

/// A span begins with what the event that begins it holds: its UUID, that of its parent (empty where it has none), what
/// the scope does, the model and the tool call where they are named, then its attributes, data, metadata and input;
/// and nothing else.
pub proof fn a_span_begins_with_what_its_event_holds(event: Event, attribute: AttributeView)
    ensures
        start_view(event).contains(attribute) <==> {
            ||| attribute == ("nemo_relay.uuid"@, ValueView::Text(hyphenated(event.uuid)))
            ||| attribute == (
                "nemo_relay.parent_uuid"@,
                ValueView::Text(
                    match event.parent_uuid {
                        Some(uuid) => hyphenated(uuid),
                        None => Seq::empty(),
                    },
                ),
            )
            ||| attribute == ("nemo_relay.scope_type"@, ValueView::Text(scope_text(event.scope_type)))
            ||| event.model_name is Some && attribute == (
                "nemo_relay.model_name"@,
                ValueView::Text(event.model_name->Some_0@),
            )
            ||| event.tool_call_id is Some && attribute == (
                "nemo_relay.tool_call_id"@,
                ValueView::Text(event.tool_call_id->Some_0@),
            )
            ||| attributes_view(event.attributes@).contains(attribute)
            ||| attributes_view(event.data@).contains(attribute)
            ||| attributes_view(event.metadata@).contains(attribute)
            ||| attributes_view(event.input@).contains(attribute)
        },
{
    broadcast use {a_sum_holds_what_its_parts_hold, a_text_that_may_be_there};
    let named = seq![
        ("nemo_relay.uuid"@, ValueView::Text(hyphenated(event.uuid))),
        ("nemo_relay.parent_uuid"@, ValueView::Text(opt_uuid_text(event.parent_uuid))),
        ("nemo_relay.scope_type"@, ValueView::Text(scope_text(event.scope_type))),
    ];
    assert(named[0].0 == "nemo_relay.uuid"@ && named[1].0 == "nemo_relay.parent_uuid"@ && named[2].0
        == "nemo_relay.scope_type"@);
    if named.contains(attribute) {
        let i = choose|i: int| 0 <= i < named.len() && named[i] == attribute;
        assert(i == 0 || i == 1 || i == 2);
    }
}

/// A mark tells its UUID and that of its parent (empty where it has none), its category where it has one, and what its
/// event holds; and nothing else.
pub proof fn a_mark_tells_what_its_event_holds(event: Event, attribute: AttributeView)
    ensures
        mark_view(event).contains(attribute) <==> {
            ||| attribute == ("nemo_relay.mark.uuid"@, ValueView::Text(hyphenated(event.uuid)))
            ||| attribute == (
                "nemo_relay.mark.parent_uuid"@,
                ValueView::Text(
                    match event.parent_uuid {
                        Some(uuid) => hyphenated(uuid),
                        None => Seq::empty(),
                    },
                ),
            )
            ||| event.category is Some && attribute == (
                "nemo_relay.mark.category"@,
                ValueView::Text(event.category->Some_0@),
            )
            ||| attributes_view(event.attributes@).contains(attribute)
            ||| attributes_view(event.data@).contains(attribute)
            ||| attributes_view(event.metadata@).contains(attribute)
            ||| attributes_view(event.category_profile@).contains(attribute)
        },
{
    broadcast use {a_sum_holds_what_its_parts_hold, a_text_that_may_be_there};
    let named = seq![
        ("nemo_relay.mark.uuid"@, ValueView::Text(hyphenated(event.uuid))),
        ("nemo_relay.mark.parent_uuid"@, ValueView::Text(opt_uuid_text(event.parent_uuid))),
    ];
    assert(named[0].0 == "nemo_relay.mark.uuid"@ && named[1].0 == "nemo_relay.mark.parent_uuid"@);
    if named.contains(attribute) {
        let i = choose|i: int| 0 <= i < named.len() && named[i] == attribute;
        assert(i == 0 || i == 1);
    }
}

/// A scope is told by its own name, one that no other kind of scope has, and by `unknown` where it is not known.
pub proof fn a_scope_is_told_by_its_name(scope: ScopeType)
    ensures
        scope_text(None) == "unknown"@,
        scope_text(Some(scope)) == (match scope {
            ScopeType::Agent => "agent"@,
            ScopeType::Function => "function"@,
            ScopeType::Tool => "tool"@,
            ScopeType::Llm => "llm"@,
            ScopeType::Retriever => "retriever"@,
            ScopeType::Embedder => "embedder"@,
            ScopeType::Reranker => "reranker"@,
            ScopeType::Guardrail => "guardrail"@,
            ScopeType::Evaluator => "evaluator"@,
            ScopeType::Custom => "custom"@,
            ScopeType::Unknown => "unknown"@,
        }),
{
}

/// Spans of scopes that call a service, which are model and tool calls, retrievers, embedders and rerankers, are those
/// of a client; all others are internal.
pub proof fn only_calls_are_client_spans(scope: Option<ScopeType>)
    ensures
        kind_of(scope) == SpanKind::Client <==> {
            ||| scope == Some(ScopeType::Llm)
            ||| scope == Some(ScopeType::Tool)
            ||| scope == Some(ScopeType::Retriever)
            ||| scope == Some(ScopeType::Embedder)
            ||| scope == Some(ScopeType::Reranker)
        },
{
}

/// A UUID is told by its 32 hexadecimal digits, with a hyphen behind the 8th, 12th, 16th and 20th.
pub proof fn a_uuid_is_told_in_groups(n: u128)
    ensures
        hyphenated(n).len() == 36,
        hyphenated(n)[8] == '-',
        hyphenated(n)[13] == '-',
        hyphenated(n)[18] == '-',
        hyphenated(n)[23] == '-',
{
    digits_are_as_many(n as nat, 32);
    reveal_strlit("-");
}

proof fn digits_are_as_many(n: nat, len: nat)
    ensures
        hex_digits(n, len).len() == len,
    decreases len,
{
    if len > 0 {
        digits_are_as_many(n / 16, (len - 1) as nat);
    }
}

/// The value of a key is that of the last attribute which has the key.
pub proof fn the_last_attribute_counts(attributes: Seq<AttributeView>, key: Seq<char>)
    ensures
        match last_value(attributes, key) {
            Some(value) => exists|i: int|
                0 <= i < attributes.len() && #[trigger] attributes[i] == (key, value) && forall|j: int|
                    i < j < attributes.len() ==> (#[trigger] attributes[j]).0 != key,
            None => forall|j: int| 0 <= j < attributes.len() ==> (#[trigger] attributes[j]).0 != key,
        },
    decreases attributes.len(),
{
    if attributes.len() > 0 {
        let last = attributes.len() - 1;
        if attributes[last].0 == key {
            assert(attributes[last] == (key, attributes[last].1));
        } else {
            let front = attributes.drop_last();
            the_last_attribute_counts(front, key);
            if let Some(value) = last_value(front, key) {
                let i = choose|i: int|
                    0 <= i < front.len() && #[trigger] front[i] == (key, value) && forall|j: int|
                        i < j < front.len() ==> (#[trigger] front[j]).0 != key;
                assert(attributes[i] == (key, value));
                assert forall|j: int| i < j < attributes.len() implies (#[trigger] attributes[j]).0 != key by {
                    if j < front.len() {
                        assert(front[j].0 != key);
                    }
                }
            } else {
                assert forall|j: int| 0 <= j < attributes.len() implies (#[trigger] attributes[j]).0 != key by {
                    if j < front.len() {
                        assert(front[j].0 != key);
                    }
                }
            }
        }
    }
}

/// Mappings copy, under its other name, the last value of each mapped key that is there, and nothing else.
pub proof fn mappings_copy_the_last_value(
    attributes: Seq<AttributeView>,
    mappings: Seq<OtlpAttributeMapping>,
    n: int,
    attribute: AttributeView,
)
    requires
        0 <= n <= mappings.len(),
    ensures
        aliases(attributes, mappings, n).contains(attribute) <==> exists|i: int|
            0 <= i < n && (#[trigger] mappings[i]).alias@ == attribute.0 && last_value(attributes, mappings[i].key@)
                == Some(attribute.1),
    decreases n,
{
    broadcast use {a_sum_holds_what_its_parts_hold, one_holds_itself};
    if n > 0 {
        mappings_copy_the_last_value(attributes, mappings, n - 1, attribute);
        let last = mappings[n - 1];
        let own = match last_value(attributes, last.key@) {
            Some(value) => seq![(last.alias@, value)],
            None => Seq::empty(),
        };
        assert(aliases(attributes, mappings, n) == aliases(attributes, mappings, n - 1) + own);
        if own.contains(attribute) {
            assert(mappings[n - 1].alias@ == attribute.0);
        }
        if mappings[n - 1].alias@ == attribute.0 && last_value(attributes, mappings[n - 1].key@)
            == Some(attribute.1) {
            assert(own == seq![(last.alias@, attribute.1)]);
            assert(own.contains(attribute));
        }
        if exists|i: int|
            0 <= i < n && (#[trigger] mappings[i]).alias@ == attribute.0 && last_value(attributes, mappings[i].key@)
                == Some(attribute.1) {
            let i = choose|i: int|
                0 <= i < n && (#[trigger] mappings[i]).alias@ == attribute.0 && last_value(attributes,
                    mappings[i].key@)
                    == Some(attribute.1);
            assert(i < n - 1 || i == n - 1);
        }
    }
}

/// Copies are added behind the attributes that they are made of, which stay as they are.
pub proof fn mappings_add_to_what_is_there(attributes: Seq<AttributeView>, mappings: Seq<OtlpAttributeMapping>)
    ensures
        attributes.len() <= with_aliases(attributes, mappings).len(),
        with_aliases(attributes, mappings).take(attributes.len() as int) == attributes,
{
    assert(with_aliases(attributes, mappings).take(attributes.len() as int) =~= attributes);
}

/// Of the attributes from the start of a span exactly those are kept for its end whose keys some mapping copies.
pub proof fn mapped_attributes_are_kept(
    attributes: Seq<AttributeView>,
    mappings: Seq<OtlpAttributeMapping>,
    attribute: AttributeView,
)
    ensures
        mapped(attributes, mappings).contains(attribute) <==> attributes.contains(attribute) && exists|i: int|
            0 <= i < mappings.len() && (#[trigger] mappings[i]).key@ == attribute.0,
    decreases attributes.len(),
{
    if attributes.len() > 0 {
        let front = attributes.drop_last();
        let last = attributes.last();
        mapped_attributes_are_kept(front, mappings, attribute);
        let rest = mapped(front, mappings);
        assert(attributes =~= front + seq![last]);
        assert(rest.push(last) =~= rest + seq![last]);
        broadcast use {a_sum_holds_what_its_parts_hold, one_holds_itself};
        assert(attributes.contains(attribute) <==> front.contains(attribute) || attribute == last);
        assert(rest.push(last).contains(attribute) <==> rest.contains(attribute) || attribute == last);
    }
}

/// A mark becomes a span of its own where it is to be shown as a tool and is not excluded by its name, or where its
/// parent is not open; it then says which, and its parent is the span of that UUID, open or closed, where one is known.
/// Any other mark becomes an event of its open parent.
pub proof fn a_mark_belongs_to_its_open_parent(tracker: SpanTracker, event: Event, plan: MarkPlan,
    attribute: AttributeView)
    requires
        mark_plan(tracker, event, plan),
    ensures
        ({
            let shown = tracker.mark_projection == MarkProjection::Tool
                && !texts(tracker.mark_exclude_names@).contains(
                event.name@,
            );
            let open = event.parent_uuid is Some && tracker.active@.contains_key(event.parent_uuid->Some_0);
            &&& plan is Span <==> shown || !open
            &&& plan matches MarkPlan::Event { span, name, at, attributes } ==> {
                &&& span == event.parent_uuid->Some_0
                &&& name@ == event.name@
                &&& at.total() == event.timestamp.total()
                &&& mark_view(event).contains(attribute) ==> attributes_view(attributes@).contains(attribute)
            }
            &&& plan matches MarkPlan::Span { name, at, parent, attributes } ==> {
                let told = attributes_view(attributes@);
                &&& name@ == "mark:"@ + event.name@
                &&& at.total() == event.timestamp.total()
                &&& event.parent_uuid is None ==> parent is None
                &&& event.parent_uuid matches Some(uuid) ==> parent == (if tracker.active@.contains_key(uuid) {
                    Some(tracker.active@[uuid].context)
                } else if tracker.completed@.contains_key(uuid) {
                    Some(tracker.completed@[uuid])
                } else {
                    None
                })
                &&& mark_view(event).contains(attribute) ==> told.contains(attribute)
                &&& shown ==> told.contains(("nemo_relay.mark.projection"@, ValueView::Text("tool"@)))
                &&& shown ==> told.contains(("nemo_relay.scope_type"@, ValueView::Text("tool"@)))
                &&& !open ==> told.contains(("nemo_relay.mark.orphan"@, ValueView::Bool(true)))
            }
        }),
{
    broadcast use {a_sum_holds_what_its_parts_hold, one_holds_itself};
    if plan is Span {
        let told = attributes_view(plan->Span_attributes@);
        assert(told.contains(("nemo_relay.mark.orphan"@, ValueView::Bool(true))) || tracker.parent_is_open(
            event.parent_uuid,
        ));
    }
}

/// The spans of a service belong to a resource that tells its name, its namespace and version where they are
/// configured, every configured attribute, and nothing else.
pub proof fn the_resource_tells_the_service(config: OpenTelemetryConfig, attribute: AttributeView)
    ensures
        resource_view(config).contains(attribute) <==> {
            ||| attribute == ("service.name"@, ValueView::Text(config.service_name@))
            ||| config.service_namespace is Some && attribute == (
                "service.namespace"@,
                ValueView::Text(config.service_namespace->Some_0@),
            )
            ||| config.service_version is Some && attribute == (
                "service.version"@,
                ValueView::Text(config.service_version->Some_0@),
            )
            ||| exists|i: int|
                0 <= i < config.resource_attributes.view().len() && (
                #[trigger] config.resource_attributes.view()[i]).0 == attribute.0 && attribute.1 == ValueView::Text(
                    config.resource_attributes.view()[i].1,
                )
        },
{
    broadcast use {a_sum_holds_what_its_parts_hold, one_holds_itself, a_text_that_may_be_there};
    let entries = config.resource_attributes.view();
    let own = configured_attributes(entries);
    if own.contains(attribute) {
        let i = choose|i: int| 0 <= i < own.len() && own[i] == attribute;
        assert(entries[i].0 == attribute.0);
    }
    if exists|i: int|
        0 <= i < entries.len() && (#[trigger] entries[i]).0 == attribute.0 && attribute.1 == ValueView::Text(
            entries[i].1,
        ) {
        let i = choose|i: int|
            0 <= i < entries.len() && (#[trigger] entries[i]).0 == attribute.0 && attribute.1 == ValueView::Text(
                entries[i].1,
            );
        assert(own[i] == attribute);
    }
}

/// A subscriber can be built unless it exports by gRPC with no runtime there, or its mappings are wrong.
pub proof fn a_subscriber_needs_a_runtime_for_grpc(
    config: OpenTelemetryConfig,
    in_runtime: bool,
    mappings: Result<(), String>,
)
    ensures
        subscriber_error(config, in_runtime, mappings) is None <==> (config.transport == OtlpTransport::HttpBinary
            || in_runtime) && mappings is Ok,
        config.transport == OtlpTransport::Grpc && !in_runtime ==> subscriber_error(config, in_runtime, mappings)
            == Some("the OTLP gRPC exporter requires an active Tokio runtime"@),
        (config.transport == OtlpTransport::HttpBinary || in_runtime) ==> (mappings matches Err(message)
            ==> subscriber_error(config, in_runtime, mappings) == Some("invalid attribute mappings: "@ + message@)),
{
}

/// The parent of an event is the open span of that UUID, or else one that was closed and is still known.
pub proof fn the_parent_is_open_or_still_known(tracker: SpanTracker, parent: Option<u128>)
    ensures
        parent is None ==> tracker.parent_of(parent) is None,
        parent matches Some(uuid) ==> {
            &&& tracker.active@.contains_key(uuid) ==> tracker.parent_of(parent)
                == Some(tracker.active@[uuid].context)
            &&& !tracker.active@.contains_key(uuid) && tracker.completed@.contains_key(uuid)
                ==> tracker.parent_of(parent)
                == Some(tracker.completed@[uuid])
            &&& !tracker.active@.contains_key(uuid) && !tracker.completed@.contains_key(uuid) ==> tracker.parent_of(
                parent,
            ) is None
        },
        tracker.parent_is_open(parent) <==> parent is Some && tracker.active@.contains_key(parent->Some_0),
{
}

/// The options of a tracker are its projection, the marks that it excludes and its mappings.
pub proof fn the_options_are_all_kept(tracker: SpanTracker, other: SpanTracker)
    ensures
        tracker.same_options(other) <==> {
            &&& tracker.mark_projection == other.mark_projection
            &&& tracker.mark_exclude_names == other.mark_exclude_names
            &&& tracker.attribute_mappings == other.attribute_mappings
        },
{
}

/// A span that begins again is closed no more; the other closed spans stay, in their order.
pub proof fn a_span_that_begins_again_is_closed_no_more(order: Seq<u128>, uuid: u128)
    requires
        order.no_duplicates(),
    ensures
        without(order, uuid) == order.filter(|other: u128| other != uuid),
    decreases order.len(),
{
    let keep = |other: u128| other != uuid;
    reveal(Seq::filter);
    if order.len() > 0 {
        let rest = order.drop_first();
        assert(rest.no_duplicates()) by {
            assert forall|i: int, j: int| 0 <= i < rest.len() && 0 <= j < rest.len() && i != j
                implies rest[i] != rest[j] by {
                assert(rest[i] == order[i + 1] && rest[j] == order[j + 1]);
            }
        }
        a_span_that_begins_again_is_closed_no_more(rest, uuid);
        assert(order =~= seq![order[0]] + rest);
        Seq::filter_distributes_over_add(seq![order[0]], rest, keep);
        assert(seq![order[0]].drop_last() =~= Seq::empty());
        assert(Seq::<u128>::empty().filter(keep) =~= Seq::empty());
        if order[0] == uuid {
            assert(seq![order[0]].filter(keep) =~= Seq::empty());
            assert forall|i: int| 0 <= i < rest.len() implies rest[i] != uuid by {
                assert(order[0] != order[i + 1]);
            }
            all_are_kept(rest, uuid);
            assert(order.filter(keep) =~= rest);
        } else {
            assert(seq![order[0]].filter(keep) =~= seq![order[0]]);
        }
    } else {
        assert(order.filter(keep) =~= order);
    }
}

proof fn all_are_kept(order: Seq<u128>, uuid: u128)
    requires
        forall|i: int| 0 <= i < order.len() ==> order[i] != uuid,
    ensures
        order.filter(|other: u128| other != uuid) == order,
    decreases order.len(),
{
    let keep = |other: u128| other != uuid;
    reveal(Seq::filter);
    if order.len() > 0 {
        all_are_kept(order.drop_last(), uuid);
        assert(order =~= order.drop_last().push(order.last()));
        assert(order[order.len() - 1] != uuid);
    } else {
        assert(order.filter(keep) =~= order);
    }
}

/// A span that closes is the last of the closed ones, unless it is one of them already; where there are as many as are
/// kept, the first goes.
pub proof fn a_closing_span_is_the_last_closed_one(order: Seq<u128>, uuid: u128)
    requires
        order.len() <= 4096,
    ensures
        order.contains(uuid) ==> order_after(order, uuid) == order,
        !order.contains(uuid) && order.len() < 4096 ==> order_after(order, uuid) == order.push(uuid),
        !order.contains(uuid) && order.len() == 4096 ==> order_after(order, uuid) == order.drop_first().push(uuid),
        order_after(order, uuid).len() <= 4096,
{
    if !order.contains(uuid) && order.len() == 4096 {
        assert(order.push(uuid).drop_first() =~= order.drop_first().push(uuid));
    }
}

/// What a payload projects to begins with the phase of its event and its own name. A payload that an event of this phase
/// does not have projects to nothing.
pub proof fn payloads_are_told_under_their_phase(phase: EventPhase, payload: Payload)
    ensures
        prefix_of(phase, payload) == (match phase {
            EventPhase::Start => match payload {
                Payload::Attributes => Some("nemo_relay.handle_attributes"@),
                Payload::Data => Some("nemo_relay.start.data"@),
                Payload::Metadata => Some("nemo_relay.start.metadata"@),
                Payload::Input => Some("nemo_relay.start.input"@),
                _ => None,
            },
            EventPhase::End => match payload {
                Payload::Data => Some("nemo_relay.end.data"@),
                Payload::Metadata => Some("nemo_relay.end.metadata"@),
                Payload::Output => Some("nemo_relay.end.output"@),
                _ => None,
            },
            EventPhase::Mark => match payload {
                Payload::Attributes => Some("nemo_relay.mark.attributes"@),
                Payload::Data => Some("nemo_relay.mark.data"@),
                Payload::Metadata => Some("nemo_relay.mark.metadata"@),
                Payload::CategoryProfile => Some("nemo_relay.mark.category_profile"@),
                _ => None,
            },
        }),
{
}

/// An offset in time tells as many nanoseconds as the point in time is away from the beginning of 1970, before or after.
pub proof fn an_offset_is_as_long_as_its_time(offset: EpochOffset, timestamp: Timestamp)
    ensures
        offset.before ==> offset.total() == -(offset.seconds as int * 1_000_000_000 + offset.nanos as int),
        !offset.before ==> offset.total() == offset.seconds as int * 1_000_000_000 + offset.nanos as int,
        timestamp.total() == timestamp.seconds as int * 1_000_000_000 + timestamp.nanos as int,
{
}

/// A mark that is excluded by its name stays an event; any other is shown as it is configured.
pub proof fn excluded_marks_stay_events(name: Seq<char>, projection: MarkProjection, excluded: Seq<Seq<char>>)
    ensures
        projection_of(name, projection, excluded) == MarkProjection::Tool <==> projection == MarkProjection::Tool
            && !(exists|i: int| 0 <= i < excluded.len() && excluded[i] == name),
{
}

/// A configuration that was not changed exports to the default endpoint, without headers, as the relay's own scope, shows
/// marks as events but for chunks of models, and gives an export three seconds.
pub proof fn a_plain_configuration_overrides_nothing(
    config: OpenTelemetryConfig,
    service_name: Seq<char>,
    transport: OtlpTransport,
)
    requires
        config.is_plain(service_name, transport),
    ensures
        config.endpoint is None,
        config.headers.view().len() == 0,
        config.resource_attributes.view().len() == 0,
        config.service_name@ == service_name,
        config.service_namespace is None,
        config.service_version is None,
        config.instrumentation_scope@ == "nemo-relay-otel"@,
        config.mark_projection == MarkProjection::Event,
        config.mark_exclude_names@.len() == 1,
        config.mark_exclude_names@[0]@ == "llm.chunk"@,
        config.attribute_mappings@.len() == 0,
        config.timeout == crate::otel::config::seconds_duration(3),
        config.transport == transport,
{
    assert(texts(config.mark_exclude_names@).len() == 1);
    assert(texts(config.mark_exclude_names@)[0] == "llm.chunk"@);
}

/// An error of the exporter is told in words that say what failed.
pub proof fn an_exporter_error_tells_what_failed(error: OpenTelemetryError)
    ensures
        error.text() == (match error {
            OpenTelemetryError::MissingTokioRuntime => "the OTLP gRPC exporter requires an active Tokio runtime"@,
            OpenTelemetryError::InvalidGrpcHeader { key, message } => "invalid OTLP gRPC header "@
                + crate::text::debug_text(key@) + ": "@ + message@,
            OpenTelemetryError::ExporterBuild(message) => "failed to build the OTLP exporter: "@ + message@,
            OpenTelemetryError::Provider(message) => "OpenTelemetry tracer provider error: "@ + message@,
            OpenTelemetryError::InvalidAttributeMappings(message) => "invalid attribute mappings: "@ + message@,
            OpenTelemetryError::Core(message) => message@,
        }),
{
}

/// The metadata of an export can be made exactly where every header can stand in it; each header then has its value,
/// unless a later one of the same key takes its place.
pub proof fn metadata_holds_every_header(headers: Seq<(Seq<char>, Seq<char>)>, n: int, i: int)
    requires
        0 <= i < n <= headers.len(),
    ensures
        metadata_of(headers, n) is Some ==> {
            &&& grpc_key(headers[i].0) is Ok
            &&& grpc_value_error(headers[i].1) is None
            &&& metadata_of(headers, n)->Some_0.contains_key(grpc_key(headers[i].0)->Ok_0)
            &&& (forall|j: int| i < j < n ==> grpc_key((#[trigger] headers[j]).0) != grpc_key(headers[i].0))
                ==> metadata_of(headers, n)->Some_0[grpc_key(headers[i].0)->Ok_0] == headers[i].1
        },
    decreases n,
{
    if metadata_of(headers, n) is Some && i < n - 1 {
        metadata_holds_every_header(headers, n - 1, i);
        let last = headers[n - 1];
        if forall|j: int| i < j < n ==> grpc_key((#[trigger] headers[j]).0) != grpc_key(headers[i].0) {
            assert(grpc_key(last.0) != grpc_key(headers[i].0));
        }
    }
}

/// Headers that can all stand in metadata make some, and it holds no key that none of them has.
pub proof fn right_headers_make_metadata(headers: Seq<(Seq<char>, Seq<char>)>, n: int, key: Seq<char>)
    requires
        0 <= n <= headers.len(),
        forall|i: int|
            #![trigger headers[i]]
            0 <= i < n ==> grpc_key(headers[i].0) is Ok && grpc_value_error(headers[i].1) is None,
    ensures
        metadata_of(headers, n) is Some,
        metadata_of(headers, n)->Some_0.contains_key(key) ==> exists|i: int|
            0 <= i < n && grpc_key((#[trigger] headers[i]).0) == Ok::<Seq<char>, Seq<char>>(key),
    decreases n,
{
    if n > 0 {
        right_headers_make_metadata(headers, n - 1, key);
        let last = headers[n - 1];
        assert(grpc_key(last.0) is Ok);
        if metadata_of(headers, n)->Some_0.contains_key(key) {
            if metadata_of(headers, n - 1)->Some_0.contains_key(key) {
                let i = choose|i: int|
                    0 <= i < n - 1 && grpc_key((#[trigger] headers[i]).0) == Ok::<Seq<char>, Seq<char>>(key);
                assert(grpc_key(headers[i].0) == Ok::<Seq<char>, Seq<char>>(key));
            } else {
                assert(grpc_key(headers[n - 1].0) == Ok::<Seq<char>, Seq<char>>(key));
            }
        }
    }
}

/// Payloads are told in a fixed order, so that of two attributes with one key the later payload's is the last: at the start
/// of a span its attributes, data, metadata and input come last, in this order; at its end its data, metadata and output
/// come first; and in a mark its attributes, data and metadata follow on the two UUIDs.
pub proof fn payloads_are_told_in_order(event: Event)
    ensures
        ({
            let own = attributes_view(event.attributes@) + attributes_view(event.data@) + attributes_view(
                event.metadata@,
            ) + attributes_view(event.input@);
            let whole = start_view(event);
            own.len() <= whole.len() && whole.skip(whole.len() - own.len()) == own
        }),
        ({
            let own = attributes_view(event.data@) + attributes_view(event.metadata@) + attributes_view(event.output@);
            own.len() <= end_view(event).len() && end_view(event).take(own.len() as int) == own
        }),
        ({
            let own = attributes_view(event.attributes@) + attributes_view(event.data@) + attributes_view(event.metadata@);
            own.len() + 2 <= mark_view(event).len() && mark_view(event).subrange(2, 2 + own.len() as int) == own
        }),
{
    let start = attributes_view(event.attributes@) + attributes_view(event.data@) + attributes_view(event.metadata@)
        + attributes_view(event.input@);
    let whole = start_view(event);
    assert(whole.skip(whole.len() - start.len()) =~= start);
    let end = attributes_view(event.data@) + attributes_view(event.metadata@) + attributes_view(event.output@);
    assert(end_view(event).take(end.len() as int) =~= end);
    let mark = attributes_view(event.attributes@) + attributes_view(event.data@) + attributes_view(event.metadata@);
    assert(mark_view(event).subrange(2, 2 + mark.len() as int) =~= mark);
}

} // verus!
