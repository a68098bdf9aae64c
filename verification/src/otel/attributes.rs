//! Attributes of spans.

use crate::text::same_text;
use vstd::prelude::*;
use vstd::string::*;

verus! {

/// The value of an attribute.
#[derive(Debug, PartialEq)]
pub enum AttributeValue {
    Text(String),
    Int(i64),
    Bool(bool),
    /// A double, as its bits.
    Double(u64),
}

/// An attribute.
#[derive(Debug, PartialEq)]
pub struct Attribute {
    pub key: String,
    pub value: AttributeValue,
}

pub enum ValueView {
    Text(Seq<char>),
    Int(i64),
    Bool(bool),
    Double(u64),
}

/// A key and its value.
pub type AttributeView = (Seq<char>, ValueView);

impl AttributeValue {
    pub open spec fn view(&self) -> ValueView {
        match self {
            AttributeValue::Text(s) => ValueView::Text(s@),
            AttributeValue::Int(n) => ValueView::Int(*n),
            AttributeValue::Bool(b) => ValueView::Bool(*b),
            AttributeValue::Double(bits) => ValueView::Double(*bits),
        }
    }
}

impl Attribute {
    pub open spec fn view(&self) -> AttributeView {
        (self.key@, self.value.view())
    }
}

impl Clone for Attribute {
    fn clone(&self) -> (r: Self)
        ensures
            r.view() == self.view(),
    {
        Attribute {
            key: self.key.clone(),
            value: match &self.value {
                AttributeValue::Text(s) => AttributeValue::Text(s.clone()),
                AttributeValue::Int(n) => AttributeValue::Int(*n),
                AttributeValue::Bool(b) => AttributeValue::Bool(*b),
                AttributeValue::Double(bits) => AttributeValue::Double(*bits),
            },
        }
    }
}

/// What a vector of attributes holds.
pub open spec fn attributes_view(attributes: Seq<Attribute>) -> Seq<AttributeView> {
    Seq::new(attributes.len(), |i: int| attributes[i].view())
}

/// An attribute with a text, where there is one.
pub open spec fn opt_attribute(key: Seq<char>, text: Option<Seq<char>>) -> Seq<AttributeView> {
    match text {
        Some(s) => seq![(key, ValueView::Text(s))],
        None => Seq::empty(),
    }
}

pub fn push_text(attributes: &mut Vec<Attribute>, key: &str, text: &str)
    ensures
        attributes_view(final(attributes)@) == attributes_view(old(attributes)@) + seq![(key@, ValueView::Text(text@))],
{
    let ghost before = attributes_view(attributes@);
    attributes.push(Attribute { key: key.to_owned(), value: AttributeValue::Text(text.to_owned()) });
    assert(attributes_view(attributes@) =~= before + seq![(key@, ValueView::Text(text@))]);
}

pub fn push_opt_text(attributes: &mut Vec<Attribute>, key: &str, text: &Option<String>)
    ensures
        attributes_view(final(attributes)@) == attributes_view(old(attributes)@) + opt_attribute(
            key@,
            crate::text::opt_text(*text),
        ),
{
    let ghost before = attributes_view(attributes@);
    match text {
        Some(s) => push_text(attributes, key, s.as_str()),
        None => {},
    }
    assert(attributes_view(attributes@) =~= before + opt_attribute(key@, crate::text::opt_text(*text)));
}

pub fn push_bool(attributes: &mut Vec<Attribute>, key: &str, value: bool)
    ensures
        attributes_view(final(attributes)@) == attributes_view(old(attributes)@) + seq![(key@, ValueView::Bool(value))],
{
    let ghost before = attributes_view(attributes@);
    attributes.push(Attribute { key: key.to_owned(), value: AttributeValue::Bool(value) });
    assert(attributes_view(attributes@) =~= before + seq![(key@, ValueView::Bool(value))]);
}

/// A token count as an attribute: as it is, or the largest integer that an attribute holds.
pub open spec fn count_attribute(key: Seq<char>, count: Option<u64>) -> Seq<AttributeView> {
    match count {
        Some(n) => seq![
            (
                key,
                ValueView::Int(
                    if n <= i64::MAX {
                        n as i64
                    } else {
                        i64::MAX
                    },
                ),
            ),
        ],
        None => Seq::empty(),
    }
}

pub fn push_count(attributes: &mut Vec<Attribute>, key: &str, count: Option<u64>)
    ensures
        attributes_view(final(attributes)@) == attributes_view(old(attributes)@) + count_attribute(key@, count),
{
    let ghost before = attributes_view(attributes@);
    if let Some(n) = count {
        let value: i64 = if n <= 0x7fff_ffff_ffff_ffff {
            n as i64
        } else {
            0x7fff_ffff_ffff_ffff
        };
        attributes.push(Attribute { key: key.to_owned(), value: AttributeValue::Int(value) });
    }
    assert(attributes_view(attributes@) =~= before + count_attribute(key@, count));
}

/// A double as an attribute, where there is one.
pub open spec fn double_attribute(key: Seq<char>, bits: Option<u64>) -> Seq<AttributeView> {
    match bits {
        Some(b) => seq![(key, ValueView::Double(b))],
        None => Seq::empty(),
    }
}

pub fn push_double(attributes: &mut Vec<Attribute>, key: &str, bits: Option<u64>)
    ensures
        attributes_view(final(attributes)@) == attributes_view(old(attributes)@) + double_attribute(key@, bits),
{
    let ghost before = attributes_view(attributes@);
    if let Some(b) = bits {
        attributes.push(Attribute { key: key.to_owned(), value: AttributeValue::Double(b) });
    }
    assert(attributes_view(attributes@) =~= before + double_attribute(key@, bits));
}

/// Appends copies of `more`.
pub fn push_all(attributes: &mut Vec<Attribute>, more: &Vec<Attribute>)
    ensures
        attributes_view(final(attributes)@) == attributes_view(old(attributes)@) + attributes_view(more@),
{
    let ghost before = attributes_view(attributes@);
    let mut i: usize = 0;
    while i < more.len()
        invariant
            i <= more.len(),
            attributes_view(attributes@) == before + attributes_view(more@).take(i as int),
        decreases more.len() - i,
    {
        let ghost now = attributes@;
        attributes.push(more[i].clone());
        assert(attributes_view(attributes@) =~= attributes_view(now).push(more@[i as int].view()));
        assert(attributes_view(more@).take(i + 1) =~= attributes_view(more@).take(i as int).push(
            more@[i as int].view(),
        ));
        i += 1;
    }
    assert(attributes_view(attributes@) =~= before + attributes_view(more@));
}

/// A typed copy of an attribute under another key.
#[derive(Debug, Clone)]
pub struct OtlpAttributeMapping {
    pub key: String,
    pub alias: String,
}

impl OtlpAttributeMapping {
    pub fn new(key: &str, alias: &str) -> (r: Self)
        ensures
            r.key@ == key@,
            r.alias@ == alias@,
    {
        OtlpAttributeMapping { key: key.to_owned(), alias: alias.to_owned() }
    }
}

/// The value that the last of the attributes with this key has.
pub open spec fn last_value(attributes: Seq<AttributeView>, key: Seq<char>) -> Option<ValueView>
    decreases attributes.len(),
{
    if attributes.len() == 0 {
        None
    } else if attributes.last().0 == key {
        Some(attributes.last().1)
    } else {
        last_value(attributes.drop_last(), key)
    }
}

/// The copies that the first `n` mappings make, one for each whose key some attribute has.
pub open spec fn aliases(
    attributes: Seq<AttributeView>,
    mappings: Seq<OtlpAttributeMapping>,
    n: int,
) -> Seq<AttributeView>
    decreases n,
{
    if n <= 0 {
        Seq::empty()
    } else {
        aliases(attributes, mappings, n - 1) + (match last_value(attributes, mappings[n - 1].key@) {
            Some(value) => seq![(mappings[n - 1].alias@, value)],
            None => Seq::empty(),
        })
    }
}

fn find_last(attributes: &Vec<Attribute>, key: &str) -> (r: Option<usize>)
    ensures
        match r {
            Some(i) => i < attributes.len() && last_value(attributes_view(attributes@), key@) == Some(
                attributes@[i as int].value.view(),
            ),
            None => last_value(attributes_view(attributes@), key@) is None,
        },
{
    let ghost all = attributes_view(attributes@);
    let mut i: usize = attributes.len();
    assert(all.take(i as int) =~= all);
    while i > 0
        invariant
            i <= attributes.len(),
            all == attributes_view(attributes@),
            last_value(all, key@) == last_value(all.take(i as int), key@),
        decreases i,
    {
        assert(all.take(i as int).last() == attributes@[i - 1].view());
        assert(all.take(i as int).drop_last() =~= all.take(i - 1));
        if same_text(attributes[i - 1].key.as_str(), key) {
            return Some(i - 1);
        }
        i -= 1;
    }
    None
}

/// The copies that `mappings` make of `attributes`.
pub fn attribute_mapping_aliases(attributes: &Vec<Attribute>, mappings: &Vec<OtlpAttributeMapping>) -> (r: Vec<Attribute>)
    ensures
        attributes_view(r@) == aliases(attributes_view(attributes@), mappings@, mappings@.len() as int),
{
    let ghost all = attributes_view(attributes@);
    let mut r: Vec<Attribute> = Vec::new();
    let mut i: usize = 0;
    assert(attributes_view(r@) =~= Seq::empty());
    while i < mappings.len()
        invariant
            i <= mappings.len(),
            all == attributes_view(attributes@),
            attributes_view(r@) == aliases(all, mappings@, i as int),
        decreases mappings.len() - i,
    {
        let ghost before = r@;
        match find_last(attributes, mappings[i].key.as_str()) {
            Some(place) => {
                let found = attributes[place].clone();
                r.push(Attribute { key: mappings[i].alias.clone(), value: found.value });
                assert(attributes_view(r@) =~= attributes_view(before) + seq![
                    (mappings@[i as int].alias@, attributes@[place as int].value.view()),
                ]);
            },
            None => {
                assert(attributes_view(r@) =~= attributes_view(before) + Seq::empty());
            },
        }
        i += 1;
    }
    r
}

/// Appends the copies that `mappings` make.
pub fn apply_attribute_mappings(attributes: &mut Vec<Attribute>, mappings: &Vec<OtlpAttributeMapping>)
    ensures
        attributes_view(final(attributes)@) == with_aliases(attributes_view(old(attributes)@), mappings@),
{
    let copies = attribute_mapping_aliases(attributes, mappings);
    push_all(attributes, &copies);
}

/// Attributes and the copies that `mappings` make of them.
pub open spec fn with_aliases(
    attributes: Seq<AttributeView>,
    mappings: Seq<OtlpAttributeMapping>,
) -> Seq<AttributeView> {
    attributes + aliases(attributes, mappings, mappings.len() as int)
}

/// What a cost estimate comes to.
#[derive(Debug)]
pub struct CostSummary {
    /// The total or the sum of the components, as the bits of a double.
    pub total: Option<u64>,
    pub currency: String,
    pub pricing_source: Option<String>,
    pub pricing_as_of: Option<String>,
}

/// What the optimizations of a model call came to.
#[derive(Debug)]
pub struct LlmOptimizationSummary {
    pub baseline_model: Option<String>,
    pub effective_model: Option<String>,
    pub prompt_tokens_saved: Option<u64>,
    pub total_tokens_saved: Option<u64>,
    pub baseline_cost: Option<CostSummary>,
    pub actual_cost: Option<CostSummary>,
    /// As the bits of a double.
    pub estimated_cost_saved: Option<u64>,
    pub currency: Option<String>,
    /// Whether every part of the summary is known.
    pub complete: bool,
}

/// The attributes of one cost, under keys that hold `what`.
pub open spec fn cost_attributes(what: Seq<char>, cost: Option<CostSummary>) -> Seq<AttributeView> {
    let stem = "nemo_relay.llm.optimization."@ + what;
    match cost {
        Some(c) => double_attribute(stem + "_cost"@, c.total) + seq![
            (stem + "_cost_currency"@, ValueView::Text(c.currency@)),
        ] + opt_attribute(stem + "_pricing_source"@, crate::text::opt_text(c.pricing_source)) + opt_attribute(
            stem + "_pricing_as_of"@,
            crate::text::opt_text(c.pricing_as_of),
        ),
        None => Seq::empty(),
    }
}

/// A text of the baseline cost, else of the actual cost.
pub open spec fn either_text(a: Option<Seq<char>>, b: Option<Seq<char>>) -> Option<Seq<char>> {
    match a {
        Some(_) => a,
        None => b,
    }
}

pub open spec fn pricing_source(cost: Option<CostSummary>) -> Option<Seq<char>> {
    match cost {
        Some(c) => crate::text::opt_text(c.pricing_source),
        None => None,
    }
}

pub open spec fn pricing_as_of(cost: Option<CostSummary>) -> Option<Seq<char>> {
    match cost {
        Some(c) => crate::text::opt_text(c.pricing_as_of),
        None => None,
    }
}

/// The attributes of an optimization summary, in order.
pub open spec fn optimization_attributes(summary: LlmOptimizationSummary) -> Seq<AttributeView> {
    opt_attribute("nemo_relay.llm.optimization.baseline_model"@, crate::text::opt_text(summary.baseline_model))
        + opt_attribute("nemo_relay.llm.optimization.effective_model"@, crate::text::opt_text(summary.effective_model))
        + count_attribute("nemo_relay.llm.optimization.prompt_tokens_saved"@, summary.prompt_tokens_saved)
        + count_attribute("nemo_relay.llm.optimization.total_tokens_saved"@, summary.total_tokens_saved)
        + cost_attributes("baseline"@, summary.baseline_cost)
        + cost_attributes("actual"@, summary.actual_cost)
        + double_attribute("nemo_relay.llm.optimization.estimated_cost_saved"@, summary.estimated_cost_saved)
        + (if summary.estimated_cost_saved is Some {
            opt_attribute(
                "nemo_relay.llm.optimization.estimated_cost_saved_currency"@,
                crate::text::opt_text(summary.currency),
            )
        } else {
            Seq::empty()
        })
        + opt_attribute("nemo_relay.llm.optimization.currency"@, crate::text::opt_text(summary.currency))
        + seq![
            (
                "nemo_relay.llm.optimization.status"@,
                ValueView::Text(
                    if summary.complete {
                        "complete"@
                    } else {
                        "partial"@
                    },
                ),
            ),
        ]
        + opt_attribute(
            "nemo_relay.llm.optimization.pricing_source"@,
            either_text(pricing_source(summary.baseline_cost), pricing_source(summary.actual_cost)),
        )
        + opt_attribute(
            "nemo_relay.llm.optimization.pricing_as_of"@,
            either_text(pricing_as_of(summary.baseline_cost), pricing_as_of(summary.actual_cost)),
        )
}

fn push_cost_attributes(attributes: &mut Vec<Attribute>, what: &str, cost: &Option<CostSummary>)
    ensures
        attributes_view(final(attributes)@) == attributes_view(old(attributes)@) + cost_attributes(what@, *cost),
{
    let ghost before = attributes_view(attributes@);
    if let Some(c) = cost {
        let stem = "nemo_relay.llm.optimization.".to_owned().concat(what);
        push_double(attributes, stem.clone().concat("_cost").as_str(), c.total);
        push_text(attributes, stem.clone().concat("_cost_currency").as_str(), c.currency.as_str());
        push_opt_text(attributes, stem.clone().concat("_pricing_source").as_str(), &c.pricing_source);
        push_opt_text(attributes, stem.concat("_pricing_as_of").as_str(), &c.pricing_as_of);
    }
    assert(attributes_view(attributes@) =~= before + cost_attributes(what@, *cost));
}

fn push_either(attributes: &mut Vec<Attribute>, key: &str, a: Option<&String>, b: Option<&String>)
    ensures
        attributes_view(final(attributes)@) == attributes_view(old(attributes)@) + opt_attribute(
            key@,
            either_text(
                match a {
                    Some(s) => Some(s@),
                    None => None,
                },
                match b {
                    Some(s) => Some(s@),
                    None => None,
                },
            ),
        ),
{
    let ghost before = attributes_view(attributes@);
    match (a, b) {
        (Some(s), _) => push_text(attributes, key, s.as_str()),
        (None, Some(s)) => push_text(attributes, key, s.as_str()),
        (None, None) => {
            assert(attributes_view(attributes@) =~= before + Seq::empty());
        },
    }
}

fn source_of(cost: &Option<CostSummary>) -> (r: Option<&String>)
    ensures
        match r {
            Some(s) => pricing_source(*cost) == Some(s@),
            None => pricing_source(*cost) is None,
        },
{
    match cost {
        Some(c) => c.pricing_source.as_ref(),
        None => None,
    }
}

fn as_of_of(cost: &Option<CostSummary>) -> (r: Option<&String>)
    ensures
        match r {
            Some(s) => pricing_as_of(*cost) == Some(s@),
            None => pricing_as_of(*cost) is None,
        },
{
    match cost {
        Some(c) => c.pricing_as_of.as_ref(),
        None => None,
    }
}

/// Appends the attributes of an optimization summary.
pub fn push_optimization_attributes(attributes: &mut Vec<Attribute>, summary: &LlmOptimizationSummary)
    ensures
        attributes_view(final(attributes)@) == attributes_view(old(attributes)@) + optimization_attributes(*summary),
{
    let mut added: Vec<Attribute> = Vec::new();
    assert(attributes_view(added@) =~= Seq::empty());
    push_opt_text(&mut added, "nemo_relay.llm.optimization.baseline_model", &summary.baseline_model);
    assert(attributes_view(added@) =~= opt_attribute(
        "nemo_relay.llm.optimization.baseline_model"@,
        crate::text::opt_text(summary.baseline_model),
    ));
    push_opt_text(&mut added, "nemo_relay.llm.optimization.effective_model", &summary.effective_model);
    push_count(&mut added, "nemo_relay.llm.optimization.prompt_tokens_saved", summary.prompt_tokens_saved);
    push_count(&mut added, "nemo_relay.llm.optimization.total_tokens_saved", summary.total_tokens_saved);
    push_cost_attributes(&mut added, "baseline", &summary.baseline_cost);
    push_cost_attributes(&mut added, "actual", &summary.actual_cost);
    push_double(&mut added, "nemo_relay.llm.optimization.estimated_cost_saved", summary.estimated_cost_saved);
    if summary.estimated_cost_saved.is_some() {
        push_opt_text(
            &mut added,
            "nemo_relay.llm.optimization.estimated_cost_saved_currency",
            &summary.currency,
        );
    } else {
        assert(attributes_view(added@) + Seq::empty() =~= attributes_view(added@));
    }
    push_opt_text(&mut added, "nemo_relay.llm.optimization.currency", &summary.currency);
    push_text(
        &mut added,
        "nemo_relay.llm.optimization.status",
        if summary.complete {
            "complete"
        } else {
            "partial"
        },
    );
    push_either(
        &mut added,
        "nemo_relay.llm.optimization.pricing_source",
        source_of(&summary.baseline_cost),
        source_of(&summary.actual_cost),
    );
    push_either(
        &mut added,
        "nemo_relay.llm.optimization.pricing_as_of",
        as_of_of(&summary.baseline_cost),
        as_of_of(&summary.actual_cost),
    );
    push_all(attributes, &added);
}

} // verus!
