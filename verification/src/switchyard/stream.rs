//! Provider streams: what passes through, what is translated, and what ends them.

use crate::json::{Json, JsonView};
use crate::switchyard::config::{RoutingMode, WireProtocol};
use crate::switchyard::failure::FlowError;
use crate::switchyard::marks::{mark_terminal_error, terminal_mark, Mark};
use crate::text::same_text;
use vstd::prelude::*;
use vstd::string::*;

verus! {

/// A choice of a chat chunk that carries what no other protocol has.
pub open spec fn extended_choice(choice: JsonView) -> bool {
    choice.index("delta"@).get("audio"@) is Some || choice.index("delta"@).get("reasoning_content"@) is Some
}

/// A chunk that carries what cannot be translated.
pub open spec fn unsupported_chunk(source: WireProtocol, chunk: JsonView) -> bool {
    match source {
        WireProtocol::OpenaiChat => match chunk.index("choices"@) {
            JsonView::Array(choices) => exists|i: int| 0 <= i < choices.len() && extended_choice(#[trigger] choices[i]),
            _ => false,
        },
        WireProtocol::OpenaiResponses => chunk.text_at("type"@) == Some("response.output_item.added"@) && {
            let kind = chunk.index("item"@).text_at("type"@);
            kind == Some("reasoning"@) || kind == Some("computer_call"@) || kind == Some("web_search_call"@)
        },
        WireProtocol::AnthropicMessages => chunk.text_at("type"@) == Some("content_block_start"@) && {
            let kind = chunk.index("content_block"@).text_at("type"@);
            kind != Some("text"@) && kind != Some("tool_use"@)
        },
    }
}

fn text_is(s: Option<&str>, t: &str) -> (r: bool)
    ensures
        r == (match s {
            Some(x) => Some(x@),
            None => None,
        } == Some(t@)),
{
    match s {
        Some(x) => same_text(x, t),
        None => false,
    }
}

/// The text at `inner` of the member `outer`.
fn inner_text<'a>(chunk: &'a Json, outer: &str, inner: &str) -> (r: Option<&'a str>)
    ensures
        match r {
            Some(s) => chunk@.index(outer@).text_at(inner@) == Some(s@),
            None => chunk@.index(outer@).text_at(inner@) is None,
        },
{
    match chunk.get(outer) {
        Some(value) => value.text_at(inner),
        None => None,
    }
}

fn choice_is_extended(choice: &Json) -> (r: bool)
    ensures
        r == extended_choice(choice@),
{
    match choice.get("delta") {
        Some(delta) => delta.get("audio").is_some() || delta.get("reasoning_content").is_some(),
        None => false,
    }
}

/// Whether a chunk carries what cannot be translated.
pub fn unsupported_stream_chunk(source: WireProtocol, chunk: &Json) -> (r: bool)
    ensures
        r == unsupported_chunk(source, chunk@),
{
    match source {
        WireProtocol::OpenaiChat => match chunk.get("choices") {
            Some(Json::Array(choices)) => {
                let ghost list = chunk@.index("choices"@)->Array_0;
                let mut i: usize = 0;
                while i < choices.len()
                    invariant
                        i <= choices.len(),
                        list.len() == choices.len(),
                        forall|j: int| 0 <= j < list.len() ==> #[trigger] list[j] == choices@[j]@,
                        forall|j: int| 0 <= j < i ==> !extended_choice(#[trigger] list[j]),
                        chunk@.index("choices"@) == JsonView::Array(list),
                        source == WireProtocol::OpenaiChat,
                    decreases choices.len() - i,
                {
                    if choice_is_extended(&choices[i]) {
                        assert(extended_choice(list[i as int]));
                        assert(chunk@.index("choices"@)->Array_0 == list);
                        assert(exists|j: int| 0 <= j < list.len() && extended_choice(#[trigger] list[j]));
                        return true;
                    }
                    i += 1;
                }
                false
            },
            _ => false,
        },
        WireProtocol::OpenaiResponses => {
            if !text_is(chunk.text_at("type"), "response.output_item.added") {
                return false;
            }
            let kind = inner_text(chunk, "item", "type");
            text_is(kind, "reasoning") || text_is(kind, "computer_call") || text_is(kind, "web_search_call")
        },
        WireProtocol::AnthropicMessages => {
            if !text_is(chunk.text_at("type"), "content_block_start") {
                return false;
            }
            let kind = inner_text(chunk, "content_block", "type");
            !text_is(kind, "text") && !text_is(kind, "tool_use")
        },
    }
}

/// What a stream hands on, in order, and whether it goes on.
#[derive(Debug)]
pub enum StreamOutput {
    /// These chunks, and the stream goes on.
    Chunks(Vec<Json>),
    /// This error, and the stream ends.
    Failed(FlowError),
}

impl StreamOutput {
    /// Whether the stream ends because it cannot be translated, in these words.
    pub open spec fn fails_with(self, words: Seq<char>) -> bool {
        self is Failed && self->Failed_0 is InvalidArgument && self->Failed_0->InvalidArgument_0@ == words
    }
}

/// Whether a chunk may be given to the translation: the error that ends the stream, where it may not.
pub fn check_chunk(source: WireProtocol, chunk: &Json) -> (r: Result<(), FlowError>)
    ensures
        match r {
            Ok(_) => !unsupported_chunk(source, chunk@),
            Err(error) => {
                &&& unsupported_chunk(source, chunk@)
                &&& error is InvalidArgument
                &&& error->InvalidArgument_0@ == "provider-specific streaming extension cannot be translated safely"@
            },
        },
{
    if unsupported_stream_chunk(source, chunk) {
        Err(
            FlowError::InvalidArgument(
                "provider-specific streaming extension cannot be translated safely".to_owned(),
            ),
        )
    } else {
        Ok(())
    }
}

/// What the translation of a chunk hands on.
pub fn transcoded(translated: Result<Vec<Json>, String>) -> (r: StreamOutput)
    ensures
        match translated {
            Ok(chunks) => r == StreamOutput::Chunks(chunks),
            Err(error) => r.fails_with("Switchyard stream translation failed: "@ + error@),
        },
{
    match translated {
        Ok(chunks) => StreamOutput::Chunks(chunks),
        Err(error) => StreamOutput::Failed(
            FlowError::InvalidArgument("Switchyard stream translation failed: ".to_owned().concat(error.as_str())),
        ),
    }
}

/// What the end of a translated stream hands on.
pub fn finished(translated: Result<Vec<Json>, String>) -> (r: StreamOutput)
    ensures
        match translated {
            Ok(chunks) => r == StreamOutput::Chunks(chunks),
            Err(error) => r.fails_with("Switchyard stream finalization failed: "@ + error@),
        },
{
    match translated {
        Ok(chunks) => StreamOutput::Chunks(chunks),
        Err(error) => StreamOutput::Failed(
            FlowError::InvalidArgument("Switchyard stream finalization failed: ".to_owned().concat(error.as_str())),
        ),
    }
}

/// What comes of a stream.
#[derive(Debug)]
pub enum StreamItem {
    Chunk(Json),
    Failed(FlowError),
    Ended,
}

/// How a stream is watched: what the mark of its failure tells.
#[derive(Debug)]
pub struct Watch {
    pub phase: &'static str,
    pub mode: RoutingMode,
    pub metadata: Json,
}

/// What a watched stream does with an item.
#[derive(Debug)]
pub struct WatchedItem {
    /// The mark to leave first.
    pub mark: Option<Mark>,
    /// What is handed on.
    pub handed_on: Option<Result<Json, FlowError>>,
    /// Whether the stream goes on.
    pub goes_on: bool,
}

/// What a watched stream hands on of an item.
pub open spec fn item_handed_on(item: StreamItem) -> Option<Result<Json, FlowError>> {
    match item {
        StreamItem::Chunk(chunk) => Some(Ok(chunk)),
        StreamItem::Failed(error) => Some(Err(error)),
        StreamItem::Ended => None,
    }
}

/// Whether a watched stream goes on after an item.
pub open spec fn item_goes_on(item: StreamItem) -> bool {
    item is Chunk
}

impl Watch {
    /// What a watched stream does with an item: a chunk is handed on as it is; an error is marked, handed on, and
    /// the last.
    pub fn watch_item(&self, item: StreamItem) -> (r: WatchedItem)
        ensures
            r.handed_on == item_handed_on(item),
            r.goes_on == item_goes_on(item),
            match item {
                StreamItem::Failed(error) => {
                    &&& r.mark is Some
                    &&& r.mark->Some_0.view() == terminal_mark(self.mode, error, self.phase@, self.metadata@)
                },
                _ => r.mark is None,
            },
    {
        match item {
            StreamItem::Chunk(chunk) => WatchedItem { mark: None, handed_on: Some(Ok(chunk)), goes_on: true },
            StreamItem::Failed(error) => {
                let mark = mark_terminal_error(self.mode, &error, self.phase, self.metadata.clone());
                WatchedItem { mark: Some(mark), handed_on: Some(Err(error)), goes_on: false }
            },
            StreamItem::Ended => WatchedItem { mark: None, handed_on: None, goes_on: false },
        }
    }
}

/// What a watched stream hands on of these items.
pub open spec fn handed_on(items: Seq<StreamItem>) -> Seq<Result<Json, FlowError>>
    decreases items.len(),
{
    if items.len() == 0 {
        Seq::empty()
    } else {
        (match item_handed_on(items[0]) {
            Some(given) => seq![given],
            None => Seq::empty(),
        }) + (if item_goes_on(items[0]) {
            handed_on(items.drop_first())
        } else {
            Seq::empty()
        })
    }
}

/// How many marks a watched stream leaves of these items.
pub open spec fn marks_left(items: Seq<StreamItem>) -> int
    decreases items.len(),
{
    if items.len() == 0 {
        0
    } else {
        (if items[0] is Failed {
            1int
        } else {
            0
        }) + (if item_goes_on(items[0]) {
            marks_left(items.drop_first())
        } else {
            0
        })
    }
}

/// A watched stream leaves at most one mark, and one exactly where an error comes before the stream ends.
pub proof fn a_watched_stream_fails_once(items: Seq<StreamItem>)
    ensures
        0 <= marks_left(items) <= 1,
        marks_left(items) == 1 <==> exists|i: int|
            0 <= i < items.len() && #[trigger] items[i] is Failed && forall|j: int|
                0 <= j < i ==> #[trigger] items[j] is Chunk,
    decreases items.len(),
{
    if items.len() > 0 {
        let rest = items.drop_first();
        a_watched_stream_fails_once(rest);
        if items[0] is Chunk {
            if marks_left(rest) == 1 {
                let i = choose|i: int|
                    0 <= i < rest.len() && #[trigger] rest[i] is Failed && forall|j: int|
                        0 <= j < i ==> #[trigger] rest[j] is Chunk;
                assert(items[i + 1] is Failed);
                assert forall|j: int| 0 <= j < i + 1 implies #[trigger] items[j] is Chunk by {
                    if j > 0 {
                        assert(rest[j - 1] is Chunk);
                    }
                }
            }
            if exists|i: int|
                0 <= i < items.len() && #[trigger] items[i] is Failed && forall|j: int|
                    0 <= j < i ==> #[trigger] items[j] is Chunk {
                let i = choose|i: int|
                    0 <= i < items.len() && #[trigger] items[i] is Failed && forall|j: int|
                        0 <= j < i ==> #[trigger] items[j] is Chunk;
                assert(rest[i - 1] is Failed);
                assert forall|j: int| 0 <= j < i - 1 implies #[trigger] rest[j] is Chunk by {
                    assert(items[j + 1] is Chunk);
                }
            }
        }
    }
}

proof fn chunks_are_handed_on(items: Seq<StreamItem>, n: int)
    requires
        0 <= n < items.len(),
        forall|i: int| 0 <= i < n ==> #[trigger] items[i] is Chunk,
        !(items[n] is Chunk),
    ensures
        handed_on(items).len() == (if items[n] is Failed {
            n + 1
        } else {
            n
        }),
        forall|i: int| 0 <= i < n ==> #[trigger] handed_on(items)[i] == Ok::<Json, FlowError>(items[i]->Chunk_0),
        items[n] is Failed ==> handed_on(items)[n] == Err::<Json, FlowError>(items[n]->Failed_0),
    decreases n,
{
    if n > 0 {
        let rest = items.drop_first();
        assert forall|i: int| 0 <= i < n - 1 implies #[trigger] rest[i] is Chunk by {
            assert(items[i + 1] is Chunk);
        }
        assert(items[0] is Chunk);
        chunks_are_handed_on(rest, n - 1);
        assert forall|i: int| 0 <= i < n implies #[trigger] handed_on(items)[i] == Ok::<Json, FlowError>(
            items[i]->Chunk_0,
        ) by {
            if i > 0 {
                assert(handed_on(rest)[i - 1] == Ok::<Json, FlowError>(rest[i - 1]->Chunk_0));
            }
        }
    }
}

/// A stream that a call is committed to hands on the chunk that was read to open it, then every chunk that
/// follows, in order, up to the first error, which is the last, or to its end.
pub proof fn a_committed_stream_is_served_in_order(first: Json, following: Seq<StreamItem>, n: int)
    requires
        0 <= n < following.len(),
        forall|i: int| 0 <= i < n ==> #[trigger] following[i] is Chunk,
        !(following[n] is Chunk),
    ensures
        ({
            let served = handed_on(seq![StreamItem::Chunk(first)] + following);
            &&& served.len() == (if following[n] is Failed {
                n + 2
            } else {
                n + 1
            })
            &&& served[0] == Ok::<Json, FlowError>(first)
            &&& forall|i: int| 0 < i <= n ==> #[trigger] served[i] == Ok::<Json, FlowError>(following[i - 1]->Chunk_0)
            &&& following[n] is Failed ==> served[n + 1] == Err::<Json, FlowError>(following[n]->Failed_0)
        }),
{
    let items = seq![StreamItem::Chunk(first)] + following;
    assert forall|i: int| 0 <= i < n + 1 implies #[trigger] items[i] is Chunk by {
        if i > 0 {
            assert(following[i - 1] is Chunk);
        }
    }
    chunks_are_handed_on(items, n + 1);
}

} // verus!
