//! Requests to the gateway.

use crate::error::{CliError, Failure};
use crate::json::{
    an_object_tells_its_pairs, json_bytes_document, json_object, object_of, pairs_view, parse_json_bytes, text_json, Json, JsonObject,
    JsonView,
};
use crate::json_paths::{
    a_key_leads_to_its_text, first_text, json_string_at, or_told, paths_view, told, told_within,
    two_keys_lead_to_their_text, KeyPath,
};
use crate::switchyard::headers::{drop_header, header_entries, header_name, http_name, HeaderEntries};
use crate::text::opt_text;
use vstd::prelude::*;
use vstd::string::*;

verus! {

/// The body of a request, or why it could not be read.
#[derive(Debug)]
pub enum RequestBody {
    Bytes(Vec<u8>),
    /// It is longer than the gateway passes on; the error in words.
    TooLong(String),
    /// It could not be read; the error in words.
    Broken(String),
}

/// What a request has to say of itself, taken out of its body.
#[derive(Debug)]
pub struct PreparedGatewayRequest {
    pub path: String,
    pub upstream_url: String,
    /// The headers, without the one that clients of the relay prove themselves by.
    pub headers: reqwest::header::HeaderMap<reqwest::header::HeaderValue>,
    pub body: Vec<u8>,
    /// The body as JSON, null where it is none.
    pub request_json: Json,
    pub streaming: bool,
}

/// A body as JSON, null where it is none.
pub open spec fn body_json(document: Option<JsonView>) -> JsonView {
    match document {
        Some(json) => json,
        None => JsonView::Null,
    }
}

/// Whether a request asks for a stream.
pub open spec fn asks_for_stream(request: JsonView) -> bool {
    request.get("stream"@) == Some(JsonView::Bool(true))
}

fn wants_stream(request: &Json) -> (r: bool)
    ensures
        r <==> request@.get("stream"@) == Some(JsonView::Bool(true)),
        r == asks_for_stream(request@),
{
    match request.get("stream") {
        Some(Json::Bool(streaming)) => *streaming,
        _ => false,
    }
}

/// A body as JSON, null where it is none.
pub fn request_json(body: &Vec<u8>) -> (r: Json)
    ensures
        r@ == body_json(json_bytes_document(body@)),
{
    match parse_json_bytes(body) {
        Some(json) => json,
        None => Json::Null,
    }
}

/// What says that no provider serves a path.
fn unsupported_path(path: &str) -> (r: CliError)
    ensures
        r.view() == Failure::InvalidPayload("unsupported gateway path "@ + path@),
{
    CliError::InvalidPayload("unsupported gateway path ".to_owned().concat(path))
}

/// Headers without all values of one name; a text that names no header takes nothing out.
pub open spec fn headers_without(entries: HeaderEntries, name: Seq<char>) -> HeaderEntries {
    match http_name(name) {
        Ok(name) => entries.remove(name),
        Err(_) => entries,
    }
}

/// The headers of a request without the one, named `name`, that clients of the relay prove themselves by.
pub fn without_client_token(headers: reqwest::header::HeaderMap<reqwest::header::HeaderValue>, name: &str) -> (r:
    reqwest::header::HeaderMap<reqwest::header::HeaderValue>)
    ensures
        header_entries(r) == headers_without(header_entries(headers), name@),
{
    let mut headers = headers;
    if let Ok(name) = header_name(name) {
        drop_header(&mut headers, &name);
    }
    headers
}

/// Prepares a request to `path`, which a provider serves or none. It goes to `override_url` where that is
/// given, else to `provider_url`, and without its header `client_token`.
pub fn prepare_gateway_request(
    path: &str,
    supported: bool,
    headers: reqwest::header::HeaderMap<reqwest::header::HeaderValue>,
    client_token: &str,
    body: RequestBody,
    override_url: Option<String>,
    provider_url: &str,
) -> (r: Result<PreparedGatewayRequest, CliError>)
    ensures
        if !supported {
            r is Err && r->Err_0.view() == Failure::InvalidPayload("unsupported gateway path "@ + path@)
        } else {
            match body {
                RequestBody::TooLong(error) => r is Err && r->Err_0.view() == Failure::PayloadTooLarge(error@),
                RequestBody::Broken(error) => r is Err && r->Err_0.view() == Failure::InvalidPayload(error@),
                RequestBody::Bytes(bytes) => {
                    let json = body_json(json_bytes_document(bytes@));
                    &&& r is Ok
                    &&& r->Ok_0.path@ == path@
                    &&& r->Ok_0.upstream_url@ == (match override_url {
                        Some(url) => url@,
                        None => provider_url@,
                    })
                    &&& header_entries(r->Ok_0.headers) == headers_without(header_entries(headers), client_token@)
                    &&& r->Ok_0.body@ == bytes@
                    &&& r->Ok_0.request_json@ == json
                    &&& r->Ok_0.streaming == asks_for_stream(json)
                    &&& r->Ok_0.streaming <==> r->Ok_0.request_json@.get("stream"@) == Some(JsonView::Bool(true))
                },
            }
        },
{
    if !supported {
        return Err(unsupported_path(path));
    }
    let bytes = match body {
        RequestBody::TooLong(error) => {
            return Err(CliError::PayloadTooLarge(error));
        },
        RequestBody::Broken(error) => {
            return Err(CliError::InvalidPayload(error));
        },
        RequestBody::Bytes(bytes) => bytes,
    };
    let json = request_json(&bytes);
    let streaming = wants_stream(&json);
    Ok(
        PreparedGatewayRequest {
            path: path.to_owned(),
            upstream_url: match override_url {
                Some(url) => url,
                None => provider_url.to_owned(),
            },
            headers: without_client_token(headers, client_token),
            body: bytes,
            request_json: json,
            streaming,
        },
    )
}

/// What the headers of a request name, and what identifies its session and subagent.
#[derive(Debug)]
pub struct GatewayIdentity {
    pub session_id: Option<String>,
    pub subagent_id: Option<String>,
    /// `x-nemo-relay-conversation-id`.
    pub conversation_header: Option<String>,
    /// `x-nemo-relay-generation-id`.
    pub generation_header: Option<String>,
    /// `x-nemo-relay-request-id`.
    pub request_header: Option<String>,
    /// `x-request-id`.
    pub plain_request_header: Option<String>,
}

/// Where a request names its conversation.
pub open spec fn conversation_paths() -> Seq<KeyPath> {
    seq![seq!["conversation_id"@], seq!["conversationId"@], seq!["conversation"@, "id"@]]
}

/// Where a request names its generation.
pub open spec fn generation_paths() -> Seq<KeyPath> {
    seq![seq!["generation_id"@], seq!["generationId"@], seq!["generation"@, "id"@]]
}

/// Where a request names itself.
pub open spec fn request_paths() -> Seq<KeyPath> {
    seq![
        seq!["request_id"@],
        seq!["requestId"@],
        seq!["request"@, "id"@],
        seq!["metadata"@, "request_id"@],
    ]
}

/// What a header names, or else the body.
pub open spec fn identifier(header_value: Option<Seq<char>>, body: JsonView, paths: Seq<KeyPath>) -> Option<Seq<char>> {
    match header_value {
        Some(text) => Some(text),
        None => first_text(body, paths, 0),
    }
}

fn gateway_identifier(header_value: &Option<String>, body: &Json, paths: &Vec<Vec<&str>>) -> (r: Option<String>)
    ensures
        opt_text(r) == identifier(opt_text(*header_value), body@, paths_view(paths@)),
{
    match header_value {
        Some(text) => Some(text.clone()),
        None => match json_string_at(body, paths) {
            Some(text) => Some(text.to_owned()),
            None => None,
        },
    }
}

/// The start of a model call through the gateway.
#[derive(Debug)]
pub struct LlmGatewayStart {
    pub session_id: Option<String>,
    pub provider: String,
    pub model_name: Option<String>,
    pub subagent_id: Option<String>,
    pub conversation_id: Option<String>,
    pub generation_id: Option<String>,
    pub request_id: Option<String>,
    /// The headers that may be seen.
    pub headers: JsonObject,
    pub content: Json,
    pub streaming: bool,
    pub metadata: Json,
}

fn copy_text(s: &Option<String>) -> (r: Option<String>)
    ensures
        opt_text(r) == opt_text(*s),
{
    match s {
        Some(text) => Some(text.clone()),
        None => None,
    }
}

/// The start of the model call that a request makes. `observable` holds the headers that may be seen.
pub fn build_llm_gateway_start(
    request: &PreparedGatewayRequest,
    provider: &str,
    identity: &GatewayIdentity,
    observable: JsonObject,
) -> (r: LlmGatewayStart)
    ensures
        opt_text(r.session_id) == opt_text(identity.session_id),
        r.provider@ == provider@,
        opt_text(r.model_name) == request.request_json@.text_at("model"@),
        opt_text(r.subagent_id) == opt_text(identity.subagent_id),
        identity.conversation_header is Some ==> opt_text(r.conversation_id) == opt_text(
            identity.conversation_header,
        ),
        identity.generation_header is Some ==> opt_text(r.generation_id) == opt_text(identity.generation_header),
        identity.request_header is Some ==> opt_text(r.request_id) == opt_text(identity.request_header),
        opt_text(r.conversation_id) == identifier(
            opt_text(identity.conversation_header),
            request.request_json@,
            conversation_paths(),
        ),
        opt_text(r.generation_id) == identifier(
            opt_text(identity.generation_header),
            request.request_json@,
            generation_paths(),
        ),
        opt_text(r.request_id) == (match identifier(
            opt_text(identity.request_header),
            request.request_json@,
            request_paths(),
        ) {
            Some(id) => Some(id),
            None => opt_text(identity.plain_request_header),
        }),
        r.headers == observable,
        r.content@ == request.request_json@,
        r.streaming == request.streaming,
        r.metadata@.get("gateway_path"@) == Some(JsonView::Text(request.path@)),
        r.metadata@ == object_of(seq![("gateway_path"@, JsonView::Text(request.path@))]),
{
    let body = &request.request_json;
    let conversation: Vec<Vec<&str>> = vec![
        vec!["conversation_id"],
        vec!["conversationId"],
        vec!["conversation", "id"],
    ];
    assert(paths_view(conversation@) =~~= conversation_paths());
    let generation: Vec<Vec<&str>> = vec![vec!["generation_id"], vec!["generationId"], vec!["generation", "id"]];
    assert(paths_view(generation@) =~~= generation_paths());
    let own: Vec<Vec<&str>> = vec![
        vec!["request_id"],
        vec!["requestId"],
        vec!["request", "id"],
        vec!["metadata", "request_id"],
    ];
    assert(paths_view(own@) =~~= request_paths());
    let request_id = match gateway_identifier(&identity.request_header, body, &own) {
        Some(id) => Some(id),
        None => copy_text(&identity.plain_request_header),
    };
    let pairs: Vec<(&str, Json)> = vec![("gateway_path", text_json(request.path.as_str()))];
    assert(pairs_view(pairs@) =~= seq![("gateway_path"@, JsonView::Text(request.path@))]);
    proof {
        an_object_tells_its_pairs(pairs_view(pairs@));
        assert(pairs_view(pairs@)[0] == ("gateway_path"@, JsonView::Text(request.path@)));
    }
    LlmGatewayStart {
        headers: observable,
        session_id: copy_text(&identity.session_id),
        provider: provider.to_owned(),
        model_name: match body.text_at("model") {
            Some(name) => Some(name.to_owned()),
            None => None,
        },
        subagent_id: copy_text(&identity.subagent_id),
        conversation_id: gateway_identifier(&identity.conversation_header, body, &conversation),
        generation_id: gateway_identifier(&identity.generation_header, body, &generation),
        request_id,
        content: body.clone(),
        streaming: request.streaming,
        metadata: json_object(pairs),
    }
}

/// A request asks for a stream exactly where its member `stream` is the boolean true: a request that says
/// false, or anything else, or nothing, asks for none.
pub proof fn only_true_asks_for_a_stream(request: JsonView)
    ensures
        request.get("stream"@) == Some(JsonView::Bool(true)) ==> asks_for_stream(request),
        request.get("stream"@) == Some(JsonView::Bool(false)) ==> !asks_for_stream(request),
        forall|value: JsonView|
            request.get("stream"@) == Some(value) && !(value is Bool) ==> !asks_for_stream(request),
        request.get("stream"@) is None ==> !asks_for_stream(request),
{
}

/// A body that is no JSON is taken for null, and any other for what it says.
pub proof fn a_body_is_what_it_says(body: Seq<u8>)
    ensures
        match json_bytes_document(body) {
            Some(json) => body_json(json_bytes_document(body)) == json,
            None => body_json(json_bytes_document(body)) is Null,
        },
{
}

/// Without the client's token a request keeps every other header with all its values, and has none of that name.
pub proof fn only_the_client_token_is_left_out(
    entries: HeaderEntries,
    name: Seq<char>,
    other: reqwest::header::HeaderName,
)
    ensures
        http_name(name) is Ok ==> !headers_without(entries, name).contains_key(http_name(name)->Ok_0),
        !(http_name(name) is Ok && http_name(name)->Ok_0 == other) ==> {
            &&& headers_without(entries, name).contains_key(other) <==> entries.contains_key(other)
            &&& entries.contains_key(other) ==> headers_without(entries, name)[other] == entries[other]
        },
{
}

/// A request names its conversation in its header; else its body does, under `conversation_id`, under
/// `conversationId` or under `id` in `conversation`, the first of these that is a text and not empty.
pub proof fn a_request_names_its_conversation(header_value: Option<Seq<char>>, body: JsonView)
    ensures
        identifier(header_value, body, conversation_paths()) == or_told(
            header_value,
            or_told(
                told(body, "conversation_id"@),
                or_told(told(body, "conversationId"@), told_within(body, "conversation"@, "id"@)),
            ),
        ),
{
    reveal_with_fuel(first_text, 5);
    a_key_leads_to_its_text(body, "conversation_id"@);
    a_key_leads_to_its_text(body, "conversationId"@);
    two_keys_lead_to_their_text(body, "conversation"@, "id"@);
}

/// A request names its generation in its header; else its body does, under `generation_id`, under `generationId`
/// or under `id` in `generation`, the first of these that is a text and not empty.
pub proof fn a_request_names_its_generation(header_value: Option<Seq<char>>, body: JsonView)
    ensures
        identifier(header_value, body, generation_paths()) == or_told(
            header_value,
            or_told(
                told(body, "generation_id"@),
                or_told(told(body, "generationId"@), told_within(body, "generation"@, "id"@)),
            ),
        ),
{
    reveal_with_fuel(first_text, 5);
    a_key_leads_to_its_text(body, "generation_id"@);
    a_key_leads_to_its_text(body, "generationId"@);
    two_keys_lead_to_their_text(body, "generation"@, "id"@);
}

/// A request names itself in its header; else its body does, under `request_id`, under `requestId`, under `id` in
/// `request` or under `request_id` in `metadata`, the first of these that is a text and not empty.
pub proof fn a_request_names_itself(header_value: Option<Seq<char>>, body: JsonView)
    ensures
        identifier(header_value, body, request_paths()) == or_told(
            header_value,
            or_told(
                told(body, "request_id"@),
                or_told(
                    told(body, "requestId"@),
                    or_told(told_within(body, "request"@, "id"@), told_within(body, "metadata"@, "request_id"@)),
                ),
            ),
        ),
{
    reveal_with_fuel(first_text, 6);
    a_key_leads_to_its_text(body, "request_id"@);
    a_key_leads_to_its_text(body, "requestId"@);
    two_keys_lead_to_their_text(body, "request"@, "id"@);
    two_keys_lead_to_their_text(body, "metadata"@, "request_id"@);
}

} // verus!
