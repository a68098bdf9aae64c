//! Model calls: their protocol, their headers, and how a target is applied to them.

use crate::json::{extend_members, extended, lookup_extended, Json, JsonObject, JsonView, Members};
use crate::ordered::{has_key, inserted, inserted_sorted, lookup, lookup_inserted, sorted, StringMap};
use crate::switchyard::config::{
    accepted_config_has_fallbacks, config_error, SwitchyardConfig, TargetBinding, TargetView, WireProtocol,
};
use crate::switchyard::contract::LlmRequest;
use crate::switchyard::failure::FlowError;
use crate::text::{
    begins, begins_with, blank, debug_text, ends, ends_with, quoted, same_text, trim, trim_end_char, trimmed,
    without_end_char,
};
use crate::url::ParsedUrl;
use vstd::prelude::*;
use vstd::string::*;

verus! {

/// The protocol that the name of a call stands for.
pub open spec fn named_protocol(name: Seq<char>) -> Option<WireProtocol> {
    if name == "openai.chat_completions"@ || name == "openai_chat"@ || name == "openai_chat_completions"@ {
        Some(WireProtocol::OpenaiChat)
    } else if name == "openai.responses"@ || name == "openai_responses"@ {
        Some(WireProtocol::OpenaiResponses)
    } else if name == "anthropic.messages"@ || name == "anthropic"@ || name == "anthropic_messages"@ {
        Some(WireProtocol::AnthropicMessages)
    } else {
        None
    }
}

/// The protocol of a call: by its name, else by what its body holds.
pub open spec fn call_protocol(name: Seq<char>, content: JsonView) -> Option<WireProtocol> {
    match named_protocol(name) {
        Some(protocol) => Some(protocol),
        None => if content.get("input"@) is Some {
            Some(WireProtocol::OpenaiResponses)
        } else if content.get("system"@) is Some {
            Some(WireProtocol::AnthropicMessages)
        } else if content.get("messages"@) is Some {
            Some(WireProtocol::OpenaiChat)
        } else {
            None
        },
    }
}

impl WireProtocol {
    /// The protocol of a call.
    pub fn from_call(name: &str, request: &LlmRequest) -> (r: Option<WireProtocol>)
        ensures
            r == call_protocol(name@, request.content@),
    {
        if same_text(name, "openai.chat_completions") || same_text(name, "openai_chat") || same_text(
            name,
            "openai_chat_completions",
        ) {
            return Some(WireProtocol::OpenaiChat);
        }
        if same_text(name, "openai.responses") || same_text(name, "openai_responses") {
            return Some(WireProtocol::OpenaiResponses);
        }
        if same_text(name, "anthropic.messages") || same_text(name, "anthropic") || same_text(
            name,
            "anthropic_messages",
        ) {
            return Some(WireProtocol::AnthropicMessages);
        }
        if request.content.get("input").is_some() {
            Some(WireProtocol::OpenaiResponses)
        } else if request.content.get("system").is_some() {
            Some(WireProtocol::AnthropicMessages)
        } else if request.content.get("messages").is_some() {
            Some(WireProtocol::OpenaiChat)
        } else {
            None
        }
    }
}

/// The protocol that a label in a decision stands for.
pub open spec fn labelled_protocol(label: Seq<char>) -> Option<WireProtocol> {
    if label == "openai_chat"@ || label == "openai_chat_completions"@ || label == "openai_chat_completions.v1"@ {
        Some(WireProtocol::OpenaiChat)
    } else if label == "openai_responses"@ || label == "openai_responses.v1"@ {
        Some(WireProtocol::OpenaiResponses)
    } else if label == "anthropic_messages"@ || label == "anthropic_messages.v1"@ {
        Some(WireProtocol::AnthropicMessages)
    } else {
        None
    }
}

/// Whether an error says that a label stands for no protocol.
pub open spec fn unknown_label(error: FlowError, label: Seq<char>) -> bool {
    &&& error is InvalidArgument
    &&& error->InvalidArgument_0@ == "unsupported Switchyard target protocol "@ + debug_text(label)
}

/// The protocol that a label in a decision stands for.
pub fn protocol_from_label(label: &str) -> (r: Result<WireProtocol, FlowError>)
    ensures
        match r {
            Ok(protocol) => labelled_protocol(label@) == Some(protocol),
            Err(error) => labelled_protocol(label@) is None && unknown_label(error, label@),
        },
{
    if same_text(label, "openai_chat") || same_text(label, "openai_chat_completions") || same_text(
        label,
        "openai_chat_completions.v1",
    ) {
        Ok(WireProtocol::OpenaiChat)
    } else if same_text(label, "openai_responses") || same_text(label, "openai_responses.v1") {
        Ok(WireProtocol::OpenaiResponses)
    } else if same_text(label, "anthropic_messages") || same_text(label, "anthropic_messages.v1") {
        Ok(WireProtocol::AnthropicMessages)
    } else {
        Err(
            FlowError::InvalidArgument(
                "unsupported Switchyard target protocol ".to_owned().concat(quoted(label).as_str()),
            ),
        )
    }
}

/// The text of the header `name`, without white space at its ends, where that leaves anything.
pub open spec fn header_text(headers: Members, name: Seq<char>) -> Option<Seq<char>> {
    match lookup(headers, name) {
        Some(JsonView::Text(s)) => if blank(s) {
            None
        } else {
            Some(trim(s))
        },
        _ => None,
    }
}

/// The text of the header `name`, without white space at its ends, where that leaves anything.
pub fn call_header(request: &LlmRequest, name: &str) -> (r: Option<String>)
    ensures
        match r {
            Some(s) => header_text(request.headers.view(), name@) == Some(s@),
            None => header_text(request.headers.view(), name@) is None,
        },
{
    match request.headers.get(name) {
        Some(Json::Text(s)) => {
            let t = trimmed(s.as_str());
            if t.is_empty() {
                None
            } else {
                Some(t.to_owned())
            }
        },
        _ => None,
    }
}

/// A base URL without slashes at its end, and the endpoint behind it: a `/v1` that both have stands once.
pub open spec fn joined_url(base_url: Seq<char>, endpoint: Seq<char>) -> Seq<char> {
    let base = trim_end_char(base_url, '/');
    if ends(base, "/v1"@) && begins(endpoint, "/v1/"@) {
        base + endpoint.skip(3)
    } else {
        base + endpoint
    }
}

/// The URL of `endpoint` under `base_url`.
pub fn dispatch_url(base_url: &str, endpoint: &str) -> (r: String)
    ensures
        r@ == joined_url(base_url@, endpoint@),
{
    let base = without_end_char(base_url, '/');
    if ends_with(base, "/v1") && begins_with(endpoint, "/v1/") {
        proof {
            reveal_strlit("/v1/");
        }
        let n: usize = endpoint.unicode_len();
        let rest = endpoint.substring_char(3, n);
        assert(rest@ =~= endpoint@.skip(3));
        base.to_owned().concat(rest)
    } else {
        base.to_owned().concat(endpoint)
    }
}

/// Whether or not a base URL ends in `/v1`, an endpoint under `/v1` has one URL.
pub proof fn dispatch_url_has_one_version(base: Seq<char>, endpoint: Seq<char>)
    requires
        trim_end_char(base, '/') == base,
        !ends(base, "/v1"@),
        begins(endpoint, "/v1/"@),
    ensures
        joined_url(base + "/v1"@, endpoint) == joined_url(base, endpoint),
        joined_url(base, endpoint) == base + endpoint,
{
    reveal_strlit("/v1");
    reveal_strlit("/v1/");
    let long = base + "/v1"@;
    assert(long.last() == '1');
    assert(trim_end_char(long, '/') == long);
    assert(long.skip(long.len() - 3) =~= "/v1"@);
    assert(endpoint.take(3) =~= endpoint.take(4).take(3));
    assert(endpoint.take(3) =~= "/v1"@);
    assert(long + endpoint.skip(3) =~= base + endpoint);
}

pub const INTERNAL_DISPATCH_URL_HEADER: &'static str = "x-nemo-relay-internal-dispatch-url";

pub const INTERNAL_DISPATCH_ROUTE_HEADER: &'static str = "x-nemo-relay-internal-dispatch-route";

pub const INTERNAL_RETRY_AWARE_HEADER: &'static str = "x-nemo-relay-internal-retry-aware";

/// The headers of a call that goes to `target`: those of the target, and those that direct the dispatch.
pub open spec fn routed_headers(headers: Members, target_headers: Option<Members>, target: TargetView) -> Members {
    let own = match target_headers {
        Some(more) => extended(headers, more),
        None => headers,
    };
    inserted(
        inserted(
            inserted(own, INTERNAL_DISPATCH_ROUTE_HEADER@, JsonView::Text(target.protocol.label_text())),
            INTERNAL_DISPATCH_URL_HEADER@,
            JsonView::Text(joined_url(target.base_url, target.endpoint)),
        ),
        INTERNAL_RETRY_AWARE_HEADER@,
        JsonView::Text("true"@),
    )
}

/// Whatever headers a call or its target carries, the dispatch is directed by the target's binding alone: its
/// protocol and its URL. Any other header is the target's where it has it, else the call's.
pub proof fn a_routed_call_goes_where_its_target_says(
    headers: Members,
    target_headers: Option<Members>,
    target: TargetView,
    key: Seq<char>,
)
    requires
        sorted(headers),
        target_headers matches Some(more) ==> sorted(more),
    ensures
        ({
            let routed = routed_headers(headers, target_headers, target);
            &&& lookup(routed, INTERNAL_DISPATCH_ROUTE_HEADER@) == Some(
                JsonView::Text(target.protocol.label_text()),
            )
            &&& lookup(routed, INTERNAL_DISPATCH_URL_HEADER@) == Some(
                JsonView::Text(joined_url(target.base_url, target.endpoint)),
            )
            &&& lookup(routed, INTERNAL_RETRY_AWARE_HEADER@) == Some(JsonView::Text("true"@))
            &&& key != INTERNAL_DISPATCH_ROUTE_HEADER@ && key != INTERNAL_DISPATCH_URL_HEADER@ && key
                != INTERNAL_RETRY_AWARE_HEADER@ ==> lookup(routed, key) == (match target_headers {
                Some(more) => if has_key(more, key) {
                    lookup(more, key)
                } else {
                    lookup(headers, key)
                },
                None => lookup(headers, key),
            })
        }),
{
    let own = match target_headers {
        Some(more) => extended(headers, more),
        None => headers,
    };
    if let Some(more) = target_headers {
        lookup_extended(headers, more, key);
    }
    let route = JsonView::Text(target.protocol.label_text());
    let url = JsonView::Text(joined_url(target.base_url, target.endpoint));
    let aware = JsonView::Text("true"@);
    let one = inserted(own, INTERNAL_DISPATCH_ROUTE_HEADER@, route);
    let two = inserted(one, INTERNAL_DISPATCH_URL_HEADER@, url);
    reveal_strlit("x-nemo-relay-internal-dispatch-url");
    reveal_strlit("x-nemo-relay-internal-dispatch-route");
    reveal_strlit("x-nemo-relay-internal-retry-aware");
    assert(INTERNAL_DISPATCH_URL_HEADER@.len() == 34);
    assert(INTERNAL_DISPATCH_ROUTE_HEADER@.len() == 36);
    assert(INTERNAL_RETRY_AWARE_HEADER@.len() == 33);
    inserted_sorted(own, INTERNAL_DISPATCH_ROUTE_HEADER@, route);
    inserted_sorted(one, INTERNAL_DISPATCH_URL_HEADER@, url);
    lookup_inserted(own, INTERNAL_DISPATCH_ROUTE_HEADER@, route, INTERNAL_DISPATCH_ROUTE_HEADER@);
    lookup_inserted(one, INTERNAL_DISPATCH_URL_HEADER@, url, INTERNAL_DISPATCH_ROUTE_HEADER@);
    lookup_inserted(two, INTERNAL_RETRY_AWARE_HEADER@, aware, INTERNAL_DISPATCH_ROUTE_HEADER@);
    lookup_inserted(one, INTERNAL_DISPATCH_URL_HEADER@, url, INTERNAL_DISPATCH_URL_HEADER@);
    lookup_inserted(two, INTERNAL_RETRY_AWARE_HEADER@, aware, INTERNAL_DISPATCH_URL_HEADER@);
    lookup_inserted(two, INTERNAL_RETRY_AWARE_HEADER@, aware, INTERNAL_RETRY_AWARE_HEADER@);
    lookup_inserted(own, INTERNAL_DISPATCH_ROUTE_HEADER@, route, key);
    lookup_inserted(one, INTERNAL_DISPATCH_URL_HEADER@, url, key);
    lookup_inserted(two, INTERNAL_RETRY_AWARE_HEADER@, aware, key);
}

/// What is known of the translation of a call into another protocol: whether the call could be read, and
/// the call as it reads in the other protocol.
#[derive(Debug)]
pub struct Translated {
    pub decoded: Result<(), String>,
    pub encoded: Result<LlmRequest, String>,
}

/// The call that goes to the target `backend_id`, or why there is none.
pub open spec fn routed_call(
    config: SwitchyardConfig,
    target_headers: Seq<(Seq<char>, Members)>,
    inbound: WireProtocol,
    headers: Members,
    content: JsonView,
    backend_id: Seq<char>,
    translated: Translated,
) -> Result<(Members, JsonView), Seq<char>> {
    match lookup(config.targets.view(), backend_id) {
        None => Err("unknown backend_id "@ + debug_text(backend_id)),
        Some(target) => match translated.decoded {
            Err(error) => Err("request decode failed: "@ + error@),
            Ok(_) => if inbound == target.protocol {
                applied(target, lookup(target_headers, backend_id), headers, content)
            } else {
                match translated.encoded {
                    Err(error) => Err("request translation failed: "@ + error@),
                    Ok(call) => applied(
                        target,
                        lookup(target_headers, backend_id),
                        call.headers.view(),
                        call.content@,
                    ),
                }
            },
        },
    }
}

/// A call in the protocol of `target`, directed to it.
pub open spec fn applied(
    target: TargetView,
    target_headers: Option<Members>,
    headers: Members,
    content: JsonView,
) -> Result<(Members, JsonView), Seq<char>> {
    match content {
        JsonView::Object(members) => Ok(
            (
                routed_headers(headers, target_headers, target),
                JsonView::Object(inserted(members, "model"@, JsonView::Text(target.model))),
            ),
        ),
        _ => Err("translated request body is not an object"@),
    }
}

/// A configuration that was accepted, with the headers of its targets.
#[derive(Debug)]
pub struct SwitchyardRuntime {
    pub config: SwitchyardConfig,
    pub target_headers: StringMap<JsonObject>,
}

fn direct_call(target: &TargetBinding, target_headers: Option<&JsonObject>, call: LlmRequest) -> (r: Result<
    LlmRequest,
    String,
>)
    ensures
        ({
            let own = match target_headers {
                Some(o) => Some(o.view()),
                None => None,
            };
            match r {
                Ok(routed) => applied(target@, own, call.headers.view(), call.content@) == Ok::<
                    (Members, JsonView),
                    Seq<char>,
                >((routed.headers.view(), routed.content@)),
                Err(error) => applied(target@, own, call.headers.view(), call.content@) == Err::<
                    (Members, JsonView),
                    Seq<char>,
                >(error@),
            }
        }),
{
    let LlmRequest { headers, content } = call;
    let mut headers = headers;
    match content {
        Json::Object(object) => {
            let mut object = object;
            object.insert("model".to_owned(), Json::Text(target.model.clone()));
            if let Some(more) = target_headers {
                extend_members(&mut headers, more);
            }
            headers.insert(
                INTERNAL_DISPATCH_ROUTE_HEADER.to_owned(),
                Json::Text(target.protocol.label().to_owned()),
            );
            headers.insert(
                INTERNAL_DISPATCH_URL_HEADER.to_owned(),
                Json::Text(dispatch_url(target.base_url.as_str(), target.endpoint.as_str())),
            );
            headers.insert(INTERNAL_RETRY_AWARE_HEADER.to_owned(), Json::Text("true".to_owned()));
            Ok(LlmRequest { headers, content: Json::Object(object) })
        },
        _ => Err("translated request body is not an object".to_owned()),
    }
}

impl SwitchyardRuntime {
    /// The call that goes to the target `backend_id`. `translated` is what the translation of the call into
    /// that target's protocol gave.
    pub fn apply_target(
        &self,
        inbound: WireProtocol,
        request: LlmRequest,
        backend_id: &str,
        translated: Translated,
    ) -> (r: Result<LlmRequest, String>)
        ensures
            ({
                let call = routed_call(
                    self.config,
                    self.target_headers.view(),
                    inbound,
                    request.headers.view(),
                    request.content@,
                    backend_id@,
                    translated,
                );
                match r {
                    Ok(routed) => call == Ok::<(Members, JsonView), Seq<char>>((routed.headers.view(), routed.content@)),
                    Err(error) => call == Err::<(Members, JsonView), Seq<char>>(error@),
                }
            }),
    {
        let target = match self.config.targets.get(backend_id) {
            None => {
                return Err("unknown backend_id ".to_owned().concat(quoted(backend_id).as_str()));
            },
            Some(target) => target,
        };
        if let Err(error) = translated.decoded {
            return Err("request decode failed: ".to_owned().concat(error.as_str()));
        }
        let call = if inbound == target.protocol {
            request
        } else {
            match translated.encoded {
                Err(error) => {
                    return Err("request translation failed: ".to_owned().concat(error.as_str()));
                },
                Ok(call) => call,
            }
        };
        direct_call(target, self.target_headers.get(backend_id), call)
    }

    /// The protocol that a call is put into for a target: the call's own where there is no such target.
    pub fn protocol_for(&self, inbound: WireProtocol, backend_id: &str) -> (r: WireProtocol)
        ensures
            r == (match lookup(self.config.targets.view(), backend_id@) {
                Some(target) => target.protocol,
                None => inbound,
            }),
    {
        match self.config.targets.get(backend_id) {
            Some(target) => target.protocol,
            None => inbound,
        }
    }

    /// The protocol that a call is put into for its trusted target.
    pub fn fallback_protocol(&self, inbound: WireProtocol) -> (r: WireProtocol)
        ensures
            r == (match lookup(self.config.targets.view(), self.config.default_targets.target_id(inbound)) {
                Some(target) => target.protocol,
                None => inbound,
            }),
    {
        self.protocol_for(inbound, self.config.default_targets.target(inbound))
    }

    /// The call that goes to the trusted fallback target of its protocol.
    pub fn fallback_request(&self, inbound: WireProtocol, request: LlmRequest, translated: Translated) -> (r: Result<
        LlmRequest,
        String,
    >)
        ensures
            ({
                let id = self.config.default_targets.target_id(inbound);
                let call = routed_call(
                    self.config,
                    self.target_headers.view(),
                    inbound,
                    request.headers.view(),
                    request.content@,
                    id,
                    translated,
                );
                match r {
                    Ok(routed) => has_key(self.config.targets.view(), id) && call == Ok::<(Members, JsonView), Seq<char>>(
                        (routed.headers.view(), routed.content@),
                    ),
                    Err(error) => if has_key(self.config.targets.view(), id) {
                        call == Err::<(Members, JsonView), Seq<char>>(error@)
                    } else {
                        error@ == "unknown fallback target "@ + debug_text(id)
                    },
                }
            }),
    {
        let id = self.config.default_targets.target(inbound);
        if !self.config.targets.contains_key(id) {
            return Err("unknown fallback target ".to_owned().concat(quoted(id).as_str()));
        }
        self.apply_target(inbound, request, id, translated)
    }
}

/// In an accepted configuration the trusted target of an enabled protocol takes every call of that protocol
/// that can be read and whose body is an object: it speaks the call's own protocol, so that nothing has to be
/// translated.
pub proof fn the_trusted_target_takes_every_call(
    config: SwitchyardConfig,
    decision_url: ParsedUrl,
    urls: Seq<ParsedUrl>,
    target_headers: Seq<(Seq<char>, Members)>,
    inbound: WireProtocol,
    headers: Members,
    content: JsonView,
    translated: Translated,
)
    requires
        config_error(config, decision_url, urls) is None,
        config.enabled_inbound_profiles.has(inbound),
        translated.decoded is Ok,
        content is Object,
    ensures
        routed_call(
            config,
            target_headers,
            inbound,
            headers,
            content,
            config.default_targets.target_id(inbound),
            translated,
        ) is Ok,
{
    accepted_config_has_fallbacks(config, decision_url, urls, inbound);
}

} // verus!
