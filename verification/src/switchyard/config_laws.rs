//! Which configurations of routing are accepted, and what comes of them.

use crate::json::{
    an_object_holds_no_more, an_object_tells_its_pairs, keys_differ, JsonView, Members,
};
use crate::ordered::{has_key, lookup, lookup_present, sorted, text_less, text_less_total};
use crate::switchyard::atof::{
    atof_error, atof_sinks, enabled_component, endpoint_error, named_streams, AtofEndpointDefaults,
    PluginComponentSpec,
};
use crate::switchyard::config::{
    config_error, endpoint_name_error, exact_binding, target_error, targets_error, ContextMode, SwitchyardConfig,
    TargetView, Targets, WireProtocol,
};
use crate::switchyard::headers::{
    call_headers, environment_value, fixed_headers, http_name, http_value, target_members, with_header, HeaderEntries,
    TextEntries,
};
use crate::switchyard::libsy::{all_speak, libsy_error, routable, LibsyAlgorithmKind, LibsyBackendConfig};
use crate::switchyard::plugin::{is_known_already, PluginError};
use crate::switchyard::runtime::{
    all_headers, asking_headers, headers_of, health_address, health_error, ready_headers, HealthAnswer,
};
use crate::switchyard::stream::unsupported_chunk;
use crate::text::{blank, decimal, is_white, opt_text, trim, trim_end_char};
use crate::text_laws::{
    a_blank_text_is_white_space, only_white_space_goes_at_the_end, only_white_space_goes_at_the_start,
};
use crate::url::{ParsedUrl, UrlView};
use vstd::prelude::*;
use vstd::string::*;

verus! {

/// The name of a trace endpoint is right where it is not empty and neither begins nor ends with white space; that there
/// is none is right too.
pub proof fn a_right_endpoint_name_has_no_white_ends(name: Option<Seq<char>>)
    ensures
        endpoint_name_error(name) is None <==> (name matches Some(n) ==> n.len() > 0 && !is_white(n[0]) && !is_white(
            n.last(),
        )),
{
    if let Some(n) = name {
        a_blank_text_is_white_space(n);
        let i = only_white_space_goes_at_the_start(n);
        let rest = n.skip(i);
        let j = only_white_space_goes_at_the_end(rest);
        if n.len() > 0 && !is_white(n[0]) && !is_white(n.last()) {
            assert(i == 0);
            assert(rest =~= n);
            if j < rest.len() {
                assert(is_white(rest[rest.len() - 1]));
            }
            assert(rest.take(j) =~= n);
            assert(!is_white(n[0]));
        }
        if endpoint_name_error(name) is None {
            assert(trim(n) == n);
            assert(trim(n).len() == j);
            assert(rest.len() == n.len() - i);
            assert(i == 0 && j == n.len());
            assert(rest =~= n);
            assert(n.len() > 0);
        }
    }
}

/// Targets are the same backend where they have the same model, protocol and endpoint, and base URLs that differ at
/// most in the slashes at their end.
pub proof fn slashes_do_not_make_another_backend(a: TargetView, b: TargetView)
    ensures
        exact_binding(a) == exact_binding(b) <==> {
            &&& a.model == b.model
            &&& a.protocol == b.protocol
            &&& a.endpoint == b.endpoint
            &&& trim_end_char(a.base_url, '/') == trim_end_char(b.base_url, '/')
        },
{
}

/// A target is right where its id, model and endpoint are not blank, its base URL is one of the web, its endpoint is
/// that of its protocol, and no target before it is the same backend.
pub open spec fn is_right_target(targets: Targets, urls: Seq<ParsedUrl>, i: int) -> bool {
    let target = targets[i].1;
    &&& !blank(targets[i].0)
    &&& !blank(target.model)
    &&& urls[i] is Ok
    &&& urls[i]->Ok_0.scheme == "http"@ || urls[i]->Ok_0.scheme == "https"@
    &&& target.endpoint == (match target.protocol {
        WireProtocol::OpenaiChat => "/v1/chat/completions"@,
        WireProtocol::OpenaiResponses => "/v1/responses"@,
        WireProtocol::AnthropicMessages => "/v1/messages"@,
    })
    &&& forall|j: int|
        0 <= j < i ==> {
            let other = (#[trigger] targets[j]).1;
            ||| other.model != target.model
            ||| other.protocol != target.protocol
            ||| other.endpoint != target.endpoint
            ||| trim_end_char(other.base_url, '/') != trim_end_char(target.base_url, '/')
        }
}

proof fn endpoints_are_not_blank()
    ensures
        !blank("/v1/chat/completions"@),
        !blank("/v1/responses"@),
        !blank("/v1/messages"@),
{
    reveal_strlit("/v1/chat/completions");
    reveal_strlit("/v1/responses");
    reveal_strlit("/v1/messages");
    a_blank_text_is_white_space("/v1/chat/completions"@);
    a_blank_text_is_white_space("/v1/responses"@);
    a_blank_text_is_white_space("/v1/messages"@);
    assert(!is_white("/v1/chat/completions"@[0]));
    assert(!is_white("/v1/responses"@[0]));
    assert(!is_white("/v1/messages"@[0]));
}

proof fn a_right_target_has_no_error(targets: Targets, urls: Seq<ParsedUrl>, i: int)
    requires
        0 <= i < targets.len(),
    ensures
        target_error(targets, urls, i) is None <==> is_right_target(targets, urls, i),
{
    endpoints_are_not_blank();
    let target = targets[i].1;
    if exists|j: int| 0 <= j < i && exact_binding((#[trigger] targets[j]).1) == exact_binding(target) {
        let j = choose|j: int| 0 <= j < i && exact_binding((#[trigger] targets[j]).1) == exact_binding(target);
        assert(targets[j].1.model == target.model);
    }
    if !is_right_target(targets, urls, i) && target_error(targets, urls, i) is None {
        assert forall|j: int| 0 <= j < i implies ({
            let other = (#[trigger] targets[j]).1;
            ||| other.model != target.model
            ||| other.protocol != target.protocol
            ||| other.endpoint != target.endpoint
            ||| trim_end_char(other.base_url, '/') != trim_end_char(target.base_url, '/')
        }) by {
            assert(exact_binding(targets[j].1) != exact_binding(target));
        }
    }
}

proof fn right_targets_have_no_error(targets: Targets, urls: Seq<ParsedUrl>, from: int)
    requires
        0 <= from <= targets.len(),
    ensures
        targets_error(targets, urls, from) is None <==> forall|i: int|
            from <= i < targets.len() ==> is_right_target(targets, urls, i),
    decreases targets.len() - from,
{
    if from < targets.len() {
        a_right_target_has_no_error(targets, urls, from);
        right_targets_have_no_error(targets, urls, from + 1);
    }
}

/// A configuration is accepted exactly where all that it says is right: its version, a profile, some time for a
/// decision, at most ten retries, some messages, a right endpoint name, which a profile with history has to have, a
/// Decision API on the web, targets that are all right, and, for each protocol that is enabled, of which there is one,
/// a trusted target that speaks it.
pub proof fn a_configuration_is_accepted_where_all_is_right(
    config: SwitchyardConfig,
    decision_url: ParsedUrl,
    urls: Seq<ParsedUrl>,
)
    ensures
        config_error(config, decision_url, urls) is None <==> {
            &&& config.version == 1
            &&& !blank(config.decision_profile_id@)
            &&& config.decision_timeout_millis > 0
            &&& config.max_retries <= 10
            &&& config.recent_message_count > 0
            &&& endpoint_name_error(opt_text(config.atof_endpoint_name)) is None
            &&& config.context_mode == ContextMode::AtofRequired ==> config.atof_endpoint_name is Some
            &&& decision_url is Ok
            &&& decision_url->Ok_0.scheme == "http"@ || decision_url->Ok_0.scheme == "https"@
            &&& config.targets.view().len() > 0
            &&& config.enabled_inbound_profiles.openai_chat || config.enabled_inbound_profiles.openai_responses
                || config.enabled_inbound_profiles.anthropic_messages
            &&& forall|i: int| 0 <= i < config.targets.view().len() ==> is_right_target(config.targets.view(),
                urls, i)
            &&& config.enabled_inbound_profiles.openai_chat ==> is_trusted(
                config,
                config.default_targets.openai_chat@,
                WireProtocol::OpenaiChat,
            )
            &&& config.enabled_inbound_profiles.openai_responses ==> is_trusted(
                config,
                config.default_targets.openai_responses@,
                WireProtocol::OpenaiResponses,
            )
            &&& config.enabled_inbound_profiles.anthropic_messages ==> is_trusted(
                config,
                config.default_targets.anthropic_messages@,
                WireProtocol::AnthropicMessages,
            )
        },
{
    right_targets_have_no_error(config.targets.view(), urls, 0);
    let set = config.enabled_inbound_profiles;
    assert(set.has(WireProtocol::OpenaiChat) == set.openai_chat);
    assert(set.has(WireProtocol::OpenaiResponses) == set.openai_responses);
    assert(set.has(WireProtocol::AnthropicMessages) == set.anthropic_messages);
    assert(config.atof_endpoint_name is Some <==> opt_text(config.atof_endpoint_name) is Some);
}

/// Whether a target of this id is bound and speaks this protocol.
pub open spec fn is_trusted(config: SwitchyardConfig, id: Seq<char>, protocol: WireProtocol) -> bool {
    lookup(config.targets.view(), id) is Some && lookup(config.targets.view(), id)->Some_0.protocol == protocol
}

/// A header that is put among others takes the place of those of its name; the others stay.
pub proof fn a_header_takes_the_place_of_its_name(
    entries: HeaderEntries,
    name: Seq<char>,
    value: Seq<char>,
    other: reqwest::header::HeaderName,
)
    ensures
        with_header(entries, name, value) is Ok <==> http_name(name) is Ok && http_value(value) is Ok,
        with_header(entries, name, value) matches Ok(after) ==> {
            &&& after.contains_key(http_name(name)->Ok_0)
            &&& after[http_name(name)->Ok_0] == seq![http_value(value)->Ok_0]
            &&& other != http_name(name)->Ok_0 ==> (after.contains_key(other) <==> entries.contains_key(other)) && (
            entries.contains_key(other) ==> after[other] == entries[other])
        },
        http_name(name) matches Err(error) ==> with_header(entries, name, value) == Err::<HeaderEntries, Seq<char>>(
            "invalid header name: "@ + error,
        ),
        http_name(name) is Ok ==> (http_value(value) matches Err(error) ==> with_header(entries, name, value)
            == Err::<
            HeaderEntries,
            Seq<char>,
        >("invalid header value: "@ + error)),
{
}

/// A header is taken from the environment exactly where its name is not given elsewhere and the variable is set and not
/// blank; its value is that of the variable, as it is.
pub proof fn a_header_has_the_value_of_its_variable(
    what: Seq<char>,
    fixed: TextEntries,
    name: Seq<char>,
    variable: Seq<char>,
    environment: TextEntries,
)
    ensures
        environment_value(what, fixed, name, variable, environment) is Ok <==> {
            &&& lookup(fixed, name) is None
            &&& lookup(environment, variable) is Some
            &&& !blank(lookup(environment, variable)->Some_0)
        },
        environment_value(what, fixed, name, variable, environment) matches Ok(value) ==> lookup(environment,
            variable)
            == Some(value),
{
}

/// The headers of calls that ask for decisions begin with those that are given, and each that comes behind, given or from
/// the environment, takes the place of those of its name.
pub proof fn each_header_is_put_behind_those_before_it(
    fixed: TextEntries,
    variables: TextEntries,
    environment: TextEntries,
    n: int,
)
    ensures
        fixed_headers(fixed, 0) == Ok::<HeaderEntries, Seq<char>>(HeaderEntries::empty()),
        0 < n <= fixed.len() && fixed_headers(fixed, n) is Ok ==> {
            &&& fixed_headers(fixed, n - 1) is Ok
            &&& fixed_headers(fixed, n)->Ok_0 == fixed_headers(fixed, n - 1)->Ok_0.insert(
                http_name(fixed[n - 1].0)->Ok_0,
                seq![http_value(fixed[n - 1].1)->Ok_0],
            )
        },
        call_headers(fixed, variables, environment, 0) == fixed_headers(fixed, fixed.len() as int),
        0 < n <= variables.len() && call_headers(fixed, variables, environment, n) is Ok ==> {
            &&& call_headers(fixed, variables, environment, n - 1) is Ok
            &&& lookup(environment, variables[n - 1].1) is Some
            &&& call_headers(fixed, variables, environment, n)->Ok_0 == call_headers(
                fixed,
                variables,
                environment,
                n - 1,
            )->Ok_0.insert(
                http_name(variables[n - 1].0)->Ok_0,
                seq![http_value(lookup(environment, variables[n - 1].1)->Some_0)->Ok_0],
            )
        },
{
}

proof fn members_of_a_target(
    fixed: TextEntries,
    variables: TextEntries,
    environment: TextEntries,
    n: int,
)
    requires
        sorted(fixed),
        sorted(variables),
        0 <= n <= variables.len(),
    ensures
        target_members(fixed, variables, environment, n) is Ok <==> forall|j: int|
            #![trigger variables[j]]
            0 <= j < n ==> lookup(fixed, variables[j].0) is None && lookup(environment, variables[j].1) is Some
                && !blank(
                lookup(environment, variables[j].1)->Some_0,
            ),
        target_members(fixed, variables, environment, n) matches Ok(members) ==> {
            &&& members.len() == fixed.len() + n
            &&& forall|i: int|
                #![trigger members[i]]
                0 <= i < fixed.len() ==> members[i] == (fixed[i].0, JsonView::Text(fixed[i].1))
            &&& forall|j: int|
                #![trigger members[fixed.len() + j]]
                0 <= j < n ==> members[fixed.len() + j] == (
                    variables[j].0,
                    JsonView::Text(lookup(environment, variables[j].1)->Some_0),
                )
        },
    decreases n,
{
    if n > 0 {
        members_of_a_target(fixed, variables, environment, n - 1);
        let value = environment_value("target header "@, fixed, variables[n - 1].0, variables[n - 1].1, environment);
        if target_members(fixed, variables, environment, n) is Ok {
            let before = target_members(fixed, variables, environment, n - 1)->Ok_0;
            let members = target_members(fixed, variables, environment, n)->Ok_0;
            assert(members == before.push((variables[n - 1].0, JsonView::Text(value->Ok_0))));
            assert forall|j: int|
                #![trigger members[fixed.len() + j]]
                0 <= j < n implies members[fixed.len() + j] == (
                variables[j].0,
                JsonView::Text(lookup(environment, variables[j].1)->Some_0),
            ) by {
                if j < n - 1 {
                    assert(before[fixed.len() + j] == members[fixed.len() + j]);
                }
            }
        }
    }
}

/// The headers of a target are those that are given and those that the environment gives, each under its name, and no
/// others. They can be had exactly where no name is in both, and every variable is set and not blank.
pub proof fn a_target_has_its_headers(targets: Targets, environment: TextEntries, i: int, key: Seq<char>)
    requires
        0 <= i < targets.len(),
        sorted(targets[i].1.headers),
        sorted(targets[i].1.header_env),
    ensures
        ({
            let fixed = targets[i].1.headers;
            let variables = targets[i].1.header_env;
            let headers = headers_of(targets, environment, i);
            &&& headers is Ok <==> forall|j: int|
                #![trigger variables[j]]
                0 <= j < variables.len() ==> lookup(fixed, variables[j].0) is None && lookup(
                    environment,
                    variables[j].1,
                ) is Some && !blank(lookup(environment, variables[j].1)->Some_0)
            &&& headers matches Ok(members) ==> lookup(members, key) == (match lookup(fixed, key) {
                Some(value) => Some(JsonView::Text(value)),
                None => match lookup(variables, key) {
                    Some(variable) => Some(JsonView::Text(lookup(environment, variable)->Some_0)),
                    None => None,
                },
            })
        }),
{
    let fixed = targets[i].1.headers;
    let variables = targets[i].1.header_env;
    let n = variables.len() as int;
    members_of_a_target(fixed, variables, environment, n);
    if headers_of(targets, environment, i) is Ok {
        let members = target_members(fixed, variables, environment, n)->Ok_0;
        assert(keys_differ(members)) by {
            assert forall|a: int, b: int| 0 <= a < b < members.len() implies (#[trigger] members[a]).0 != (
            #[trigger] members[b]).0 by {
                if b < fixed.len() {
                    assert(text_less(fixed[a].0, fixed[b].0));
                    text_less_total(fixed[a].0, fixed[b].0);
                } else {
                    let j = b - fixed.len();
                    assert(members[fixed.len() + j].0 == variables[j].0);
                    if a < fixed.len() {
                        assert(lookup(fixed, variables[j].0) is None);
                        crate::ordered::lookup_sorted(fixed, a);
                        assert(lookup(fixed, fixed[a].0) is Some);
                    } else {
                        let k = a - fixed.len();
                        assert(members[fixed.len() + k].0 == variables[k].0);
                        assert(text_less(variables[k].0, variables[j].0));
                        text_less_total(variables[k].0, variables[j].0);
                    }
                }
            }
        }
        an_object_tells_its_pairs(members);
        if has_key(fixed, key) {
            let a = lookup_present(fixed, key);
            assert(members[a].0 == key);
        } else if has_key(variables, key) {
            let j = lookup_present(variables, key);
            assert(members[fixed.len() + j].0 == key);
        } else {
            assert forall|a: int| 0 <= a < members.len() implies (#[trigger] members[a]).0 != key by {
                if a < fixed.len() {
                    crate::ordered::lookup_sorted(fixed, a);
                } else {
                    let j = a - fixed.len();
                    assert(members[fixed.len() + j].0 == variables[j].0);
                    crate::ordered::lookup_sorted(variables, j);
                }
            }
            an_object_holds_no_more(members, key);
        }
    }
}

/// A runtime has the headers of every target under the id of that target, and none of any other. It comes of a
/// configuration that is accepted and whose headers can all be had.
pub proof fn a_runtime_has_the_headers_of_its_targets(config: SwitchyardConfig, environment: TextEntries)
    ensures
        ({
            let targets = config.targets.view();
            let ready = ready_headers(config, environment);
            &&& ready is Ok <==> {
                &&& config_error(
                    config,
                    crate::url::url_parts(config.decision_api_url@),
                    crate::switchyard::config::base_urls(targets),
                ) is None
                &&& asking_headers(config, environment) is Ok
                &&& forall|i: int| 0 <= i < targets.len() ==> (#[trigger] headers_of(targets, environment, i)) is Ok
            }
            &&& ready matches Ok(headers) ==> {
                &&& headers.len() == targets.len()
                &&& forall|i: int|
                    #![trigger headers[i]]
                    0 <= i < headers.len() ==> headers[i].0 == targets[i].0 && headers_of(targets, environment, i)
                        == Ok::<Members, Seq<char>>(headers[i].1)
            }
        }),
{
    headers_by_target(config.targets.view(), environment, config.targets.view().len() as int);
}

proof fn headers_by_target(targets: Targets, environment: TextEntries, n: int)
    requires
        0 <= n <= targets.len(),
    ensures
        all_headers(targets, environment, n) is Ok <==> forall|i: int|
            0 <= i < n ==> (#[trigger] headers_of(targets, environment, i)) is Ok,
        all_headers(targets, environment, n) matches Ok(headers) ==> {
            &&& headers.len() == n
            &&& forall|i: int|
                #![trigger headers[i]]
                0 <= i < n ==> headers[i].0 == targets[i].0 && headers_of(targets, environment, i) == Ok::<
                    Members,
                    Seq<char>,
                >(headers[i].1)
        },
    decreases n,
{
    if n > 0 {
        headers_by_target(targets, environment, n - 1);
        assert(headers_of(targets, environment, n - 1) is Ok || headers_of(targets, environment, n - 1) is Err);
    }
}

/// The health of a service is asked for at the scheme, host and port of its Decision API, whatever path that has.
pub proof fn health_is_asked_for_at_the_same_host(url: UrlView)
    ensures
        url.host is None ==> health_address(url) is None,
        url.host matches Some(host) ==> {
            &&& health_address(url) is Some
            &&& url.port matches Some(port) ==> health_address(url)->Some_0 == url.scheme + "://"@ + host + (":"@
                + decimal(port as nat)) + "/health"@
            &&& url.port is None ==> health_address(url)->Some_0 == url.scheme + "://"@ + host + "/health"@
        },
{
    if let Some(host) = url.host {
        if url.port is None {
            assert(url.scheme + "://"@ + host + Seq::<char>::empty() =~= url.scheme + "://"@ + host);
        }
    }
}

/// The plugin is activated only where the service reports that its status is `ok`.
pub proof fn only_a_healthy_service_is_used(url: Seq<char>, answer: HealthAnswer)
    ensures
        health_error(url, answer) is None <==> answer is Report && answer->Report_0@.get("status"@) == Some(
            JsonView::Text("ok"@),
        ),
{
}

/// The component that counts is the first of its kind that is enabled.
pub proof fn the_first_enabled_component_counts(components: Seq<PluginComponentSpec>, kind: Seq<char>, from: int)
    requires
        0 <= from,
    ensures
        match enabled_component(components, kind, from) {
            Some(i) => {
                &&& from <= i < components.len()
                &&& components[i].enabled
                &&& components[i].kind@ == kind
                &&& forall|j: int|
                    #![trigger components[j]]
                    from <= j < i ==> !(components[j].enabled && components[j].kind@ == kind)
            },
            None => forall|j: int|
                #![trigger components[j]]
                from <= j < components.len() ==> !(components[j].enabled && components[j].kind@ == kind),
        },
    decreases components.len() - from,
{
    if from < components.len() && !(components[from].enabled && components[from].kind@ == kind) {
        the_first_enabled_component_counts(components, kind, from + 1);
    }
}

/// The streams of a name are those sinks that say that they are streams of this name, in their order.
pub proof fn streams_are_found_by_name(sinks: Seq<JsonView>, name: Seq<char>)
    ensures
        named_streams(sinks, name, sinks.len() as int) == sinks.filter(
            |sink: JsonView|
                sink.get("type"@) == Some(JsonView::Text("stream"@)) && sink.get("name"@)
                    == Some(JsonView::Text(name)),
        ),
{
    streams_are_filtered(sinks, name, sinks.len() as int);
    assert(sinks.take(sinks.len() as int) =~= sinks);
}

proof fn streams_are_filtered(sinks: Seq<JsonView>, name: Seq<char>, n: int)
    requires
        0 <= n <= sinks.len(),
    ensures
        named_streams(sinks, name, n) == sinks.take(n).filter(
            |sink: JsonView|
                sink.get("type"@) == Some(JsonView::Text("stream"@)) && sink.get("name"@)
                    == Some(JsonView::Text(name)),
        ),
    decreases n,
{
    reveal(Seq::filter);
    if n > 0 {
        streams_are_filtered(sinks, name, n - 1);
        assert(sinks.take(n).drop_last() =~= sinks.take(n - 1));
        assert(sinks.take(n).last() == sinks[n - 1]);
    } else {
        assert(sinks.take(0) =~= Seq::empty());
    }
}

/// A trace endpoint serves a profile with history exactly where it is posted to over HTTP, preserves field names, and
/// takes at least one header from the environment. What it does not say it has from the defaults.
pub proof fn an_endpoint_posts_and_preserves(endpoint: JsonView, name: Seq<char>, defaults: AtofEndpointDefaults)
    ensures
        endpoint_error(endpoint, name, defaults) is None <==> {
            &&& endpoint.get("transport"@) == Some(JsonView::Text("http_post"@))
                || (endpoint.get("transport"@) is None
                && defaults.http_post)
            &&& endpoint.get("field_name_policy"@) == Some(JsonView::Text("preserve"@)) || (endpoint.get(
                "field_name_policy"@,
            ) is None && defaults.preserve)
            &&& endpoint.get("header_env"@) is Some
            &&& endpoint.get("header_env"@)->Some_0 is Object
            &&& endpoint.get("header_env"@)->Some_0->Object_0.len() > 0
        },
{
}

/// The sinks of the trace exporter count only where it is enabled.
pub proof fn only_an_enabled_exporter_has_sinks(observability: Members)
    ensures
        atof_sinks(observability) is Some <==> {
            &&& lookup(observability, "atof"@) is Some
            &&& lookup(observability, "atof"@)->Some_0.get("enabled"@) == Some(JsonView::Bool(true))
            &&& lookup(observability, "atof"@)->Some_0.get("sinks"@) is Some
            &&& lookup(observability, "atof"@)->Some_0.get("sinks"@)->Some_0 is Array
        },
        atof_sinks(observability) matches Some(sinks) ==> lookup(observability, "atof"@)->Some_0.get("sinks"@)
            == Some(
            JsonView::Array(sinks),
        ),
{
}

/// An enabled routing plugin with history is accepted exactly where its configuration reads and names an endpoint, and
/// the first enabled exporter has one stream of that name, which is right. Without history, or without the plugin,
/// nothing is asked of the exporter.
pub proof fn a_profile_with_history_needs_its_endpoint(
    components: Seq<PluginComponentSpec>,
    parsed: Result<SwitchyardConfig, String>,
    defaults: AtofEndpointDefaults,
)
    ensures
        ({
            let name = parsed->Ok_0.atof_endpoint_name;
            let place = enabled_component(components, "observability"@, 0);
            let sinks = atof_sinks(components[place->Some_0].config.view());
            let streams = named_streams(sinks->Some_0, name->Some_0@, sinks->Some_0.len() as int);
            atof_error(components, parsed, defaults) is None <==> {
                ||| enabled_component(components, "switchyard"@, 0) is None
                ||| parsed is Ok && parsed->Ok_0.context_mode == ContextMode::PayloadOnly
                ||| {
                    &&& parsed is Ok
                    &&& name is Some
                    &&& endpoint_name_error(Some(name->Some_0@)) is None
                    &&& place is Some
                    &&& sinks is Some
                    &&& streams.len() == 1
                    &&& endpoint_error(streams[0], name->Some_0@, defaults) is None
                }
            }
        }),
{
}

/// The in-process backend is accepted exactly where its algorithm has what it needs: the classifier three targets that
/// are bound and a threshold from zero to one, a random choice at least one target.
pub proof fn an_algorithm_needs_its_targets(config: LibsyBackendConfig, targets: Targets)
    ensures
        config.algorithm == LibsyAlgorithmKind::LlmClassifier ==> (libsy_error(config, targets) is None <==> {
            &&& config.classifier_target@.len() > 0 && lookup(targets, config.classifier_target@) is Some
            &&& config.strong_target@.len() > 0 && lookup(targets, config.strong_target@) is Some
            &&& config.weak_target@.len() > 0 && lookup(targets, config.weak_target@) is Some
            &&& config.threshold_bits <= 0x3ff0_0000_0000_0000u64 || config.threshold_bits == 0x8000_0000_0000_0000u64
        }),
        config.algorithm == LibsyAlgorithmKind::Random ==> (libsy_error(config, targets) is None
            <==> targets.len() > 0),
{
}

/// The classifier routes among its three targets, a random choice among all that are bound.
pub proof fn an_algorithm_routes_among_its_targets(config: LibsyBackendConfig, targets: Targets, id: Seq<char>)
    ensures
        config.algorithm == LibsyAlgorithmKind::LlmClassifier ==> (routable(config, targets).contains(id) <==> id
            == config.classifier_target@ || id == config.strong_target@ || id == config.weak_target@),
        config.algorithm == LibsyAlgorithmKind::Random ==> (routable(config, targets).contains(id) <==> exists|i: int|
            0 <= i < targets.len() && (#[trigger] targets[i]).0 == id),
{
    let ids = routable(config, targets);
    if config.algorithm == LibsyAlgorithmKind::LlmClassifier {
        assert(ids[0] == config.classifier_target@ && ids[1] == config.strong_target@ && ids[2]
            == config.weak_target@);
        if ids.contains(id) {
            let i = choose|i: int| 0 <= i < ids.len() && ids[i] == id;
            assert(i == 0 || i == 1 || i == 2);
        }
    } else {
        if ids.contains(id) {
            let i = choose|i: int| 0 <= i < ids.len() && ids[i] == id;
            assert(targets[i].0 == id);
        }
        if exists|i: int| 0 <= i < targets.len() && (#[trigger] targets[i]).0 == id {
            let i = choose|i: int| 0 <= i < targets.len() && (#[trigger] targets[i]).0 == id;
            assert(ids[i] == id);
        }
    }
}

/// That the plugin is registered already is no failure; any other refusal of the registry is.
pub proof fn only_a_second_registration_is_forgiven(error: PluginError)
    ensures
        is_known_already(error) <==> error is RegistrationFailed && exists|i: int|
            #![trigger error->RegistrationFailed_0@.subrange(i, i + 18)]
            0 <= i && i + 18 <= error->RegistrationFailed_0@.len() && error->RegistrationFailed_0@.subrange(i, i + 18)
                == "already registered"@,
{
    reveal_strlit("already registered");
    if let PluginError::RegistrationFailed(message) = error {
        let part = "already registered"@;
        assert(part.len() == 18);
        crate::text_laws::a_part_stands_between_the_rest(Seq::empty(), part, Seq::empty(), message@);
        if exists|i: int|
            #![trigger message@.subrange(i, i + 18)]
            0 <= i && i + 18 <= message@.len() && message@.subrange(i, i + 18) == part {
            let i = choose|i: int|
                #![trigger message@.subrange(i, i + 18)]
                0 <= i && i + 18 <= message@.len() && message@.subrange(i, i + 18) == part;
            assert(message@.skip(i).take(18) =~= message@.subrange(i, i + 18));
            assert(crate::text::begins(message@.skip(i), part));
        }
    }
}

/// A chunk of a chat cannot be translated exactly where one of its choices brings audio or reasoning.
pub proof fn a_chat_chunk_with_more_than_text_is_not_translated(chunk: JsonView)
    ensures
        unsupported_chunk(WireProtocol::OpenaiChat, chunk) <==> {
            &&& chunk.get("choices"@) is Some
            &&& chunk.get("choices"@)->Some_0 is Array
            &&& exists|i: int|
                #![trigger chunk.get("choices"@)->Some_0->Array_0[i]]
                0 <= i < chunk.get("choices"@)->Some_0->Array_0.len() && {
                    let delta = chunk.get("choices"@)->Some_0->Array_0[i].get("delta"@);
                    delta is Some && (delta->Some_0.get("audio"@) is Some || delta->Some_0.get(
                        "reasoning_content"@,
                    ) is Some)
                }
        },
{
    if let Some(JsonView::Array(choices)) = chunk.get("choices"@) {
        assert(chunk.index("choices"@) == JsonView::Array(choices));
        if unsupported_chunk(WireProtocol::OpenaiChat, chunk) {
            let i = choose|i: int|
                0 <= i < choices.len() && crate::switchyard::stream::extended_choice(#[trigger] choices[i]);
            assert(choices[i].get("delta"@) is Some);
            assert(chunk.get("choices"@)->Some_0->Array_0[i] == choices[i]);
        }
        if exists|i: int|
            #![trigger choices[i]]
            0 <= i < choices.len() && {
                let delta = choices[i].get("delta"@);
                delta is Some && (delta->Some_0.get("audio"@) is Some
                    || delta->Some_0.get("reasoning_content"@) is Some)
            } {
            let i = choose|i: int|
                #![trigger choices[i]]
                0 <= i < choices.len() && {
                    let delta = choices[i].get("delta"@);
                    delta is Some && (delta->Some_0.get("audio"@) is Some || delta->Some_0.get(
                        "reasoning_content"@,
                    ) is Some)
                };
            assert(crate::switchyard::stream::extended_choice(choices[i]));
        }
    }
}

/// A chunk of the responses protocol cannot be translated exactly where it begins reasoning, a computer call or a web
/// search; one of the messages protocol exactly where it begins a block that is neither text nor the use of a tool.
pub proof fn a_chunk_with_its_own_kind_of_item_is_not_translated(chunk: JsonView)
    ensures
        unsupported_chunk(WireProtocol::OpenaiResponses, chunk) <==> {
            let kind = chunk.get("item"@)->Some_0.get("type"@);
            &&& chunk.get("type"@) == Some(JsonView::Text("response.output_item.added"@))
            &&& chunk.get("item"@) is Some
            &&& kind == Some(JsonView::Text("reasoning"@)) || kind == Some(JsonView::Text("computer_call"@)) || kind
                == Some(JsonView::Text("web_search_call"@))
        },
        unsupported_chunk(WireProtocol::AnthropicMessages, chunk) <==> {
            let kind = chunk.get("content_block"@)->Some_0.get("type"@);
            &&& chunk.get("type"@) == Some(JsonView::Text("content_block_start"@))
            &&& !(chunk.get("content_block"@) is Some && (kind == Some(JsonView::Text("text"@)) || kind == Some(
                JsonView::Text("tool_use"@),
            )))
        },
{
}

/// The targets of an algorithm all speak a protocol exactly where each of them is bound and speaks it.
pub proof fn a_protocol_is_spoken_by_every_target(
    config: LibsyBackendConfig,
    targets: Targets,
    protocol: WireProtocol,
)
    ensures
        all_speak(config, targets, protocol) <==> forall|id: Seq<char>| #[trigger]
            routable(config, targets).contains(id) ==> lookup(targets, id) is Some && lookup(
                targets,
                id,
            )->Some_0.protocol == protocol,
{
    let ids = routable(config, targets);
    if all_speak(config, targets, protocol) {
        assert forall|id: Seq<char>| #[trigger] ids.contains(id) implies lookup(targets, id) is Some && lookup(
            targets,
            id,
        )->Some_0.protocol == protocol by {
            let i = choose|i: int| 0 <= i < ids.len() && ids[i] == id;
            assert(lookup(targets, ids[i]) is Some);
        }
    }
    if forall|id: Seq<char>| #[trigger]
        ids.contains(id) ==> lookup(targets, id) is Some && lookup(targets, id)->Some_0.protocol == protocol {
        assert forall|i: int| 0 <= i < ids.len() implies (match lookup(targets, #[trigger] ids[i]) {
            Some(target) => target.protocol == protocol,
            None => false,
        }) by {
            assert(ids.contains(ids[i]));
        }
    }
}

} // verus!
