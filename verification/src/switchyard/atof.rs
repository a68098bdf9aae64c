//! The trace endpoint that history-backed profiles need.

use crate::json::{Json, JsonObject, JsonView, Members};
use crate::ordered::lookup;
use crate::switchyard::config::{
    answers, endpoint_name_error, validate_atof_endpoint_name, ContextMode, SwitchyardConfig, SWITCHYARD_PLUGIN_KIND,
};
use crate::text::{debug_text, opt_text, quoted, same_text};
use vstd::prelude::*;
use vstd::string::*;

verus! {

/// One configured plugin.
#[derive(Clone, Debug)]
pub struct PluginComponentSpec {
    pub kind: String,
    pub enabled: bool,
    pub config: JsonObject,
}

/// The configured plugins.
#[derive(Clone, Debug)]
pub struct PluginConfig {
    pub components: Vec<PluginComponentSpec>,
}

/// What an ATOF endpoint uses where its configuration does not say.
#[derive(Clone, Copy, Debug, PartialEq, Eq, Structural)]
pub struct AtofEndpointDefaults {
    /// Whether the transport is HTTP POST.
    pub http_post: bool,
    /// Whether field names are preserved.
    pub preserve: bool,
}

/// The place of the first enabled component of a kind, from place `from` on.
pub open spec fn enabled_component(components: Seq<PluginComponentSpec>, kind: Seq<char>, from: int) -> Option<int>
    decreases components.len() - from,
{
    if from >= components.len() {
        None
    } else if components[from].enabled && components[from].kind@ == kind {
        Some(from)
    } else {
        enabled_component(components, kind, from + 1)
    }
}

/// The first enabled component of a kind.
pub fn find_component<'a>(config: &'a PluginConfig, kind: &str) -> (r: Option<&'a PluginComponentSpec>)
    ensures
        match enabled_component(config.components@, kind@, 0) {
            Some(i) => r == Some(&config.components@[i]),
            None => r is None,
        },
{
    let mut i: usize = 0;
    while i < config.components.len()
        invariant
            i <= config.components.len(),
            enabled_component(config.components@, kind@, 0) == enabled_component(config.components@, kind@, i as int),
        decreases config.components.len() - i,
    {
        if config.components[i].enabled && same_text(config.components[i].kind.as_str(), kind) {
            return Some(&config.components[i]);
        }
        i += 1;
    }
    None
}

/// The sinks of an enabled ATOF exporter.
pub open spec fn atof_sinks(observability: Members) -> Option<Seq<JsonView>> {
    match lookup(observability, "atof"@) {
        Some(atof) => if atof.get("enabled"@) == Some(JsonView::Bool(true)) {
            match atof.get("sinks"@) {
                Some(JsonView::Array(sinks)) => Some(sinks),
                _ => None,
            }
        } else {
            None
        },
        None => None,
    }
}

fn find_sinks(observability: &JsonObject) -> (r: Option<&Vec<Json>>)
    ensures
        match r {
            Some(sinks) => atof_sinks(observability.view()) == Some(Json::Array(*sinks)@->Array_0),
            None => atof_sinks(observability.view()) is None,
        },
{
    match observability.get("atof") {
        None => None,
        Some(atof) => {
            match atof.get("enabled") {
                Some(Json::Bool(enabled)) => {
                    if !*enabled {
                        return None;
                    }
                },
                _ => {
                    return None;
                },
            }
            match atof.get("sinks") {
                Some(Json::Array(sinks)) => Some(sinks),
                _ => None,
            }
        },
    }
}

/// A stream sink of this name.
pub open spec fn sink_matches(sink: JsonView, name: Seq<char>) -> bool {
    sink.text_at("type"@) == Some("stream"@) && sink.text_at("name"@) == Some(name)
}

fn is_named_stream(sink: &Json, name: &str) -> (r: bool)
    ensures
        r == sink_matches(sink@, name@),
{
    match (sink.text_at("type"), sink.text_at("name")) {
        (Some(kind), Some(own)) => same_text(kind, "stream") && same_text(own, name),
        _ => false,
    }
}

/// The first `n` sinks that are streams of this name.
pub open spec fn named_streams(sinks: Seq<JsonView>, name: Seq<char>, n: int) -> Seq<JsonView>
    decreases n,
{
    if n <= 0 {
        Seq::empty()
    } else if sink_matches(sinks[n - 1], name) {
        named_streams(sinks, name, n - 1).push(sinks[n - 1])
    } else {
        named_streams(sinks, name, n - 1)
    }
}

/// What is wrong with the endpoint that a history-backed profile names.
pub open spec fn endpoint_error(endpoint: JsonView, name: Seq<char>, defaults: AtofEndpointDefaults) -> Option<Seq<char>> {
    let posts = match endpoint.get("transport"@) {
        Some(value) => value == JsonView::Text("http_post"@),
        None => defaults.http_post,
    };
    let preserves = match endpoint.get("field_name_policy"@) {
        Some(value) => value == JsonView::Text("preserve"@),
        None => defaults.preserve,
    };
    let authenticates = match endpoint.get("header_env"@) {
        Some(JsonView::Object(headers)) => headers.len() > 0,
        _ => false,
    };
    if !posts {
        Some("Switchyard ATOF endpoint "@ + debug_text(name) + " must use transport = http_post"@)
    } else if !preserves {
        Some("Switchyard ATOF endpoint "@ + debug_text(name) + " must use field_name_policy = preserve"@)
    } else if !authenticates {
        Some(
            "Switchyard ATOF endpoint "@ + debug_text(name)
                + " authentication must use at least one environment-referenced header"@,
        )
    } else {
        None
    }
}

fn validate_endpoint(endpoint: &Json, name: &str, defaults: AtofEndpointDefaults) -> (r: Result<(), String>)
    ensures
        answers(r, endpoint_error(endpoint@, name@, defaults)),
{
    let posts = match endpoint.get("transport") {
        Some(value) => value.is_text("http_post"),
        None => defaults.http_post,
    };
    if !posts {
        return Err(
            "Switchyard ATOF endpoint ".to_owned().concat(quoted(name).as_str()).concat(
                " must use transport = http_post",
            ),
        );
    }
    let preserves = match endpoint.get("field_name_policy") {
        Some(value) => value.is_text("preserve"),
        None => defaults.preserve,
    };
    if !preserves {
        return Err(
            "Switchyard ATOF endpoint ".to_owned().concat(quoted(name).as_str()).concat(
                " must use field_name_policy = preserve",
            ),
        );
    }
    let authenticates = match endpoint.get("header_env") {
        Some(Json::Object(headers)) => headers.len() > 0,
        _ => false,
    };
    if !authenticates {
        return Err(
            "Switchyard ATOF endpoint ".to_owned().concat(quoted(name).as_str()).concat(
                " authentication must use at least one environment-referenced header",
            ),
        );
    }
    Ok(())
}

/// What is wrong with the sinks for a history-backed profile: exactly one has to be the endpoint it names.
pub open spec fn sinks_error(sinks: Seq<JsonView>, name: Seq<char>, defaults: AtofEndpointDefaults) -> Option<Seq<char>> {
    let streams = named_streams(sinks, name, sinks.len() as int);
    if streams.len() == 0 {
        Some("atof_required Switchyard profile requires named ATOF endpoint "@ + debug_text(name))
    } else if streams.len() > 1 {
        Some("ATOF endpoint name "@ + debug_text(name) + " must resolve to exactly one endpoint"@)
    } else {
        endpoint_error(streams[0], name, defaults)
    }
}

fn validate_sinks(sinks: &Vec<Json>, name: &str, defaults: AtofEndpointDefaults) -> (r: Result<(), String>)
    ensures
        answers(r, sinks_error(Json::Array(*sinks)@->Array_0, name@, defaults)),
{
    let ghost list = Json::Array(*sinks)@->Array_0;
    let mut found: Option<usize> = None;
    let mut twice = false;
    let mut i: usize = 0;
    while i < sinks.len()
        invariant
            i <= sinks.len(),
            list.len() == sinks.len(),
            forall|j: int| 0 <= j < list.len() ==> #[trigger] list[j] == sinks@[j]@,
            ({
                let streams = named_streams(list, name@, i as int);
                &&& found is None <==> streams.len() == 0
                &&& twice <==> streams.len() > 1
                &&& found is Some ==> found->Some_0 < i && streams[0] == list[found->Some_0 as int]
            }),
        decreases sinks.len() - i,
    {
        if is_named_stream(&sinks[i], name) {
            if found.is_some() {
                twice = true;
            } else {
                found = Some(i);
            }
        }
        i += 1;
    }
    match found {
        None => Err(
            "atof_required Switchyard profile requires named ATOF endpoint ".to_owned().concat(quoted(name).as_str()),
        ),
        Some(place) => {
            if twice {
                Err(
                    "ATOF endpoint name ".to_owned().concat(quoted(name).as_str()).concat(
                        " must resolve to exactly one endpoint",
                    ),
                )
            } else {
                validate_endpoint(&sinks[place], name, defaults)
            }
        },
    }
}

/// What is wrong with the plugins together, given how the configuration of the routing plugin reads.
pub open spec fn atof_error(
    components: Seq<PluginComponentSpec>,
    parsed: Result<SwitchyardConfig, String>,
    defaults: AtofEndpointDefaults,
) -> Option<Seq<char>> {
    if enabled_component(components, SWITCHYARD_PLUGIN_KIND@, 0) is None {
        None
    } else {
        match parsed {
            Err(error) => Some("invalid Switchyard plugin config: "@ + error@),
            Ok(switchyard) => if switchyard.context_mode != ContextMode::AtofRequired {
                None
            } else {
                match endpoint_name_error(opt_text(switchyard.atof_endpoint_name)) {
                    Some(error) => Some(error),
                    None => match switchyard.atof_endpoint_name {
                        None => Some("atof_required Switchyard profiles require atof_endpoint_name"@),
                        Some(name) => match enabled_component(components, "observability"@, 0) {
                            None => Some("atof_required Switchyard profiles require observability"@),
                            Some(i) => match atof_sinks(components[i].config.view()) {
                                None => Some("atof_required Switchyard profiles require an enabled ATOF endpoint"@),
                                Some(sinks) => sinks_error(sinks, name@, defaults),
                            },
                        },
                    },
                }
            },
        }
    }
}

/// Validates the trace endpoint of an enabled history-backed profile. `parsed` is how the configuration of
/// the first enabled routing component reads; it is not looked at where there is none.
pub fn validate_switchyard_atof_configuration(
    config: &PluginConfig,
    parsed: &Result<SwitchyardConfig, String>,
    defaults: AtofEndpointDefaults,
) -> (r: Result<(), String>)
    ensures
        answers(r, atof_error(config.components@, *parsed, defaults)),
{
    if find_component(config, SWITCHYARD_PLUGIN_KIND).is_none() {
        return Ok(());
    }
    let switchyard = match parsed {
        Err(error) => {
            return Err("invalid Switchyard plugin config: ".to_owned().concat(error.as_str()));
        },
        Ok(switchyard) => switchyard,
    };
    if switchyard.context_mode != ContextMode::AtofRequired {
        return Ok(());
    }
    let configured: Option<&str> = match &switchyard.atof_endpoint_name {
        Some(name) => Some(name.as_str()),
        None => None,
    };
    let name = match validate_atof_endpoint_name(configured) {
        Err(error) => {
            return Err(error);
        },
        Ok(None) => {
            return Err("atof_required Switchyard profiles require atof_endpoint_name".to_owned());
        },
        Ok(Some(name)) => name,
    };
    let observability = match find_component(config, "observability") {
        None => {
            return Err("atof_required Switchyard profiles require observability".to_owned());
        },
        Some(component) => component,
    };
    match find_sinks(&observability.config) {
        None => Err("atof_required Switchyard profiles require an enabled ATOF endpoint".to_owned()),
        Some(sinks) => validate_sinks(sinks, name, defaults),
    }
}

} // verus!
