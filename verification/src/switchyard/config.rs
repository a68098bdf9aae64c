//! Configuration of the routing plugin and its validation.

use crate::ordered::{lookup, lookup_present, StringMap};
use crate::text::{
    blank, debug_text, decimal, decimal_text, is_blank, quoted, same_text, trim, trim_end_char, trimmed,
    without_end_char,
};
use crate::url::{parse_url, parsed_url, parsed_urls, url_parts, ParsedUrl, UrlParts, UrlView};
use vstd::prelude::*;
use vstd::string::*;

verus! {

/// Plugin kind used in plugin configuration.
pub const SWITCHYARD_PLUGIN_KIND: &'static str = "switchyard";

/// Supported provider wire protocols.
#[derive(Clone, Copy, Debug, PartialEq, Eq, Structural, PartialOrd, Ord)]
pub enum WireProtocol {
    /// OpenAI Chat Completions.
    OpenaiChat,
    /// OpenAI Responses.
    OpenaiResponses,
    /// Anthropic Messages.
    AnthropicMessages,
}

impl WireProtocol {
    pub open spec fn label_text(self) -> Seq<char> {
        match self {
            WireProtocol::OpenaiChat => "openai_chat"@,
            WireProtocol::OpenaiResponses => "openai_responses"@,
            WireProtocol::AnthropicMessages => "anthropic_messages"@,
        }
    }

    pub open spec fn endpoint_text(self) -> Seq<char> {
        match self {
            WireProtocol::OpenaiChat => "/v1/chat/completions"@,
            WireProtocol::OpenaiResponses => "/v1/responses"@,
            WireProtocol::AnthropicMessages => "/v1/messages"@,
        }
    }

    /// Stable name of the protocol.
    pub fn label(self) -> (r: &'static str)
        ensures
            r@ == self.label_text(),
    {
        match self {
            WireProtocol::OpenaiChat => "openai_chat",
            WireProtocol::OpenaiResponses => "openai_responses",
            WireProtocol::AnthropicMessages => "anthropic_messages",
        }
    }

    /// Path of the protocol's endpoint.
    pub fn endpoint(self) -> (r: &'static str)
        ensures
            r@ == self.endpoint_text(),
    {
        match self {
            WireProtocol::OpenaiChat => "/v1/chat/completions",
            WireProtocol::OpenaiResponses => "/v1/responses",
            WireProtocol::AnthropicMessages => "/v1/messages",
        }
    }
}

/// Routing rollout mode.
#[derive(Clone, Copy, Debug, PartialEq, Eq, Structural)]
pub enum RoutingMode {
    /// Apply decisions.
    Enforce,
    /// Record decisions but dispatch trusted defaults.
    ObserveOnly,
}

impl RoutingMode {
    pub open spec fn label_text(self) -> Seq<char> {
        match self {
            RoutingMode::Enforce => "enforce"@,
            RoutingMode::ObserveOnly => "observe_only"@,
        }
    }

    /// Stable name of the mode.
    pub fn label(self) -> (r: &'static str)
        ensures
            r@ == self.label_text(),
    {
        match self {
            RoutingMode::Enforce => "enforce",
            RoutingMode::ObserveOnly => "observe_only",
        }
    }
}

impl Default for RoutingMode {
    fn default() -> (r: Self)
        ensures
            r == RoutingMode::Enforce,
    {
        RoutingMode::Enforce
    }
}

/// Whether the selected profile depends on history derived from trace events.
#[derive(Clone, Copy, Debug, PartialEq, Eq, Structural)]
pub enum ContextMode {
    /// The router uses only current request material.
    PayloadOnly,
    /// Stable identity and a configured ATOF endpoint are required.
    AtofRequired,
}

/// How much of the current request a decision request carries.
#[derive(Clone, Copy, Debug, PartialEq, Eq, Structural)]
pub enum RequestMaterialization {
    Nothing,
    SummaryOnly,
    LatestUserPrompt,
    RecentMessageWindow,
    AnnotatedRequest,
    FullBody,
}

/// Exact backend binding for one backend ID.
#[derive(Clone, Debug)]
pub struct TargetBinding {
    /// Exact model expected in the decision.
    pub model: String,
    /// Exact protocol expected in the decision.
    pub protocol: WireProtocol,
    /// Exact endpoint expected in the decision.
    pub endpoint: String,
    /// Backend base URL.
    pub base_url: String,
    /// Static non-sensitive backend headers.
    pub headers: StringMap<String>,
    /// Backend headers resolved from environment variables.
    pub header_env: StringMap<String>,
}

pub struct TargetView {
    pub model: Seq<char>,
    pub protocol: WireProtocol,
    pub endpoint: Seq<char>,
    pub base_url: Seq<char>,
    pub headers: Seq<(Seq<char>, Seq<char>)>,
    pub header_env: Seq<(Seq<char>, Seq<char>)>,
}

impl View for TargetBinding {
    type V = TargetView;

    open spec fn view(&self) -> TargetView {
        TargetView {
            model: self.model@,
            protocol: self.protocol,
            endpoint: self.endpoint@,
            base_url: self.base_url@,
            headers: self.headers.view(),
            header_env: self.header_env.view(),
        }
    }
}

/// Trusted fallback target IDs for each inbound protocol.
#[derive(Clone, Debug)]
pub struct ProtocolDefaults {
    /// OpenAI Chat fallback target.
    pub openai_chat: String,
    /// OpenAI Responses fallback target.
    pub openai_responses: String,
    /// Anthropic Messages fallback target.
    pub anthropic_messages: String,
}

impl ProtocolDefaults {
    pub open spec fn target_id(self, protocol: WireProtocol) -> Seq<char> {
        match protocol {
            WireProtocol::OpenaiChat => self.openai_chat@,
            WireProtocol::OpenaiResponses => self.openai_responses@,
            WireProtocol::AnthropicMessages => self.anthropic_messages@,
        }
    }

    /// The fallback target of `protocol`.
    pub fn target(&self, protocol: WireProtocol) -> (r: &str)
        ensures
            r@ == self.target_id(protocol),
    {
        match protocol {
            WireProtocol::OpenaiChat => self.openai_chat.as_str(),
            WireProtocol::OpenaiResponses => self.openai_responses.as_str(),
            WireProtocol::AnthropicMessages => self.anthropic_messages.as_str(),
        }
    }
}

/// A set of protocols.
#[derive(Clone, Copy, Debug, PartialEq, Eq, Structural)]
pub struct ProtocolSet {
    pub openai_chat: bool,
    pub openai_responses: bool,
    pub anthropic_messages: bool,
}

impl ProtocolSet {
    pub open spec fn has(self, protocol: WireProtocol) -> bool {
        match protocol {
            WireProtocol::OpenaiChat => self.openai_chat,
            WireProtocol::OpenaiResponses => self.openai_responses,
            WireProtocol::AnthropicMessages => self.anthropic_messages,
        }
    }

    pub fn contains(&self, protocol: WireProtocol) -> (r: bool)
        ensures
            r == self.has(protocol),
    {
        match protocol {
            WireProtocol::OpenaiChat => self.openai_chat,
            WireProtocol::OpenaiResponses => self.openai_responses,
            WireProtocol::AnthropicMessages => self.anthropic_messages,
        }
    }

    pub fn is_empty(&self) -> (r: bool)
        ensures
            r == (forall|p: WireProtocol| !self.has(p)),
    {
        assert(self.openai_chat == self.has(WireProtocol::OpenaiChat));
        assert(self.openai_responses == self.has(WireProtocol::OpenaiResponses));
        assert(self.anthropic_messages == self.has(WireProtocol::AnthropicMessages));
        !self.openai_chat && !self.openai_responses && !self.anthropic_messages
    }
}

/// Versioned configuration of the routing plugin.
#[derive(Clone, Debug)]
pub struct SwitchyardConfig {
    /// Config schema version.
    pub version: u32,
    /// Enforce or observe-only rollout mode.
    pub mode: RoutingMode,
    /// Execution-intercept priority.
    pub priority: i32,
    /// Decision API URL.
    pub decision_api_url: String,
    /// Decision profile ID.
    pub decision_profile_id: String,
    /// Current-request materialization.
    pub request_materialization: RequestMaterialization,
    /// Profile context requirement.
    pub context_mode: ContextMode,
    /// Decision call timeout.
    pub decision_timeout_millis: u64,
    /// Provider retries after the initial attempt.
    pub max_retries: u32,
    /// Number of messages in recent-message materialization.
    pub recent_message_count: usize,
    /// Static non-sensitive Decision API headers.
    pub decision_headers: StringMap<String>,
    /// Decision API headers resolved from environment variables.
    pub decision_header_env: StringMap<String>,
    /// Enabled inbound protocols.
    pub enabled_inbound_profiles: ProtocolSet,
    /// Exact backend bindings keyed by backend ID.
    pub targets: StringMap<TargetBinding>,
    /// Trusted per-protocol fallbacks.
    pub default_targets: ProtocolDefaults,
    /// Named ATOF endpoint used by history-backed profiles.
    pub atof_endpoint_name: Option<String>,
}

/// The default schema version.
pub fn default_version() -> (r: u32)
    ensures
        r == 1,
{
    1
}

/// The default decision timeout.
pub fn default_decision_timeout_millis() -> (r: u64)
    ensures
        r == 25,
{
    25
}

/// The default number of provider retries.
pub fn default_max_retries() -> (r: u32)
    ensures
        r == 3,
{
    3
}

/// The default length of the recent-message window.
pub fn default_recent_message_count() -> (r: usize)
    ensures
        r == 8,
{
    8
}

/// By default every protocol is enabled.
pub fn default_enabled_protocols() -> (r: ProtocolSet)
    ensures
        forall|p: WireProtocol| r.has(p),
{
    ProtocolSet { openai_chat: true, openai_responses: true, anthropic_messages: true }
}

impl Default for SwitchyardConfig {
    fn default() -> (r: Self)
        ensures
            r.version == 1,
            r.mode == RoutingMode::Enforce,
            r.priority == 0,
            r.decision_api_url@ == "http://127.0.0.1:8080/v1/routing/decision"@,
            r.decision_profile_id@.len() == 0,
            r.request_materialization == RequestMaterialization::SummaryOnly,
            r.context_mode == ContextMode::PayloadOnly,
            r.decision_timeout_millis == 25,
            r.max_retries == 3,
            r.recent_message_count == 8,
            r.decision_headers.view().len() == 0,
            r.decision_header_env.view().len() == 0,
            forall|p: WireProtocol| r.enabled_inbound_profiles.has(p),
            r.targets.view().len() == 0,
            forall|p: WireProtocol| (#[trigger] r.default_targets.target_id(p)).len() == 0,
            r.atof_endpoint_name is None,
    {
        SwitchyardConfig {
            version: default_version(),
            mode: RoutingMode::Enforce,
            priority: 0,
            decision_api_url: "http://127.0.0.1:8080/v1/routing/decision".to_owned(),
            decision_profile_id: String::new(),
            request_materialization: RequestMaterialization::SummaryOnly,
            context_mode: ContextMode::PayloadOnly,
            decision_timeout_millis: default_decision_timeout_millis(),
            max_retries: default_max_retries(),
            recent_message_count: default_recent_message_count(),
            decision_headers: StringMap::new(),
            decision_header_env: StringMap::new(),
            enabled_inbound_profiles: default_enabled_protocols(),
            targets: StringMap::new(),
            default_targets: ProtocolDefaults {
                openai_chat: String::new(),
                openai_responses: String::new(),
                anthropic_messages: String::new(),
            },
            atof_endpoint_name: None,
        }
    }
}

/// What is wrong with a configured ATOF endpoint name.
pub open spec fn endpoint_name_error(name: Option<Seq<char>>) -> Option<Seq<char>> {
    match name {
        Some(n) => if blank(n) {
            Some("atof_endpoint_name must be non-empty when configured"@)
        } else if n != trim(n) {
            Some("atof_endpoint_name must not have leading or trailing whitespace"@)
        } else {
            None
        },
        None => None,
    }
}

/// Accepts no name, or a name without white space at its ends that is not empty.
pub fn validate_atof_endpoint_name<'a>(name: Option<&'a str>) -> (r: Result<Option<&'a str>, String>)
    ensures
        match r {
            Ok(n) => n == name && endpoint_name_error(
                match name {
                    Some(s) => Some(s@),
                    None => None,
                },
            ) is None,
            Err(e) => endpoint_name_error(
                match name {
                    Some(s) => Some(s@),
                    None => None,
                },
            ) == Some(e@),
        },
{
    if let Some(text) = name {
        if is_blank(text) {
            return Err("atof_endpoint_name must be non-empty when configured".to_owned());
        }
        if !same_text(text, trimmed(text)) {
            return Err("atof_endpoint_name must not have leading or trailing whitespace".to_owned());
        }
    }
    Ok(name)
}

pub open spec fn web_scheme(url: UrlView) -> bool {
    url.scheme == "http"@ || url.scheme == "https"@
}

fn has_web_scheme(url: &UrlParts) -> (r: bool)
    ensures
        r == web_scheme(url.view()),
{
    same_text(url.scheme.as_str(), "http") || same_text(url.scheme.as_str(), "https")
}

/// What tells one backend from another: model, protocol, endpoint and base URL without slashes at its end.
pub open spec fn exact_binding(target: TargetView) -> (Seq<char>, WireProtocol, Seq<char>, Seq<char>) {
    (target.model, target.protocol, target.endpoint, trim_end_char(target.base_url, '/'))
}

fn same_binding(a: &TargetBinding, b: &TargetBinding) -> (r: bool)
    ensures
        r == (exact_binding(a@) == exact_binding(b@)),
{
    same_text(a.model.as_str(), b.model.as_str()) && a.protocol == b.protocol && same_text(
        a.endpoint.as_str(),
        b.endpoint.as_str(),
    ) && same_text(
        without_end_char(a.base_url.as_str(), '/'),
        without_end_char(b.base_url.as_str(), '/'),
    )
}

pub type Targets = Seq<(Seq<char>, TargetView)>;

/// What is wrong with the target at place `i`, given how its base URL parses.
pub open spec fn target_error(targets: Targets, urls: Seq<ParsedUrl>, i: int) -> Option<Seq<char>> {
    let id = targets[i].0;
    let target = targets[i].1;
    if blank(id) || blank(target.model) || blank(target.endpoint) {
        Some("target IDs, models, and endpoints must be non-empty"@)
    } else {
        match urls[i] {
            Err(error) => Some("target "@ + debug_text(id) + " base_url is invalid: "@ + error),
            Ok(url) => if !web_scheme(url) {
                Some("target "@ + debug_text(id) + " base_url must use http or https"@)
            } else if target.endpoint != target.protocol.endpoint_text() {
                Some(
                    "target "@ + debug_text(id) + " endpoint must be "@ + debug_text(target.protocol.endpoint_text())
                        + " for "@ + target.protocol.label_text(),
                )
            } else if exists|j: int| 0 <= j < i && exact_binding((#[trigger] targets[j]).1) == exact_binding(target) {
                Some("target "@ + debug_text(id) + " conflicts with another exact backend binding"@)
            } else {
                None
            },
        }
    }
}

/// What is wrong with the first target, from place `from` on, that is wrong.
pub open spec fn targets_error(targets: Targets, urls: Seq<ParsedUrl>, from: int) -> Option<Seq<char>>
    decreases targets.len() - from,
{
    if from >= targets.len() {
        None
    } else {
        match target_error(targets, urls, from) {
            Some(error) => Some(error),
            None => targets_error(targets, urls, from + 1),
        }
    }
}

/// What is wrong with the fallback target of `protocol`.
pub open spec fn default_error(config: SwitchyardConfig, protocol: WireProtocol) -> Option<Seq<char>> {
    let id = config.default_targets.target_id(protocol);
    if !config.enabled_inbound_profiles.has(protocol) {
        None
    } else {
        match lookup(config.targets.view(), id) {
            None => Some("default target "@ + debug_text(id) + " is not configured"@),
            Some(target) => if target.protocol != protocol {
                Some("default target "@ + debug_text(id) + " must use protocol "@ + protocol.label_text())
            } else {
                None
            },
        }
    }
}

/// The first of two answers that is one.
pub open spec fn first_of(a: Option<Seq<char>>, b: Option<Seq<char>>) -> Option<Seq<char>> {
    match a {
        Some(_) => a,
        None => b,
    }
}

/// The first thing that is wrong with a configuration, given how its URLs parse.
pub open spec fn config_error(
    config: SwitchyardConfig,
    decision_url: ParsedUrl,
    base_urls: Seq<ParsedUrl>,
) -> Option<Seq<char>> {
    let name = match config.atof_endpoint_name {
        Some(s) => Some(s@),
        None => None,
    };
    if config.version != 1 {
        Some("unsupported Switchyard config version "@ + decimal(config.version as nat))
    } else if blank(config.decision_profile_id@) {
        Some("decision_profile_id must be non-empty"@)
    } else if config.decision_timeout_millis == 0 {
        Some("decision_timeout_millis must be greater than zero"@)
    } else if config.max_retries > 10 {
        Some("max_retries must not exceed 10"@)
    } else if config.recent_message_count == 0 {
        Some("recent_message_count must be greater than zero"@)
    } else if endpoint_name_error(name) is Some {
        endpoint_name_error(name)
    } else if config.context_mode == ContextMode::AtofRequired && name is None {
        Some("atof_required Switchyard profiles require atof_endpoint_name"@)
    } else if decision_url is Err {
        Some("decision_api_url is invalid: "@ + decision_url->Err_0)
    } else if !web_scheme(decision_url->Ok_0) {
        Some("decision_api_url must use http or https"@)
    } else if config.targets.view().len() == 0 {
        Some("targets must not be empty"@)
    } else if forall|p: WireProtocol| !config.enabled_inbound_profiles.has(p) {
        Some("enabled_inbound_profiles must not be empty"@)
    } else {
        first_of(
            targets_error(config.targets.view(), base_urls, 0),
            first_of(
                default_error(config, WireProtocol::OpenaiChat),
                first_of(
                    default_error(config, WireProtocol::OpenaiResponses),
                    default_error(config, WireProtocol::AnthropicMessages),
                ),
            ),
        )
    }
}

/// How the base URLs of the targets parse.
pub open spec fn base_urls(targets: Targets) -> Seq<ParsedUrl> {
    Seq::new(targets.len(), |i: int| url_parts(targets[i].1.base_url))
}

/// Whether a result is `Ok` exactly where nothing is wrong, and else says what is.
pub open spec fn answers(r: Result<(), String>, error: Option<Seq<char>>) -> bool {
    match r {
        Ok(_) => error is None,
        Err(e) => error == Some(e@),
    }
}

fn validate_target(targets: &StringMap<TargetBinding>, urls: &Vec<Result<UrlParts, String>>, i: usize) -> (r: Result<
    (),
    String,
>)
    requires
        i < targets.view().len(),
        urls.len() == targets.view().len(),
    ensures
        answers(r, target_error(targets.view(), parsed_urls(urls@), i as int)),
{
    let id = targets.key_at(i);
    let target = targets.value_at(i);
    if is_blank(id) || is_blank(target.model.as_str()) || is_blank(target.endpoint.as_str()) {
        return Err("target IDs, models, and endpoints must be non-empty".to_owned());
    }
    match &urls[i] {
        Err(error) => {
            assert(parsed_urls(urls@)[i as int] == parsed_url(urls@[i as int]));
            return Err("target ".to_owned().concat(quoted(id).as_str()).concat(" base_url is invalid: ").concat(error.as_str()));
        },
        Ok(url) => {
            assert(parsed_urls(urls@)[i as int] == parsed_url(urls@[i as int]));
            if !has_web_scheme(url) {
                return Err("target ".to_owned().concat(quoted(id).as_str()).concat(" base_url must use http or https"));
            }
        },
    }
    let endpoint = target.protocol.endpoint();
    if !same_text(target.endpoint.as_str(), endpoint) {
        return Err(
            "target ".to_owned().concat(quoted(id).as_str()).concat(" endpoint must be ").concat(
                quoted(endpoint).as_str(),
            ).concat(" for ").concat(target.protocol.label()),
        );
    }
    let mut j: usize = 0;
    while j < i
        invariant
            j <= i < targets.view().len(),
            target@ == targets.view()[i as int].1,
            id@ == targets.view()[i as int].0,
            urls.len() == targets.view().len(),
            forall|k: int| 0 <= k < j ==> exact_binding((#[trigger] targets.view()[k]).1) != exact_binding(target@),
            target_error(targets.view(), parsed_urls(urls@), i as int) == (if exists|k: int|
                0 <= k < i && exact_binding((#[trigger] targets.view()[k]).1) == exact_binding(target@) {
                Some("target "@ + debug_text(id@) + " conflicts with another exact backend binding"@)
            } else {
                None
            }),
        decreases i - j,
    {
        if same_binding(targets.value_at(j), target) {
            return Err(
                "target ".to_owned().concat(quoted(id).as_str()).concat(" conflicts with another exact backend binding"),
            );
        }
        j += 1;
    }
    Ok(())
}

fn validate_default(config: &SwitchyardConfig, protocol: WireProtocol) -> (r: Result<(), String>)
    ensures
        answers(r, default_error(*config, protocol)),
{
    if !config.enabled_inbound_profiles.contains(protocol) {
        return Ok(());
    }
    let id = config.default_targets.target(protocol);
    match config.targets.get(id) {
        None => Err("default target ".to_owned().concat(quoted(id).as_str()).concat(" is not configured")),
        Some(target) => {
            if target.protocol != protocol {
                Err(
                    "default target ".to_owned().concat(quoted(id).as_str()).concat(" must use protocol ").concat(
                        protocol.label(),
                    ),
                )
            } else {
                Ok(())
            }
        },
    }
}

/// Validates a configuration whose URLs have been parsed: those of the targets in the order of their IDs.
pub fn validate_parsed_config(
    config: &SwitchyardConfig,
    decision_url: &Result<UrlParts, String>,
    target_urls: &Vec<Result<UrlParts, String>>,
) -> (r: Result<(), String>)
    requires
        target_urls.len() == config.targets.view().len(),
    ensures
        answers(r, config_error(*config, parsed_url(*decision_url), parsed_urls(target_urls@))),
{
    if config.version != 1 {
        return Err(
            "unsupported Switchyard config version ".to_owned().concat(decimal_text(config.version as u64).as_str()),
        );
    }
    if is_blank(config.decision_profile_id.as_str()) {
        return Err("decision_profile_id must be non-empty".to_owned());
    }
    if config.decision_timeout_millis == 0 {
        return Err("decision_timeout_millis must be greater than zero".to_owned());
    }
    if config.max_retries > 10 {
        return Err("max_retries must not exceed 10".to_owned());
    }
    if config.recent_message_count == 0 {
        return Err("recent_message_count must be greater than zero".to_owned());
    }
    let name: Option<&str> = match &config.atof_endpoint_name {
        Some(s) => Some(s.as_str()),
        None => None,
    };
    if let Err(error) = validate_atof_endpoint_name(name) {
        return Err(error);
    }
    if config.context_mode == ContextMode::AtofRequired && config.atof_endpoint_name.is_none() {
        return Err("atof_required Switchyard profiles require atof_endpoint_name".to_owned());
    }
    match decision_url {
        Err(error) => {
            return Err("decision_api_url is invalid: ".to_owned().concat(error.as_str()));
        },
        Ok(url) => {
            if !has_web_scheme(url) {
                return Err("decision_api_url must use http or https".to_owned());
            }
        },
    }
    if config.targets.is_empty() {
        return Err("targets must not be empty".to_owned());
    }
    if config.enabled_inbound_profiles.is_empty() {
        return Err("enabled_inbound_profiles must not be empty".to_owned());
    }
    let mut i: usize = 0;
    while i < config.targets.len()
        invariant
            i <= config.targets.view().len(),
            target_urls.len() == config.targets.view().len(),
            targets_error(config.targets.view(), parsed_urls(target_urls@), 0) == targets_error(
                config.targets.view(),
                parsed_urls(target_urls@),
                i as int,
            ),
            config_error(*config, parsed_url(*decision_url), parsed_urls(target_urls@)) == first_of(
                targets_error(config.targets.view(), parsed_urls(target_urls@), 0),
                first_of(
                    default_error(*config, WireProtocol::OpenaiChat),
                    first_of(
                        default_error(*config, WireProtocol::OpenaiResponses),
                        default_error(*config, WireProtocol::AnthropicMessages),
                    ),
                ),
            ),
        decreases config.targets.view().len() - i,
    {
        if let Err(error) = validate_target(&config.targets, target_urls, i) {
            return Err(error);
        }
        i += 1;
    }
    if let Err(error) = validate_default(config, WireProtocol::OpenaiChat) {
        return Err(error);
    }
    if let Err(error) = validate_default(config, WireProtocol::OpenaiResponses) {
        return Err(error);
    }
    validate_default(config, WireProtocol::AnthropicMessages)
}

/// Validates a configuration.
pub fn validate_config(config: &SwitchyardConfig) -> (r: Result<(), String>)
    ensures
        answers(
            r,
            config_error(*config, url_parts(config.decision_api_url@), base_urls(config.targets.view())),
        ),
{
    let decision_url = parse_url(config.decision_api_url.as_str());
    let mut target_urls: Vec<Result<UrlParts, String>> = Vec::new();
    let mut i: usize = 0;
    while i < config.targets.len()
        invariant
            i <= config.targets.view().len(),
            target_urls.len() == i,
            forall|j: int| 0 <= j < i ==> parsed_url(#[trigger] target_urls@[j]) == base_urls(config.targets.view())[j],
        decreases config.targets.view().len() - i,
    {
        target_urls.push(parse_url(config.targets.value_at(i).base_url.as_str()));
        i += 1;
    }
    assert(parsed_urls(target_urls@) =~= base_urls(config.targets.view()));
    validate_parsed_config(config, &decision_url, &target_urls)
}

proof fn targets_are_right(targets: Targets, urls: Seq<ParsedUrl>, from: int, i: int)
    requires
        targets_error(targets, urls, from) is None,
        0 <= from <= i < targets.len(),
    ensures
        target_error(targets, urls, i) is None,
    decreases i - from,
{
    if from < i {
        targets_are_right(targets, urls, from + 1, i);
    }
}

/// An accepted configuration binds every enabled protocol to a fallback target that speaks it, at the
/// protocol's own endpoint.
pub proof fn accepted_config_has_fallbacks(
    config: SwitchyardConfig,
    decision_url: ParsedUrl,
    urls: Seq<ParsedUrl>,
    protocol: WireProtocol,
)
    requires
        config_error(config, decision_url, urls) is None,
        config.enabled_inbound_profiles.has(protocol),
    ensures
        lookup(config.targets.view(), config.default_targets.target_id(protocol)) is Some,
        ({
            let target = lookup(config.targets.view(), config.default_targets.target_id(protocol))->Some_0;
            target.protocol == protocol && target.endpoint == protocol.endpoint_text()
        }),
{
    assert(default_error(config, protocol) is None);
    let targets = config.targets.view();
    let i = lookup_present(targets, config.default_targets.target_id(protocol));
    targets_are_right(targets, urls, 0, i);
}

/// In an accepted configuration no two targets are the same backend.
pub proof fn accepted_config_bindings_differ(
    config: SwitchyardConfig,
    decision_url: ParsedUrl,
    urls: Seq<ParsedUrl>,
    i: int,
    j: int,
)
    requires
        config_error(config, decision_url, urls) is None,
        0 <= i < config.targets.view().len(),
        0 <= j < config.targets.view().len(),
        i != j,
    ensures
        exact_binding(config.targets.view()[i].1) != exact_binding(config.targets.view()[j].1),
{
    let targets = config.targets.view();
    targets_are_right(targets, urls, 0, i);
    targets_are_right(targets, urls, 0, j);
}

/// An accepted configuration allows between one and eleven routing attempts, and a decision call some time.
pub proof fn accepted_config_bounds_attempts(config: SwitchyardConfig, decision_url: ParsedUrl, urls: Seq<ParsedUrl>)
    requires
        config_error(config, decision_url, urls) is None,
    ensures
        1 <= config.max_retries + 1 <= 11,
        config.decision_timeout_millis > 0,
        config.recent_message_count > 0,
        exists|p: WireProtocol| config.enabled_inbound_profiles.has(p),
{
}

} // verus!
