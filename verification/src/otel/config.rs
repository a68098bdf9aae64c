//! Configuration of the trace exporter.

use crate::ordered::{inserted, StringMap};
use crate::otel::attributes::{
    attributes_view, opt_attribute, push_opt_text, push_text, Attribute, AttributeView, OtlpAttributeMapping, ValueView,
};
use crate::text::{any_text, debug_text, opt_text, quoted, texts};
use vstd::prelude::*;
use vstd::string::*;

verus! {

/// What goes wrong in configuring or operating the exporter.
#[derive(Debug)]
pub enum OpenTelemetryError {
    /// The gRPC exporter requires an active Tokio runtime.
    MissingTokioRuntime,
    /// A configured gRPC metadata header is none.
    InvalidGrpcHeader {
        /// Header name that failed to parse.
        key: String,
        /// Parser failure message.
        message: String,
    },
    /// The exporter could not be built.
    ExporterBuild(String),
    /// The underlying tracer provider returned an error.
    Provider(String),
    /// Attribute mapping configuration was invalid.
    InvalidAttributeMappings(String),
    /// Registration errors from the runtime.
    Core(String),
}

impl OpenTelemetryError {
    pub open spec fn text(self) -> Seq<char> {
        match self {
            OpenTelemetryError::MissingTokioRuntime => "the OTLP gRPC exporter requires an active Tokio runtime"@,
            OpenTelemetryError::InvalidGrpcHeader { key, message } => "invalid OTLP gRPC header "@ + debug_text(key@)
                + ": "@ + message@,
            OpenTelemetryError::ExporterBuild(message) => "failed to build the OTLP exporter: "@ + message@,
            OpenTelemetryError::Provider(message) => "OpenTelemetry tracer provider error: "@ + message@,
            OpenTelemetryError::InvalidAttributeMappings(message) => "invalid attribute mappings: "@ + message@,
            OpenTelemetryError::Core(message) => message@,
        }
    }

    /// The error in words.
    pub fn message(&self) -> (r: String)
        ensures
            r@ == self.text(),
    {
        match self {
            OpenTelemetryError::MissingTokioRuntime => {
                "the OTLP gRPC exporter requires an active Tokio runtime".to_owned()
            },
            OpenTelemetryError::InvalidGrpcHeader { key, message } => "invalid OTLP gRPC header ".to_owned().concat(
                quoted(key.as_str()).as_str(),
            ).concat(": ").concat(message.as_str()),
            OpenTelemetryError::ExporterBuild(message) => "failed to build the OTLP exporter: ".to_owned().concat(
                message.as_str(),
            ),
            OpenTelemetryError::Provider(message) => "OpenTelemetry tracer provider error: ".to_owned().concat(
                message.as_str(),
            ),
            OpenTelemetryError::InvalidAttributeMappings(message) => "invalid attribute mappings: ".to_owned().concat(
                message.as_str(),
            ),
            OpenTelemetryError::Core(message) => message.clone(),
        }
    }
}

/// Supported OTLP trace transports.
#[derive(Debug, Clone, Copy, PartialEq, Eq, Structural)]
pub enum OtlpTransport {
    /// OTLP/HTTP protobuf, typically `http://host:4318/v1/traces`.
    HttpBinary,
    /// OTLP/gRPC, typically `http://host:4317`.
    Grpc,
}

impl Default for OtlpTransport {
    fn default() -> (r: Self)
        ensures
            r == OtlpTransport::HttpBinary,
    {
        OtlpTransport::HttpBinary
    }
}

/// How point-in-time marks are represented in exported traces.
#[derive(Debug, Clone, Copy, PartialEq, Eq, Structural)]
pub enum MarkProjection {
    /// As events of the span that they belong to.
    Event,
    /// As visible child spans.
    Tool,
}

impl Default for MarkProjection {
    fn default() -> (r: Self)
        ensures
            r == MarkProjection::Event,
    {
        MarkProjection::Event
    }
}

/// The marks that are no child spans unless configured: the high-volume `llm.chunk`.
pub fn default_mark_exclude_names() -> (r: Vec<String>)
    ensures
        texts(r@) == seq!["llm.chunk"@],
{
    let names: Vec<String> = vec!["llm.chunk".to_owned()];
    assert(texts(names@) =~= seq!["llm.chunk"@]);
    names
}

/// How a mark of this name is represented: excluded marks stay events.
pub open spec fn projection_of(name: Seq<char>, projection: MarkProjection, excluded: Seq<Seq<char>>) -> MarkProjection {
    if excluded.contains(name) {
        MarkProjection::Event
    } else {
        projection
    }
}

/// How a mark of this name is represented.
pub fn effective_mark_projection(name: &str, projection: MarkProjection, excluded: &Vec<String>) -> (r: MarkProjection)
    ensures
        r == projection_of(name@, projection, texts(excluded@)),
{
    if any_text(excluded, name) {
        MarkProjection::Event
    } else {
        projection
    }
}

/// A whole number of seconds as a duration.
pub uninterp spec fn seconds_duration(secs: u64) -> std::time::Duration;

/// `std::time::Duration::from_secs`: the result is named `seconds_duration`.
pub assume_specification[ std::time::Duration::from_secs ](secs: u64) -> (r: std::time::Duration)
    ensures
        r == seconds_duration(secs),
;

/// `std::time::Duration`'s `Clone`: the same duration.
pub assume_specification[ <std::time::Duration as Clone>::clone ](d: &std::time::Duration) -> (r: std::time::Duration)
    ensures
        r == d,
;

/// Configuration of the trace exporter.
#[derive(Debug, Clone)]
pub struct OpenTelemetryConfig {
    pub endpoint: Option<String>,
    pub headers: StringMap<String>,
    pub resource_attributes: StringMap<String>,
    pub service_name: String,
    pub service_namespace: Option<String>,
    pub service_version: Option<String>,
    pub instrumentation_scope: String,
    pub mark_projection: MarkProjection,
    pub mark_exclude_names: Vec<String>,
    pub attribute_mappings: Vec<OtlpAttributeMapping>,
    pub timeout: std::time::Duration,
    pub transport: OtlpTransport,
}

impl OpenTelemetryConfig {
    /// What a configuration holds where nothing is configured but the service's name and the transport.
    pub open spec fn is_plain(self, service_name: Seq<char>, transport: OtlpTransport) -> bool {
        &&& self.endpoint is None
        &&& self.headers.view().len() == 0
        &&& self.resource_attributes.view().len() == 0
        &&& self.service_name@ == service_name
        &&& self.service_namespace is None
        &&& self.service_version is None
        &&& self.instrumentation_scope@ == "nemo-relay-otel"@
        &&& self.mark_projection == MarkProjection::Event
        &&& texts(self.mark_exclude_names@) == seq!["llm.chunk"@]
        &&& self.attribute_mappings@.len() == 0
        &&& self.timeout == seconds_duration(3)
        &&& self.transport == transport
    }
}

impl Default for OpenTelemetryConfig {
    fn default() -> (r: Self)
        ensures
            r.is_plain("nemo-relay"@, OtlpTransport::HttpBinary),
    {
        OpenTelemetryConfig {
            endpoint: None,
            headers: StringMap::new(),
            resource_attributes: StringMap::new(),
            service_name: "nemo-relay".to_owned(),
            service_namespace: None,
            service_version: None,
            instrumentation_scope: "nemo-relay-otel".to_owned(),
            mark_projection: MarkProjection::Event,
            mark_exclude_names: default_mark_exclude_names(),
            attribute_mappings: Vec::new(),
            timeout: std::time::Duration::from_secs(3),
            transport: OtlpTransport::HttpBinary,
        }
    }
}

impl OpenTelemetryConfig {
    /// Creates an HTTP OTLP config for the given service name.
    pub fn http_binary(service_name: &str) -> (r: Self)
        ensures
            r.is_plain(service_name@, OtlpTransport::HttpBinary),
    {
        let mut config = OpenTelemetryConfig::default();
        config.service_name = service_name.to_owned();
        config.transport = OtlpTransport::HttpBinary;
        config
    }

    /// Creates a gRPC OTLP config for the given service name.
    pub fn grpc(service_name: &str) -> (r: Self)
        ensures
            r.is_plain(service_name@, OtlpTransport::Grpc),
    {
        let mut config = OpenTelemetryConfig::default();
        config.service_name = service_name.to_owned();
        config.transport = OtlpTransport::Grpc;
        config
    }

    /// Overrides the OTLP endpoint. If unset, exporter defaults and OTEL_* env vars apply.
    pub fn with_endpoint(self, endpoint: &str) -> (r: Self)
        ensures
            opt_text(r.endpoint) == Some(endpoint@),
            r == (OpenTelemetryConfig { endpoint: r.endpoint, ..self }),
    {
        let mut config = self;
        config.endpoint = Some(endpoint.to_owned());
        config
    }

    /// Adds a header/metadata entry for the exporter.
    pub fn with_header(self, key: &str, value: &str) -> (r: Self)
        ensures
            r.headers.view() == inserted(self.headers.view(), key@, value@),
            r == (OpenTelemetryConfig { headers: r.headers, ..self }),
    {
        let mut config = self;
        let mut headers: StringMap<String> = StringMap::new();
        std::mem::swap(&mut headers, &mut config.headers);
        headers.insert(key.to_owned(), value.to_owned());
        config.headers = headers;
        config
    }

    /// Adds a resource attribute as a string key/value pair.
    pub fn with_resource_attribute(self, key: &str, value: &str) -> (r: Self)
        ensures
            r.resource_attributes.view() == inserted(self.resource_attributes.view(), key@, value@),
            r == (OpenTelemetryConfig { resource_attributes: r.resource_attributes, ..self }),
    {
        let mut config = self;
        let mut attributes: StringMap<String> = StringMap::new();
        std::mem::swap(&mut attributes, &mut config.resource_attributes);
        attributes.insert(key.to_owned(), value.to_owned());
        config.resource_attributes = attributes;
        config
    }

    /// Sets the OTLP request timeout.
    pub fn with_timeout(self, timeout: std::time::Duration) -> (r: Self)
        ensures
            r == (OpenTelemetryConfig { timeout, ..self }),
    {
        let mut config = self;
        config.timeout = timeout;
        config
    }

    /// Sets the service namespace resource attribute.
    pub fn with_service_namespace(self, namespace: &str) -> (r: Self)
        ensures
            opt_text(r.service_namespace) == Some(namespace@),
            r == (OpenTelemetryConfig { service_namespace: r.service_namespace, ..self }),
    {
        let mut config = self;
        config.service_namespace = Some(namespace.to_owned());
        config
    }

    /// Sets the service version resource attribute.
    pub fn with_service_version(self, version: &str) -> (r: Self)
        ensures
            opt_text(r.service_version) == Some(version@),
            r == (OpenTelemetryConfig { service_version: r.service_version, ..self }),
    {
        let mut config = self;
        config.service_version = Some(version.to_owned());
        config
    }

    /// Sets the instrumentation scope name used for emitted spans.
    pub fn with_instrumentation_scope(self, scope: &str) -> (r: Self)
        ensures
            r.instrumentation_scope@ == scope@,
            r == (OpenTelemetryConfig { instrumentation_scope: r.instrumentation_scope, ..self }),
    {
        let mut config = self;
        config.instrumentation_scope = scope.to_owned();
        config
    }

    /// Selects how point-in-time marks are represented in exported traces.
    pub fn with_mark_projection(self, mark_projection: MarkProjection) -> (r: Self)
        ensures
            r == (OpenTelemetryConfig { mark_projection, ..self }),
    {
        let mut config = self;
        config.mark_projection = mark_projection;
        config
    }

    /// Excludes named marks from tool projection while preserving their native event representation. The
    /// default excludes high-volume `llm.chunk` marks.
    pub fn with_mark_exclude_names(self, names: Vec<String>) -> (r: Self)
        ensures
            r == (OpenTelemetryConfig { mark_exclude_names: names, ..self }),
    {
        let mut config = self;
        config.mark_exclude_names = names;
        config
    }

    /// Adds a typed attribute copy after event payload projection.
    pub fn with_attribute_mapping(self, key: &str, alias: &str) -> (r: Self)
        ensures
            r.attribute_mappings@.len() == self.attribute_mappings@.len() + 1,
            r.attribute_mappings@.drop_last() == self.attribute_mappings@,
            r.attribute_mappings@.last().key@ == key@,
            r.attribute_mappings@.last().alias@ == alias@,
            r == (OpenTelemetryConfig { attribute_mappings: r.attribute_mappings, ..self }),
    {
        let mut config = self;
        config.attribute_mappings.push(OtlpAttributeMapping::new(key, alias));
        assert(config.attribute_mappings@.drop_last() =~= self.attribute_mappings@);
        config
    }

    /// Replaces the configured typed attribute copies.
    pub fn with_attribute_mappings(self, mappings: Vec<OtlpAttributeMapping>) -> (r: Self)
        ensures
            r == (OpenTelemetryConfig { attribute_mappings: mappings, ..self }),
    {
        let mut config = self;
        config.attribute_mappings = mappings;
        config
    }
}

/// Options for building a subscriber from an existing tracer provider.
#[derive(Debug, Clone)]
pub struct OpenTelemetrySubscriberOptions {
    /// How mark events are projected into the trace.
    pub mark_projection: MarkProjection,
    /// Mark names excluded from tool projection.
    pub mark_exclude_names: Vec<String>,
    /// Typed OTLP attributes copied to alias keys.
    pub attribute_mappings: Vec<OtlpAttributeMapping>,
}

impl Default for OpenTelemetrySubscriberOptions {
    fn default() -> (r: Self)
        ensures
            r.mark_projection == MarkProjection::Event,
            texts(r.mark_exclude_names@) == seq!["llm.chunk"@],
            r.attribute_mappings@.len() == 0,
    {
        OpenTelemetrySubscriberOptions {
            mark_projection: MarkProjection::Event,
            mark_exclude_names: default_mark_exclude_names(),
            attribute_mappings: Vec::new(),
        }
    }
}

/// Configured resource attributes, as attributes.
pub open spec fn configured_attributes(entries: Seq<(Seq<char>, Seq<char>)>) -> Seq<AttributeView> {
    Seq::new(entries.len(), |i: int| (entries[i].0, ValueView::Text(entries[i].1)))
}

/// The attributes of the resource that spans belong to: the service, then what is configured.
pub open spec fn resource_view(config: OpenTelemetryConfig) -> Seq<AttributeView> {
    seq![("service.name"@, ValueView::Text(config.service_name@))] + opt_attribute(
        "service.namespace"@,
        opt_text(config.service_namespace),
    ) + opt_attribute("service.version"@, opt_text(config.service_version)) + configured_attributes(
        config.resource_attributes.view(),
    )
}

/// The attributes of the resource that spans belong to.
pub fn resource_attributes(config: &OpenTelemetryConfig) -> (r: Vec<Attribute>)
    ensures
        attributes_view(r@) == resource_view(*config),
{
    let mut attributes: Vec<Attribute> = Vec::new();
    assert(attributes_view(attributes@) =~= Seq::empty());
    push_text(&mut attributes, "service.name", config.service_name.as_str());
    push_opt_text(&mut attributes, "service.namespace", &config.service_namespace);
    push_opt_text(&mut attributes, "service.version", &config.service_version);
    let ghost before = attributes_view(attributes@);
    let ghost more = configured_attributes(config.resource_attributes.view());
    let mut i: usize = 0;
    assert(before + more.take(0) =~= before);
    while i < config.resource_attributes.len()
        invariant
            i <= config.resource_attributes.view().len(),
            more == configured_attributes(config.resource_attributes.view()),
            attributes_view(attributes@) == before + more.take(i as int),
        decreases config.resource_attributes.view().len() - i,
    {
        push_text(
            &mut attributes,
            config.resource_attributes.key_at(i),
            config.resource_attributes.value_at(i).as_str(),
        );
        assert(before + more.take(i as int) + seq![more[i as int]] =~= before + more.take(i + 1));
        i += 1;
    }
    assert(more.take(i as int) =~= more);
    assert(attributes_view(attributes@) =~= resource_view(*config));
    attributes
}

/// How spans are handed to the exporter.
#[derive(Debug, Clone, Copy, PartialEq, Eq, Structural)]
pub enum ExportMode {
    /// In batches, on the runtime that is there.
    Batch,
    /// One by one.
    Simple,
}

/// How the exporter is built.
#[derive(Debug)]
pub struct ExporterPlan {
    pub transport: OtlpTransport,
    /// The endpoint, where it is not left to the exporter.
    pub endpoint: Option<String>,
    /// Whether headers, or metadata, are set.
    pub has_headers: bool,
    /// How long an export may take.
    pub timeout: std::time::Duration,
    pub resource: Vec<Attribute>,
    /// How many attributes a span keeps: spans that live long can carry many, and none is dropped.
    pub max_attributes_per_span: u32,
    /// How many attributes an event of a span keeps.
    pub max_attributes_per_event: u32,
    pub mode: ExportMode,
}

/// Why no subscriber can be built: a gRPC exporter needs a runtime, and mappings have to be right.
pub open spec fn subscriber_error(config: OpenTelemetryConfig, in_runtime: bool, mappings: Result<(), String>) -> Option<
    Seq<char>,
> {
    if config.transport == OtlpTransport::Grpc && !in_runtime {
        Some(OpenTelemetryError::MissingTokioRuntime.text())
    } else {
        match mappings {
            Err(message) => Some("invalid attribute mappings: "@ + message@),
            Ok(_) => None,
        }
    }
}

/// How the exporter of a subscriber is built, or why it cannot be. `mappings` says whether the configured
/// mappings are right.
pub fn plan_exporter(config: &OpenTelemetryConfig, in_runtime: bool, mappings: Result<(), String>) -> (r: Result<
    ExporterPlan,
    OpenTelemetryError,
>)
    ensures
        match r {
            Ok(plan) => {
                &&& subscriber_error(*config, in_runtime, mappings) is None
                &&& plan.transport == config.transport
                &&& opt_text(plan.endpoint) == opt_text(config.endpoint)
                &&& plan.has_headers == (config.headers.view().len() > 0)
                &&& plan.timeout == config.timeout
                &&& attributes_view(plan.resource@) == resource_view(*config)
                &&& plan.max_attributes_per_span == u32::MAX
                &&& plan.max_attributes_per_event == u32::MAX
                &&& plan.mode == (if in_runtime {
                    ExportMode::Batch
                } else {
                    ExportMode::Simple
                })
            },
            Err(error) => {
                &&& subscriber_error(*config, in_runtime, mappings) == Some(error.text())
                &&& error is MissingTokioRuntime == (config.transport == OtlpTransport::Grpc && !in_runtime)
                &&& error is MissingTokioRuntime || error is InvalidAttributeMappings
            },
        },
{
    if config.transport == OtlpTransport::Grpc && !in_runtime {
        return Err(OpenTelemetryError::MissingTokioRuntime);
    }
    if let Err(message) = mappings {
        return Err(OpenTelemetryError::InvalidAttributeMappings(message));
    }
    let endpoint = match &config.endpoint {
        Some(s) => Some(s.clone()),
        None => None,
    };
    Ok(
        ExporterPlan {
            transport: config.transport,
            endpoint,
            has_headers: !config.headers.is_empty(),
            timeout: config.timeout.clone(),
            resource: resource_attributes(config),
            max_attributes_per_span: u32::MAX,
            max_attributes_per_event: u32::MAX,
            mode: if in_runtime {
                ExportMode::Batch
            } else {
                ExportMode::Simple
            },
        },
    )
}

} // verus!
