//! Trusted bindings to the telemetry SDK and the subscriber stack.
//!
//! Everything the pipeline needs from the outside crates is gathered
//! here: the opaque types that flow through the library, one wrapper per
//! construction or teardown call, and the type-erased stage that lets the
//! verified composer collect a variable number of differently-typed
//! subscriber layers into one list.
use vstd::prelude::*;

use opentelemetry::trace::TracerProvider;
use opentelemetry::KeyValue;
use opentelemetry_otlp::WithExportConfig;
use opentelemetry_resource_detectors::{K8sResourceDetector, ProcessResourceDetector};
use opentelemetry_sdk::logs::SdkLoggerProvider;
use opentelemetry_sdk::metrics::{MeterProviderBuilder, PeriodicReader, SdkMeterProvider};
use opentelemetry_sdk::propagation::TraceContextPropagator;
use opentelemetry_sdk::trace::{RandomIdGenerator, SdkTracerProvider};
use opentelemetry_sdk::Resource;
use opentelemetry_semantic_conventions::resource::SERVICE_VERSION;
use std::io::Write;
use tracing_subscriber::layer::SubscriberExt;
use tracing_subscriber::util::SubscriberInitExt;
use tracing_subscriber::{EnvFilter, Layer, Registry};

verus! {

#[verifier::external_type_specification]
#[verifier::external_body]
pub struct ExEnvFilter(EnvFilter);

#[verifier::external_type_specification]
#[verifier::external_body]
pub struct ExParseError(tracing_subscriber::filter::ParseError);

#[verifier::external_type_specification]
#[verifier::external_body]
pub struct ExExporterBuildError(opentelemetry_otlp::ExporterBuildError);

#[verifier::external_type_specification]
#[verifier::external_body]
pub struct ExResource(Resource);

#[verifier::external_type_specification]
#[verifier::external_body]
pub struct ExSdkLoggerProvider(SdkLoggerProvider);

#[verifier::external_type_specification]
#[verifier::external_body]
pub struct ExSdkTracerProvider(SdkTracerProvider);

#[verifier::external_type_specification]
#[verifier::external_body]
pub struct ExSdkMeterProvider(SdkMeterProvider);

/// One type-erased subscriber stage: a layer already wrapped in its
/// severity filter. The boxed layer is a trait object, which cannot be
/// named as a declared outside type, so it lives in an opaque struct.
#[verifier::external_body]
pub struct Stage {
    layer: Box<dyn Layer<Registry> + Send + Sync>,
}

/// Whether the filter parser accepts a directives string. The parser
/// reads nothing but the string, so its verdict is a function of the
/// string alone; the grammar itself is the outside crate's and is not
/// restated here.
pub uninterp spec fn env_filter_parse_ok(directives: Seq<char>) -> bool;

/// Relies on `EnvFilter::try_new`: parses a comma-separated list of
/// filter directives, `Err` exactly on a malformed directive. The
/// verdict depends on the directives string alone. Restricted to ASCII
/// input: the parser indexes a directive with offsets taken from its
/// whitespace-trimmed copy, and on a directive that begins with
/// whitespace a multi-byte character can put such an offset inside a
/// character, which panics; in ASCII every offset is a character
/// boundary.
#[verifier::external_body]
pub(crate) fn parse_env_filter(directives: &str) -> (r: Result<
    EnvFilter,
    tracing_subscriber::filter::ParseError,
>)
    requires
        vstd::utf8::is_ascii_chars(directives@),
    ensures
        r is Ok <==> env_filter_parse_ok(directives@),
{
    EnvFilter::try_new(directives)
}

/// Relies on `opentelemetry::global::set_text_map_propagator`: installs
/// the context propagator used for outbound header injection.
#[verifier::external_body]
pub(crate) fn set_trace_context_propagator() {
    opentelemetry::global::set_text_map_propagator(TraceContextPropagator::default());
}

/// Relies on `Resource::builder`: assembles the resource descriptor from
/// the given metadata entries, ambient process and orchestration
/// attributes, and the service name and version.
#[verifier::external_body]
pub(crate) fn mk_resource(
    service_name: &'static str,
    version: &'static str,
    resource_metadata: &Vec<(String, String)>,
) -> (r: Resource) {
    Resource::builder()
        .with_attributes(
            resource_metadata.iter().map(|kv| KeyValue::new(kv.0.clone(), kv.1.clone())),
        )
        .with_detector(Box::new(K8sResourceDetector {}))
        .with_detector(Box::new(ProcessResourceDetector {}))
        .with_attribute(KeyValue::new(SERVICE_VERSION, version))
        .with_service_name(service_name)
        .build()
}

/// Relies on `opentelemetry_otlp::LogExporter` and `SdkLoggerProvider`:
/// builds a batching log export pipeline bound to the endpoint, `Err`
/// when the exporter cannot be constructed.
#[verifier::external_body]
pub(crate) fn init_logs(endpoint: &str, resource: &Resource) -> (r: Result<
    SdkLoggerProvider,
    opentelemetry_otlp::ExporterBuildError,
>) {
    let exporter = opentelemetry_otlp::LogExporter::builder()
        .with_tonic()
        .with_endpoint(endpoint.to_string())
        .build()?;
    Ok(
        SdkLoggerProvider::builder()
            .with_resource(resource.clone())
            .with_batch_exporter(exporter)
            .build(),
    )
}

/// Relies on `opentelemetry_otlp::SpanExporter` and `SdkTracerProvider`:
/// builds a batching span export pipeline bound to the endpoint and
/// registers it as the process-wide tracer provider, `Err` when the
/// exporter cannot be constructed.
#[verifier::external_body]
pub(crate) fn init_traces(endpoint: &str, resource: &Resource) -> (r: Result<
    SdkTracerProvider,
    opentelemetry_otlp::ExporterBuildError,
>) {
    let exporter = opentelemetry_otlp::SpanExporter::builder()
        .with_tonic()
        .with_endpoint(endpoint.to_string())
        .build()?;
    let provider = SdkTracerProvider::builder()
        .with_id_generator(RandomIdGenerator::default())
        .with_resource(resource.clone())
        .with_batch_exporter(exporter)
        .build();
    opentelemetry::global::set_tracer_provider(provider.clone());
    Ok(provider)
}

/// Relies on `opentelemetry_otlp::MetricExporter`, `PeriodicReader` and
/// `SdkMeterProvider`: builds a periodically flushing metric export
/// pipeline bound to the endpoint and registers it as the process-wide
/// meter provider, `Err` when the exporter cannot be constructed.
#[verifier::external_body]
pub(crate) fn init_metrics(endpoint: &str, resource: &Resource) -> (r: Result<
    SdkMeterProvider,
    opentelemetry_otlp::ExporterBuildError,
>) {
    let exporter = opentelemetry_otlp::MetricExporter::builder()
        .with_tonic()
        .with_endpoint(endpoint.to_string())
        .with_temporality(opentelemetry_sdk::metrics::Temporality::default())
        .build()?;
    let reader = PeriodicReader::builder(exporter).build();
    let provider =
        MeterProviderBuilder::default().with_resource(resource.clone()).with_reader(reader).build();
    opentelemetry::global::set_meter_provider(provider.clone());
    Ok(provider)
}

/// Relies on `tracing_subscriber::fmt::layer`: the human-readable
/// console stage, wrapped in its filter.
#[verifier::external_body]
pub(crate) fn console_stage_plain(filter: EnvFilter) -> (r: Stage) {
    let layer = tracing_subscriber::fmt::layer().with_thread_names(true);
    Stage { layer: layer.with_filter(filter).boxed() }
}

/// Relies on `tracing_subscriber::fmt::layer` and its `json` mode: the
/// structured-JSON console stage, wrapped in its filter.
#[verifier::external_body]
pub(crate) fn console_stage_json(filter: EnvFilter) -> (r: Stage) {
    let layer = tracing_subscriber::fmt::layer().with_thread_names(true).json();
    Stage { layer: layer.with_filter(filter).boxed() }
}

/// Relies on `OpenTelemetryTracingBridge::new`: the stage that forwards
/// log events to the given logger provider, wrapped in its filter.
#[verifier::external_body]
pub(crate) fn logs_stage(provider: &SdkLoggerProvider, filter: EnvFilter) -> (r: Stage) {
    let bridge = opentelemetry_appender_tracing::layer::OpenTelemetryTracingBridge::new(provider);
    Stage { layer: bridge.with_filter(filter).boxed() }
}

/// Relies on `tracing_opentelemetry::OpenTelemetryLayer::new` and
/// `SdkTracerProvider::tracer`: the stage that exports spans through a
/// tracer named after the service, wrapped in its filter.
#[verifier::external_body]
pub(crate) fn traces_stage(
    provider: &SdkTracerProvider,
    service_name: &'static str,
    filter: EnvFilter,
) -> (r: Stage) {
    let tracer = provider.tracer(service_name);
    let layer = tracing_opentelemetry::OpenTelemetryLayer::new(tracer);
    Stage { layer: layer.with_filter(filter).boxed() }
}

/// Relies on `tracing_opentelemetry::MetricsLayer::new`: the stage that
/// records metric events through the meter provider, wrapped in its
/// filter.
#[verifier::external_body]
pub(crate) fn metrics_stage(provider: &SdkMeterProvider, filter: EnvFilter) -> (r: Stage) {
    let layer = tracing_opentelemetry::MetricsLayer::new(provider.clone());
    Stage { layer: layer.with_filter(filter).boxed() }
}

/// Relies on `tracing_subscriber::registry` and `try_init`: installs the
/// collected stages as the process-wide subscriber. Only the first
/// installation in a process takes effect; a later call leaves the
/// earlier subscriber in place.
#[verifier::external_body]
pub(crate) fn install_stages(stages: Vec<Stage>) {
    let layers: Vec<Box<dyn Layer<Registry> + Send + Sync>> =
        stages.into_iter().map(|s| s.layer).collect();
    let _ = tracing_subscriber::registry().with(layers).try_init();
}

/// Relies on `SdkLoggerProvider::shutdown`: flushes and shuts the log
/// pipeline down; a failure is written to stderr and swallowed.
#[verifier::external_body]
pub(crate) fn shutdown_logger_provider(provider: &SdkLoggerProvider) {
    if let Err(err) = provider.shutdown() {
        let _ = writeln!(std::io::stderr(), "Could not shutdown LoggerProvider: {err}");
    }
}

/// Relies on `SdkTracerProvider::shutdown`: flushes and shuts the span
/// pipeline down; a failure is written to stderr and swallowed.
#[verifier::external_body]
pub(crate) fn shutdown_tracer_provider(provider: &SdkTracerProvider) {
    if let Err(err) = provider.shutdown() {
        let _ = writeln!(std::io::stderr(), "Could not shutdown TracerProvider: {err}");
    }
}

/// Relies on `SdkMeterProvider::shutdown`: flushes and shuts the metric
/// pipeline down; a failure is written to stderr and swallowed.
#[verifier::external_body]
pub(crate) fn shutdown_meter_provider(provider: &SdkMeterProvider) {
    if let Err(err) = provider.shutdown() {
        let _ = writeln!(std::io::stderr(), "Could not shutdown MeterProvider: {err}");
    }
}

} // verus!
