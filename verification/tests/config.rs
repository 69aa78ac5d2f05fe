//! Configuration defaults and the severity filter builder.
use rust_telemetry::config::{
    ExporterConfig, Level, OtelConfig, OtelUrl, ProviderConfig, StdoutLogsConfig,
};

#[test]
fn level_names_are_lowercase() {
    assert_eq!(Level::Trace.as_str(), "trace");
    assert_eq!(Level::Debug.as_str(), "debug");
    assert_eq!(Level::Info.as_str(), "info");
    assert_eq!(Level::Warn.as_str(), "warn");
    assert_eq!(Level::Error.as_str(), "error");
}

#[test]
fn filter_builder_two_tier_expression() {
    let config = ProviderConfig {
        enabled: true,
        level: Level::Trace,
        general_level: Level::Info,
    };
    assert_eq!(config.get_filter("svc"), "info,svc=trace");
}

#[test]
fn filter_builder_output_parses_and_admits_component_level() {
    let config = ProviderConfig {
        enabled: true,
        level: Level::Trace,
        general_level: Level::Info,
    };
    let expression = config.get_filter("svc");
    assert_eq!(expression, "info,svc=trace");
    let filter = tracing_subscriber::EnvFilter::try_new(&expression)
        .expect("the built filter expression must parse");
    // "info globally, trace for svc": the most verbose level admitted
    // anywhere is trace, reached only through the named unit.
    assert_eq!(
        filter.max_level_hint(),
        Some(tracing_subscriber::filter::LevelFilter::TRACE),
    );
    let general_only = ProviderConfig {
        enabled: true,
        level: Level::Info,
        general_level: Level::Info,
    };
    let uniform = tracing_subscriber::EnvFilter::try_new(&general_only.get_filter("svc"))
        .expect("the built filter expression must parse");
    assert_eq!(
        uniform.max_level_hint(),
        Some(tracing_subscriber::filter::LevelFilter::INFO),
    );
}

#[test]
fn stdout_filter_builder_matches_provider_filter_builder() {
    let stdout = StdoutLogsConfig {
        enabled: true,
        level: Level::Debug,
        general_level: Level::Warn,
        json_output: false,
    };
    assert_eq!(stdout.get_filter("my_crate"), "warn,my_crate=debug");
}

#[test]
fn default_url_is_local_collector() {
    assert_eq!(OtelUrl::default().url, "http://localhost:4317");
}

#[test]
fn url_from_string_keeps_the_string() {
    let url = OtelUrl::from(String::from("http://collector:4317"));
    assert_eq!(url.url, "http://collector:4317");
}

#[test]
fn default_config_has_no_sections() {
    let config = OtelConfig::default();
    assert!(config.stdout.is_none());
    assert!(config.exporter.is_none());
}

#[test]
fn default_exporter_config_disables_every_channel() {
    let config = ExporterConfig::default();
    assert_eq!(config.endpoint.url, "http://localhost:4317");
    assert!(config.resource_metadata.is_empty());
    assert!(config.logs.is_none());
    assert!(config.traces.is_none());
    assert!(config.metrics.is_none());
}

#[test]
fn default_stdout_config_is_enabled_plain_info() {
    let config = StdoutLogsConfig::default();
    assert!(config.enabled);
    assert_eq!(config.level, Level::Info);
    assert_eq!(config.general_level, Level::Info);
    assert!(!config.json_output);
}

#[test]
fn default_provider_config_is_disabled_info() {
    let config = ProviderConfig::default();
    assert!(!config.enabled);
    assert_eq!(config.level, Level::Info);
    assert_eq!(config.general_level, Level::Info);
}

#[test]
fn for_tests_is_stdout_only_trace() {
    let config = OtelConfig::for_tests();
    let stdout = config.stdout.expect("stdout section present");
    assert!(stdout.enabled);
    assert_eq!(stdout.level, Level::Trace);
    assert_eq!(stdout.general_level, Level::Info);
    assert!(!stdout.json_output);
    assert!(config.exporter.is_none());
}

#[test]
fn true_returns_true() {
    assert!(rust_telemetry::config::true_());
}
