//! The pipeline plan: stage selection and planned filters.
use rust_telemetry::config::{ExporterConfig, Level, OtelConfig, ProviderConfig, StdoutLogsConfig};
use rust_telemetry::plan::{build_plan, metrics_export_enabled};

#[test]
fn omitted_stdout_plans_console_at_info_plain() {
    let config = OtelConfig { stdout: None, exporter: None };
    let plan = build_plan(&config, "svc");
    let console = plan.console.expect("console stage planned");
    assert_eq!(console.filter, "info,svc=info");
    assert!(!console.json_output);
    assert!(plan.logs.is_none());
    assert!(plan.traces.is_none());
    assert!(plan.metrics.is_none());
}

#[test]
fn disabled_stdout_plans_no_console() {
    let config = OtelConfig {
        stdout: Some(StdoutLogsConfig { enabled: false, ..Default::default() }),
        exporter: None,
    };
    let plan = build_plan(&config, "svc");
    assert!(plan.console.is_none());
}

#[test]
fn enabled_channels_get_their_own_filters() {
    let config = OtelConfig {
        stdout: Some(StdoutLogsConfig {
            enabled: true,
            level: Level::Debug,
            general_level: Level::Error,
            json_output: true,
        }),
        exporter: Some(ExporterConfig {
            logs: Some(ProviderConfig {
                enabled: true,
                level: Level::Trace,
                general_level: Level::Warn,
            }),
            traces: Some(ProviderConfig { enabled: false, ..Default::default() }),
            metrics: Some(ProviderConfig { enabled: true, ..Default::default() }),
            ..Default::default()
        }),
    };
    let plan = build_plan(&config, "unit");
    let console = plan.console.expect("console stage planned");
    assert_eq!(console.filter, "error,unit=debug");
    assert!(console.json_output);
    assert_eq!(plan.logs.expect("logs planned").filter, "warn,unit=trace");
    assert!(plan.traces.is_none());
    assert_eq!(plan.metrics.expect("metrics planned").filter, "info,unit=info");
}

#[test]
fn exporter_section_without_channels_plans_none() {
    let config = OtelConfig {
        stdout: None,
        exporter: Some(ExporterConfig::default()),
    };
    let plan = build_plan(&config, "svc");
    assert!(plan.logs.is_none());
    assert!(plan.traces.is_none());
    assert!(plan.metrics.is_none());
}

#[test]
fn metrics_layer_attached_only_when_metrics_export_enabled() {
    assert!(!metrics_export_enabled(None));
    let config = OtelConfig::default();
    assert!(!metrics_export_enabled(Some(&config)));
    let disabled = OtelConfig {
        stdout: None,
        exporter: Some(ExporterConfig {
            metrics: Some(ProviderConfig { enabled: false, ..Default::default() }),
            ..Default::default()
        }),
    };
    assert!(!metrics_export_enabled(Some(&disabled)));
    let enabled = OtelConfig {
        stdout: None,
        exporter: Some(ExporterConfig {
            metrics: Some(ProviderConfig { enabled: true, ..Default::default() }),
            ..Default::default()
        }),
    };
    assert!(metrics_export_enabled(Some(&enabled)));
}
