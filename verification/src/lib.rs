//! OpenTelemetry pipeline initialization.
//!
//! Reads a declarative configuration with independent enable flags for
//! console logging and three export channels (logs, traces, metrics),
//! builds exactly the stages it enables, installs them as the
//! process-wide subscriber, and returns a guard that owns whichever
//! providers were created and shuts them down on release.
use vstd::prelude::*;

pub mod config;
pub mod plan;
pub mod reqwest_middleware;
pub mod sdk;

use opentelemetry_sdk::logs::SdkLoggerProvider;
use opentelemetry_sdk::metrics::SdkMeterProvider;
use opentelemetry_sdk::trace::SdkTracerProvider;
use tracing_subscriber::EnvFilter;

use vstd::utf8::is_ascii_chars;

use crate::config::OtelConfig;
use crate::plan::{
    build_plan, lemma_active_filters_ascii, spec_console_enabled, spec_console_filter,
    spec_console_json, spec_logs_enabled, spec_logs_filter, spec_metrics_enabled,
    spec_metrics_filter, spec_traces_enabled, spec_traces_filter, InitPlan,
};
use crate::sdk::{
    console_stage_json, console_stage_plain, env_filter_parse_ok, init_logs, init_metrics,
    init_traces, install_stages, logs_stage, metrics_stage, mk_resource, parse_env_filter,
    set_trace_context_propagator, shutdown_logger_provider, shutdown_meter_provider,
    shutdown_tracer_provider, traces_stage, Stage,
};

verus! {

/// Initialization errors.
///
/// Either the collector transport could not be constructed for an
/// enabled channel, or a severity filter expression was rejected by the
/// filter parser. Both abort initialization; no guard is returned.
#[derive(Debug)]
pub enum OtelInitError {
    BuildExporterError(opentelemetry_otlp::ExporterBuildError),
    EnvFilterError(tracing_subscriber::filter::ParseError),
}

/// Every filter that an active stage of `c` would run under parses.
/// This is what initialization needs from the filter parser: the
/// console filter when the console is active, and each enabled export
/// channel's filter.
pub open spec fn spec_active_filters_parse(c: OtelConfig, unit: Seq<char>) -> bool {
    &&& spec_console_enabled(c) ==> env_filter_parse_ok(spec_console_filter(c, unit))
    &&& spec_logs_enabled(c) ==> env_filter_parse_ok(spec_logs_filter(c, unit))
    &&& spec_traces_enabled(c) ==> env_filter_parse_ok(spec_traces_filter(c, unit))
    &&& spec_metrics_enabled(c) ==> env_filter_parse_ok(spec_metrics_filter(c, unit))
}

/// Owns the providers that initialization actually created, so that they
/// are shut down exactly once, at process shutdown.
#[derive(Debug)]
pub struct ProvidersGuard {
    /// Logger provider, present when logs export was enabled.
    pub logger_provider: Option<SdkLoggerProvider>,
    /// Tracer provider, present when traces export was enabled.
    pub tracer_provider: Option<SdkTracerProvider>,
    /// Meter provider, present when metrics export was enabled.
    pub meter_provider: Option<SdkMeterProvider>,
}

impl ProvidersGuard {
    /// Releases the guard: takes each provider still held and, unless
    /// `skip_teardown` is set, shuts it down. Each attempt is
    /// independent, and a failure is logged and swallowed, never
    /// propagated. A second release finds nothing left and does nothing,
    /// so no provider is ever shut down twice.
    ///
    /// `skip_teardown` exists because the batching exporters' flush can
    /// hang when no collector is reachable — a defect of the external
    /// SDK; test environments pass `true` and still exercise the whole
    /// state computation.
    pub fn release(&mut self, skip_teardown: bool)
        ensures
            final(self).logger_provider is None,
            final(self).tracer_provider is None,
            final(self).meter_provider is None,
    {
        match self.logger_provider.take() {
            Some(provider) => {
                if !skip_teardown {
                    shutdown_logger_provider(&provider);
                }
            },
            None => {},
        }
        match self.tracer_provider.take() {
            Some(provider) => {
                if !skip_teardown {
                    shutdown_tracer_provider(&provider);
                }
            },
            None => {},
        }
        match self.meter_provider.take() {
            Some(provider) => {
                if !skip_teardown {
                    shutdown_meter_provider(&provider);
                }
            },
            None => {},
        }
    }
}

/// How many subscriber stages a pipeline has, one per active part.
pub open spec fn spec_stage_count(
    console: bool,
    logs: bool,
    traces: bool,
    metrics: bool,
) -> int {
    (if console {
        1int
    } else {
        0int
    }) + (if logs {
        1int
    } else {
        0int
    }) + (if traces {
        1int
    } else {
        0int
    }) + (if metrics {
        1int
    } else {
        0int
    })
}

/// The stage list handed to the installer, with the providers that back
/// the export stages.
struct ComposedPipeline {
    stages: Vec<Stage>,
    logger_provider: Option<SdkLoggerProvider>,
    tracer_provider: Option<SdkTracerProvider>,
    meter_provider: Option<SdkMeterProvider>,
}

/// Merges the built parts into one stage list: one stage per active
/// part and nothing else, in the order exported logs, console, metrics,
/// traces. Each stage filters its own events, so the order carries no
/// meaning.
fn compose_stages(
    console: Option<(EnvFilter, bool)>,
    logs: Option<(EnvFilter, SdkLoggerProvider)>,
    traces: Option<(EnvFilter, SdkTracerProvider)>,
    metrics: Option<(EnvFilter, SdkMeterProvider)>,
    service_name: &'static str,
) -> (r: ComposedPipeline)
    ensures
        r.stages@.len() == spec_stage_count(
            console is Some,
            logs is Some,
            traces is Some,
            metrics is Some,
        ),
        r.logger_provider is Some <==> logs is Some,
        r.tracer_provider is Some <==> traces is Some,
        r.meter_provider is Some <==> metrics is Some,
{
    let mut stages: Vec<Stage> = Vec::new();

    let logger_provider: Option<SdkLoggerProvider> = match logs {
        Some((filter, provider)) => {
            stages.push(logs_stage(&provider, filter));
            Some(provider)
        },
        None => None,
    };
    match console {
        Some((filter, json_output)) => {
            if json_output {
                stages.push(console_stage_json(filter));
            } else {
                stages.push(console_stage_plain(filter));
            }
        },
        None => {},
    }
    let meter_provider: Option<SdkMeterProvider> = match metrics {
        Some((filter, provider)) => {
            stages.push(metrics_stage(&provider, filter));
            Some(provider)
        },
        None => None,
    };
    let tracer_provider: Option<SdkTracerProvider> = match traces {
        Some((filter, provider)) => {
            stages.push(traces_stage(&provider, service_name, filter));
            Some(provider)
        },
        None => None,
    };

    ComposedPipeline { stages, logger_provider, tracer_provider, meter_provider }
}

/// Initializes the telemetry pipeline.
///
/// Decides from `config` which of the four stages to build (console,
/// exported logs, traces, metrics), wires each enabled stage to the
/// severity filter derived for `main_crate`, installs the composed
/// subscriber as the process-wide default, and returns a guard holding
/// exactly the providers that were built. An absent or disabled channel
/// contributes an absent handle, which is an expected state, not an
/// error. Any filter-parse or exporter-build failure aborts the whole
/// initialization.
///
/// Meant to be called once, at process startup; only the first
/// installed subscriber in a process takes effect.
///
/// The unit name must be ASCII, as a crate name is: the outside filter
/// parser can panic on a directive that mixes leading whitespace with
/// multi-byte characters, and ASCII input rules that out.
#[must_use]
pub fn init_otel(
    config: &OtelConfig,
    main_crate: &'static str,
    service_name: &'static str,
    pkg_version: &'static str,
) -> (r: Result<ProvidersGuard, OtelInitError>)
    requires
        is_ascii_chars(main_crate@),
    ensures
        r is Ok ==> spec_active_filters_parse(*config, main_crate@),
        r is Ok ==> (r->Ok_0.logger_provider is Some <==> spec_logs_enabled(*config)),
        r is Ok ==> (r->Ok_0.tracer_provider is Some <==> spec_traces_enabled(*config)),
        r is Ok ==> (r->Ok_0.meter_provider is Some <==> spec_metrics_enabled(*config)),
        !spec_logs_enabled(*config) && !spec_traces_enabled(*config) && !spec_metrics_enabled(
            *config,
        ) ==> (r is Ok <==> (spec_console_enabled(*config) ==> env_filter_parse_ok(
            spec_console_filter(*config, main_crate@),
        ))),
        r is Err && r->Err_0 is EnvFilterError ==> !spec_active_filters_parse(
            *config,
            main_crate@,
        ),
        r is Err && r->Err_0 is BuildExporterError ==> spec_logs_enabled(*config)
            || spec_traces_enabled(*config) || spec_metrics_enabled(*config),
        r is Err && r->Err_0 is BuildExporterError ==> (spec_console_enabled(*config)
            ==> env_filter_parse_ok(spec_console_filter(*config, main_crate@))),
{
    set_trace_context_propagator();

    proof {
        lemma_active_filters_ascii(*config, main_crate@);
    }

    let InitPlan { console, logs, traces, metrics } = build_plan(config, main_crate);

    let console_built: Option<(EnvFilter, bool)> = match console {
        Some(console_plan) => {
            match parse_env_filter(console_plan.filter.as_str()) {
                Ok(filter) => Some((filter, console_plan.json_output)),
                Err(e) => {
                    return Err(OtelInitError::EnvFilterError(e));
                },
            }
        },
        None => None,
    };

    let mut logs_built: Option<(EnvFilter, SdkLoggerProvider)> = None;
    let mut traces_built: Option<(EnvFilter, SdkTracerProvider)> = None;
    let mut metrics_built: Option<(EnvFilter, SdkMeterProvider)> = None;

    match &config.exporter {
        Some(exporter) => {
            let resource = mk_resource(service_name, pkg_version, &exporter.resource_metadata);
            match logs {
                Some(channel) => {
                    let filter = match parse_env_filter(channel.filter.as_str()) {
                        Ok(filter) => filter,
                        Err(e) => {
                            return Err(OtelInitError::EnvFilterError(e));
                        },
                    };
                    let provider = match init_logs(exporter.endpoint.url.as_str(), &resource) {
                        Ok(provider) => provider,
                        Err(e) => {
                            return Err(OtelInitError::BuildExporterError(e));
                        },
                    };
                    logs_built = Some((filter, provider));
                },
                None => {},
            }
            match traces {
                Some(channel) => {
                    let filter = match parse_env_filter(channel.filter.as_str()) {
                        Ok(filter) => filter,
                        Err(e) => {
                            return Err(OtelInitError::EnvFilterError(e));
                        },
                    };
                    let provider = match init_traces(exporter.endpoint.url.as_str(), &resource) {
                        Ok(provider) => provider,
                        Err(e) => {
                            return Err(OtelInitError::BuildExporterError(e));
                        },
                    };
                    traces_built = Some((filter, provider));
                },
                None => {},
            }
            match metrics {
                Some(channel) => {
                    let filter = match parse_env_filter(channel.filter.as_str()) {
                        Ok(filter) => filter,
                        Err(e) => {
                            return Err(OtelInitError::EnvFilterError(e));
                        },
                    };
                    let provider = match init_metrics(exporter.endpoint.url.as_str(), &resource) {
                        Ok(provider) => provider,
                        Err(e) => {
                            return Err(OtelInitError::BuildExporterError(e));
                        },
                    };
                    metrics_built = Some((filter, provider));
                },
                None => {},
            }
        },
        None => {},
    }

    let composed = compose_stages(
        console_built,
        logs_built,
        traces_built,
        metrics_built,
        service_name,
    );
    install_stages(composed.stages);

    Ok(
        ProvidersGuard {
            logger_provider: composed.logger_provider,
            tracer_provider: composed.tracer_provider,
            meter_provider: composed.meter_provider,
        },
    )
}

} // verus!
