//! The pipeline plan: which stages a configuration enables.
//!
//! `build_plan` is the pure decision step of initialization. It reads the
//! configuration and produces, for each of the four possible stages
//! (console, exported logs, traces, metrics), either the severity filter
//! that stage will run under or nothing. Omission of the console section
//! means console logging at its defaults; omission of an export channel
//! means that channel is disabled.
use vstd::prelude::*;
use vstd::utf8::is_ascii_chars;

use crate::config::{
    filter_expr, lemma_filter_expr_ascii, Level, OtelConfig, StdoutLogsConfig,
};

verus! {

/// The console section is active when it is absent (defaults apply) or
/// present and enabled.
pub open spec fn spec_console_enabled(c: OtelConfig) -> bool {
    match c.stdout {
        Option::None => true,
        Option::Some(s) => s.enabled,
    }
}

/// The logs export channel is active only when the export section is
/// present and the channel is present and enabled.
pub open spec fn spec_logs_enabled(c: OtelConfig) -> bool {
    match c.exporter {
        Option::Some(e) => match e.logs {
            Option::Some(p) => p.enabled,
            Option::None => false,
        },
        Option::None => false,
    }
}

/// Same rule for the traces export channel.
pub open spec fn spec_traces_enabled(c: OtelConfig) -> bool {
    match c.exporter {
        Option::Some(e) => match e.traces {
            Option::Some(p) => p.enabled,
            Option::None => false,
        },
        Option::None => false,
    }
}

/// Same rule for the metrics export channel.
pub open spec fn spec_metrics_enabled(c: OtelConfig) -> bool {
    match c.exporter {
        Option::Some(e) => match e.metrics {
            Option::Some(p) => p.enabled,
            Option::None => false,
        },
        Option::None => false,
    }
}

/// The filter the console stage runs under: the configured levels, or
/// `Info` for both tiers when the section is omitted.
pub open spec fn spec_console_filter(c: OtelConfig, unit: Seq<char>) -> Seq<char> {
    match c.stdout {
        Option::None => filter_expr(Level::Info, unit, Level::Info),
        Option::Some(s) => filter_expr(s.general_level, unit, s.level),
    }
}

/// Whether the console stage writes structured JSON; plain output when
/// the section is omitted.
pub open spec fn spec_console_json(c: OtelConfig) -> bool {
    match c.stdout {
        Option::None => false,
        Option::Some(s) => s.json_output,
    }
}

/// The filter an export channel runs under, given its section.
pub open spec fn spec_logs_filter(c: OtelConfig, unit: Seq<char>) -> Seq<char> {
    filter_expr(c.exporter->0.logs->0.general_level, unit, c.exporter->0.logs->0.level)
}

/// The filter the traces channel runs under.
pub open spec fn spec_traces_filter(c: OtelConfig, unit: Seq<char>) -> Seq<char> {
    filter_expr(c.exporter->0.traces->0.general_level, unit, c.exporter->0.traces->0.level)
}

/// The filter the metrics channel runs under.
pub open spec fn spec_metrics_filter(c: OtelConfig, unit: Seq<char>) -> Seq<char> {
    filter_expr(c.exporter->0.metrics->0.general_level, unit, c.exporter->0.metrics->0.level)
}

/// Console stage plan: its filter expression and output format.
pub struct ConsolePlan {
    pub filter: String,
    pub json_output: bool,
}

/// Export channel stage plan: its filter expression.
pub struct ChannelPlan {
    pub filter: String,
}

/// Which of the four stages the configuration enables, each with the
/// filter expression it will run under.
pub struct InitPlan {
    pub console: Option<ConsolePlan>,
    pub logs: Option<ChannelPlan>,
    pub traces: Option<ChannelPlan>,
    pub metrics: Option<ChannelPlan>,
}

/// Decides which stages a configuration enables.
///
/// A stage is planned exactly when the corresponding section enables it:
/// the console unless explicitly disabled, each export channel only when
/// explicitly enabled. The planned filter applies the dependency-wide
/// level to every target and the component level to `main_crate`.
pub fn build_plan(config: &OtelConfig, main_crate: &str) -> (p: InitPlan)
    ensures
        p.console is Some <==> spec_console_enabled(*config),
        p.console is Some ==> p.console->0.filter@ == spec_console_filter(
            *config,
            main_crate@,
        ),
        p.console is Some ==> p.console->0.json_output == spec_console_json(*config),
        p.logs is Some <==> spec_logs_enabled(*config),
        p.logs is Some ==> p.logs->0.filter@ == spec_logs_filter(*config, main_crate@),
        p.traces is Some <==> spec_traces_enabled(*config),
        p.traces is Some ==> p.traces->0.filter@ == spec_traces_filter(*config, main_crate@),
        p.metrics is Some <==> spec_metrics_enabled(*config),
        p.metrics is Some ==> p.metrics->0.filter@ == spec_metrics_filter(*config, main_crate@),
{
    let console: Option<ConsolePlan> = match &config.stdout {
        None => {
            let defaults = StdoutLogsConfig::default();
            Some(
                ConsolePlan {
                    filter: defaults.get_filter(main_crate),
                    json_output: defaults.json_output,
                },
            )
        },
        Some(s) => {
            if s.enabled {
                Some(ConsolePlan { filter: s.get_filter(main_crate), json_output: s.json_output })
            } else {
                None
            }
        },
    };
    let mut logs: Option<ChannelPlan> = None;
    let mut traces: Option<ChannelPlan> = None;
    let mut metrics: Option<ChannelPlan> = None;
    match &config.exporter {
        Some(e) => {
            match &e.logs {
                Some(p) => {
                    if p.enabled {
                        logs = Some(ChannelPlan { filter: p.get_filter(main_crate) });
                    }
                },
                None => {},
            }
            match &e.traces {
                Some(p) => {
                    if p.enabled {
                        traces = Some(ChannelPlan { filter: p.get_filter(main_crate) });
                    }
                },
                None => {},
            }
            match &e.metrics {
                Some(p) => {
                    if p.enabled {
                        metrics = Some(ChannelPlan { filter: p.get_filter(main_crate) });
                    }
                },
                None => {},
            }
        },
        None => {},
    }
    InitPlan { console, logs, traces, metrics }
}

/// Whether a configuration (possibly absent altogether) enables metrics
/// export; the request-router metrics stage is attached only then.
pub fn metrics_export_enabled(config: Option<&OtelConfig>) -> (r: bool)
    ensures
        r <==> (config is Some && spec_metrics_enabled(*config->0)),
{
    match config {
        Some(c) => {
            match &c.exporter {
                Some(e) => {
                    match &e.metrics {
                        Some(m) => m.enabled,
                        None => false,
                    }
                },
                None => false,
            }
        },
        None => false,
    }
}

/// Every filter an active stage could run under is plain ASCII when
/// the unit name is: the filter parser is only ever handed ASCII.
pub proof fn lemma_active_filters_ascii(c: OtelConfig, unit: Seq<char>)
    requires
        is_ascii_chars(unit),
    ensures
        is_ascii_chars(spec_console_filter(c, unit)),
        is_ascii_chars(spec_logs_filter(c, unit)),
        is_ascii_chars(spec_traces_filter(c, unit)),
        is_ascii_chars(spec_metrics_filter(c, unit)),
{
    match c.stdout {
        Option::None => lemma_filter_expr_ascii(Level::Info, unit, Level::Info),
        Option::Some(s) => lemma_filter_expr_ascii(s.general_level, unit, s.level),
    }
    lemma_filter_expr_ascii(c.exporter->0.logs->0.general_level, unit, c.exporter->0.logs->0.level);
    lemma_filter_expr_ascii(
        c.exporter->0.traces->0.general_level,
        unit,
        c.exporter->0.traces->0.level,
    );
    lemma_filter_expr_ascii(
        c.exporter->0.metrics->0.general_level,
        unit,
        c.exporter->0.metrics->0.level,
    );
}

/// When the export section is entirely absent, every export channel is
/// disabled, whatever the console settings say.
pub proof fn lemma_absent_exporter_disables_channels(c: OtelConfig)
    requires
        c.exporter is None,
    ensures
        !spec_logs_enabled(c),
        !spec_traces_enabled(c),
        !spec_metrics_enabled(c),
{
}

/// Omission of the console section is not disablement: the console stage
/// is active at the default level (`Info` for both tiers) with plain,
/// non-structured output.
pub proof fn lemma_console_defaults_on_omission(c: OtelConfig, unit: Seq<char>)
    requires
        c.stdout is None,
    ensures
        spec_console_enabled(c),
        spec_console_filter(c, unit) == filter_expr(Level::Info, unit, Level::Info),
        !spec_console_json(c),
{
}

} // verus!

