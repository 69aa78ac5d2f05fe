//! Configuration for the telemetry pipeline.
//!
//! The root value holds an optional console-logging section and an
//! optional export section; each export channel (logs, traces, metrics)
//! carries its own enable flag and two severity levels, one for the
//! owning component and one for its dependencies.
use vstd::prelude::*;
use vstd::string::StringExecFns;
use vstd::utf8::{is_ascii_chars, is_ascii_chars_concat};

verus! {

/// Severity level, ordered from most to least verbose.
///
/// The documented default everywhere a level can be omitted is `Info`.
#[derive(Clone, Copy, Debug, PartialEq, Eq, Structural)]
pub enum Level {
    Trace,
    Debug,
    Info,
    Warn,
    Error,
}

/// The lowercase directive name of a level, as the filter grammar writes it.
pub open spec fn level_name(l: Level) -> Seq<char> {
    match l {
        Level::Trace => "trace"@,
        Level::Debug => "debug"@,
        Level::Info => "info"@,
        Level::Warn => "warn"@,
        Level::Error => "error"@,
    }
}

/// The filter expression that applies `general` to every target and
/// `component` to the one named `unit`: `"<general>,<unit>=<component>"`.
pub open spec fn filter_expr(general: Level, unit: Seq<char>, component: Level) -> Seq<char> {
    level_name(general) + ","@ + unit + "="@ + level_name(component)
}

/// Every level name is plain ASCII.
pub proof fn lemma_level_name_ascii(l: Level)
    ensures
        is_ascii_chars(level_name(l)),
{
    match l {
        Level::Trace => {
            reveal_strlit("trace");
            assert(is_ascii_chars("trace"@));
        },
        Level::Debug => {
            reveal_strlit("debug");
            assert(is_ascii_chars("debug"@));
        },
        Level::Info => {
            reveal_strlit("info");
            assert(is_ascii_chars("info"@));
        },
        Level::Warn => {
            reveal_strlit("warn");
            assert(is_ascii_chars("warn"@));
        },
        Level::Error => {
            reveal_strlit("error");
            assert(is_ascii_chars("error"@));
        },
    }
}

/// A filter expression over an ASCII unit name is plain ASCII: level
/// names and separators are ASCII, and concatenation preserves it.
pub proof fn lemma_filter_expr_ascii(general: Level, unit: Seq<char>, component: Level)
    requires
        is_ascii_chars(unit),
    ensures
        is_ascii_chars(filter_expr(general, unit, component)),
{
    lemma_level_name_ascii(general);
    lemma_level_name_ascii(component);
    reveal_strlit(",");
    reveal_strlit("=");
    assert(is_ascii_chars(","@));
    assert(is_ascii_chars("="@));
    let a = level_name(general) + ","@;
    let b = a + unit;
    let c = b + "="@;
    is_ascii_chars_concat(a, level_name(general), ","@);
    is_ascii_chars_concat(b, a, unit);
    is_ascii_chars_concat(c, b, "="@);
    is_ascii_chars_concat(filter_expr(general, unit, component), c, level_name(component));
}

impl Level {
    /// The lowercase name of the level.
    pub fn as_str(&self) -> (r: &'static str)
        ensures
            r@ == level_name(*self),
    {
        match self {
            Level::Trace => "trace",
            Level::Debug => "debug",
            Level::Info => "info",
            Level::Warn => "warn",
            Level::Error => "error",
        }
    }
}

/// Builds the two-tier filter expression for a named unit.
fn build_filter(general: Level, unit: &str, component: Level) -> (r: String)
    ensures
        r@ == filter_expr(general, unit@, component),
{
    let mut s = String::from_str(general.as_str());
    s.append(",");
    s.append(unit);
    s.append("=");
    s.append(component.as_str());
    s
}

/// Sets the default severity level.
fn default_level_filter() -> (r: Level)
    ensures
        r == Level::Info,
{
    Level::Info
}

/// Default helper for flags whose documented default is `true`.
pub fn true_() -> (r: bool)
    ensures
        r,
{
    true
}

/// Collector endpoint with a well-known local default.
#[derive(Clone, Debug)]
pub struct OtelUrl {
    pub url: String,
}

/// The default collector endpoint.
pub open spec fn default_endpoint() -> Seq<char> {
    "http://localhost:4317"@
}

impl Default for OtelUrl {
    /// Defaults to the local collector address.
    fn default() -> (r: Self)
        ensures
            r.url@ == default_endpoint(),
    {
        OtelUrl { url: String::from_str("http://localhost:4317") }
    }
}

impl From<String> for OtelUrl {
    /// Wraps an already-validated endpoint string.
    fn from(url: String) -> (r: Self) {
        OtelUrl { url }
    }
}

impl vstd::std_specs::convert::FromSpecImpl<String> for OtelUrl {
    open spec fn obeys_from_spec() -> bool {
        true
    }

    open spec fn from_spec(url: String) -> Self {
        OtelUrl { url }
    }
}

/// Root telemetry configuration.
#[derive(Clone, Debug)]
pub struct OtelConfig {
    /// Enables logs on stdout.
    pub stdout: Option<StdoutLogsConfig>,
    /// Configuration for exporting traces, metrics and logs.
    pub exporter: Option<ExporterConfig>,
}

impl Default for OtelConfig {
    /// Both sections absent: console logging at its defaults, no export.
    fn default() -> (r: Self)
        ensures
            r.stdout is None,
            r.exporter is None,
    {
        OtelConfig { stdout: None, exporter: None }
    }
}

impl OtelConfig {
    /// Helper constructor to get a stdout-only config for use in tests.
    pub fn for_tests() -> (r: Self)
        ensures
            r.stdout is Some,
            r.stdout->0.enabled,
            r.stdout->0.level == Level::Trace,
            r.stdout->0.general_level == Level::Info,
            !r.stdout->0.json_output,
            r.exporter is None,
    {
        OtelConfig {
            stdout: Some(
                StdoutLogsConfig {
                    enabled: true,
                    level: Level::Trace,
                    general_level: Level::Info,
                    json_output: false,
                },
            ),
            exporter: None,
        }
    }
}

/// Configuration for exporting telemetry data.
#[derive(Clone, Debug)]
pub struct ExporterConfig {
    /// Endpoint of the remote collector.
    pub endpoint: OtelUrl,
    /// Key/value attributes attached to every exported record,
    /// in addition to the service name and version set by the library.
    /// Meant as a mapping: see [`ExporterConfig::metadata_is_mapping`].
    pub resource_metadata: Vec<(String, String)>,
    /// Logs exporting config.
    pub logs: Option<ProviderConfig>,
    /// Traces exporting config.
    pub traces: Option<ProviderConfig>,
    /// Metrics exporting config.
    pub metrics: Option<ProviderConfig>,
}

impl ExporterConfig {
    /// The metadata entries form a mapping: no key occurs twice.
    /// Constructors should keep this; the export SDK resolves a
    /// duplicate key by letting the last entry win.
    pub open spec fn metadata_is_mapping(&self) -> bool {
        forall|i: int, j: int|
            0 <= i < j < self.resource_metadata@.len()
                ==> self.resource_metadata@[i].0@ != self.resource_metadata@[j].0@
    }
}

impl Default for ExporterConfig {
    /// Default endpoint, no metadata, every channel absent (disabled).
    fn default() -> (r: Self)
        ensures
            r.endpoint.url@ == default_endpoint(),
            r.resource_metadata@ =~= Seq::<(String, String)>::empty(),
            r.metadata_is_mapping(),
            r.logs is None,
            r.traces is None,
            r.metrics is None,
    {
        ExporterConfig {
            endpoint: OtelUrl::default(),
            resource_metadata: Vec::new(),
            logs: None,
            traces: None,
            metrics: None,
        }
    }
}

/// Console (stdout) logging configuration.
#[derive(Clone, Debug)]
pub struct StdoutLogsConfig {
    /// Enables the stdout logs.
    pub enabled: bool,
    /// Level for the owning component.
    pub level: Level,
    /// Level for the dependencies.
    pub general_level: Level,
    /// Output structured JSON logs instead of human-readable ones.
    pub json_output: bool,
}

impl Default for StdoutLogsConfig {
    /// Enabled, both levels `Info`, human-readable output.
    fn default() -> (r: Self)
        ensures
            r.enabled,
            r.level == Level::Info,
            r.general_level == Level::Info,
            !r.json_output,
    {
        StdoutLogsConfig {
            enabled: true,
            level: default_level_filter(),
            general_level: default_level_filter(),
            json_output: false,
        }
    }
}

impl StdoutLogsConfig {
    /// Builds the severity filter expression for this console section.
    pub fn get_filter(&self, crate_name: &str) -> (r: String)
        ensures
            r@ == filter_expr(self.general_level, crate_name@, self.level),
    {
        build_filter(self.general_level, crate_name, self.level)
    }
}

/// Per-channel provider configuration for telemetry export.
#[derive(Clone, Debug)]
pub struct ProviderConfig {
    /// Enables the provider.
    pub enabled: bool,
    /// Level for the owning component.
    pub level: Level,
    /// Level for the dependencies.
    pub general_level: Level,
}

impl Default for ProviderConfig {
    /// Disabled, both levels `Info`.
    fn default() -> (r: Self)
        ensures
            !r.enabled,
            r.level == Level::Info,
            r.general_level == Level::Info,
    {
        ProviderConfig {
            enabled: false,
            level: default_level_filter(),
            general_level: default_level_filter(),
        }
    }
}

impl ProviderConfig {
    /// Builds the severity filter expression for this channel.
    pub fn get_filter(&self, crate_name: &str) -> (r: String)
        ensures
            r@ == filter_expr(self.general_level, crate_name@, self.level),
    {
        build_filter(self.general_level, crate_name, self.level)
    }
}

} // verus!
