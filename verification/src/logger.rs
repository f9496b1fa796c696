//! The log level chosen on the command line or in the settings, its name,
//! and the filter directives that the logger is started with.

use vstd::prelude::*;
use vstd::string::*;

verus! {

/// How verbose the server's log is.
#[derive(Debug, Clone, Copy, PartialEq, Eq, Structural, PartialOrd, Ord)]
pub enum LogLevel {
    Debug,
    Trace,
    Info,
    Wawn,
    Error,
}

impl LogLevel {
    /// The name of the level as the log filter reads it.
    pub open spec fn name(self) -> Seq<char> {
        match self {
            LogLevel::Debug => "debug"@,
            LogLevel::Trace => "trace"@,
            LogLevel::Info => "info"@,
            LogLevel::Wawn => "warn"@,
            LogLevel::Error => "error"@,
        }
    }

    /// The name of the level: `debug`, `trace`, `info`, `warn` or `error`.
    pub fn to_string(&self) -> (r: String)
        ensures
            r@ == self.name(),
    {
        match self {
            LogLevel::Debug => "debug".to_string(),
            LogLevel::Trace => "trace".to_string(),
            LogLevel::Info => "info".to_string(),
            LogLevel::Wawn => "warn".to_string(),
            LogLevel::Error => "error".to_string(),
        }
    }
}

impl Default for LogLevel {
    fn default() -> (r: Self)
        ensures
            r == LogLevel::Debug,
    {
        LogLevel::Debug
    }
}

/// What follows the level in the log filter: the telemetry middleware logs at
/// `info` (it must, to emit its spans) and the telemetry setup at `debug`.
pub open spec fn filter_suffix() -> Seq<char> {
    ",axum_tracing_opentelemetry=info,otel=debug"@
}

/// The filter directives the logger is started with (the value given to
/// `RUST_LOG`): the level's name, then the fixed directives for the telemetry
/// targets.
pub fn log_filter_directives(level: &LogLevel) -> (r: String)
    ensures
        r@ == level.name() + filter_suffix(),
{
    let mut directives = level.to_string();
    directives.append(",axum_tracing_opentelemetry=info,otel=debug");
    directives
}

/// Distinct levels have distinct names, so the name of a level tells which
/// level it is.
pub proof fn lemma_level_names_distinct(a: LogLevel, b: LogLevel)
    ensures
        a.name() == b.name() <==> a == b,
{
    reveal_strlit("debug");
    reveal_strlit("trace");
    reveal_strlit("info");
    reveal_strlit("warn");
    reveal_strlit("error");
    if a != b && a.name() == b.name() {
        assert(a.name()[0] == b.name()[0]);
        assert(a.name().len() == b.name().len());
    }
}

} // verus!
