//! Installation of the process-wide logger: a formatter that renders each
//! record as `rendered_line` describes, and a global minimum-severity filter.
use std::io::IsTerminal;
use std::io::Write;
use vstd::prelude::*;

use crate::levels::SeverityLevel;
use crate::levels::VerbosityIndicator;
use crate::levels::resolve_level;

verus! {

#[verifier::external_type_specification]
#[verifier::external_body]
pub struct ExLevelFilter(log::LevelFilter);

/// Relies on `log::LevelFilter`: the log crate's filter enumeration has one
/// variant for each severity level, and this maps each level to its
/// namesake, moving nothing else.
#[verifier::external_body]
fn to_level_filter(l: SeverityLevel) -> log::LevelFilter {
    match l {
        SeverityLevel::Error => log::LevelFilter::Error,
        SeverityLevel::Warn => log::LevelFilter::Warn,
        SeverityLevel::Info => log::LevelFilter::Info,
        SeverityLevel::Debug => log::LevelFilter::Debug,
        SeverityLevel::Trace => log::LevelFilter::Trace,
    }
}

/// Relies on `std::io::IsTerminal`: whether the standard error stream, the
/// destination the logger writes to, is a terminal and so understands ANSI
/// styling. The answer depends on the machine, so nothing is stated of it.
#[verifier::external_body]
fn stderr_is_terminal() -> (r: bool) {
    std::io::stderr().is_terminal()
}

/// Relies on `env_logger::Builder`: `format` installs the line formatter,
/// `filter` sets the global minimum level, and `try_init` registers the
/// logger process-wide, failing iff a global logger is already set. Inside
/// the formatter it relies on `chrono::Local::now` for the wall-clock
/// timestamp and on `log::Record` (`level` is one of the five levels,
/// numbered 1 through 5 from `Error` to `Trace`; `args` is the message);
/// every other formatting decision is taken by the library's verified
/// `resolve_verbosity` and `render_line`. Whether registration succeeded
/// depends on the process's state, so nothing is stated of the result.
#[verifier::external_body]
fn install_builder(filter: log::LevelFilter, styled: bool) -> (r: bool) {
    env_logger::Builder::new()
        .format(move |buf, record| {
            let ts = chrono::Local::now().format("%Y-%m-%dT%H:%M:%S").to_string();
            let lvl = crate::levels::resolve_verbosity(record.level() as usize);
            writeln!(buf, "{}", crate::render::render_line(lvl, &ts, &record.args().to_string(), styled))
        })
        .filter(None, filter)
        .try_init()
        .is_ok()
}

/// Builds and registers the global logger with `loglevel` as the minimum
/// severity, querying once whether the destination supports styling. A
/// second registration in one process is ignored.
pub(crate) fn set_builder(loglevel: SeverityLevel) {
    let styled = stderr_is_terminal();
    let _ = install_builder(to_level_filter(loglevel), styled);
}

/// Resolves the indicator and installs the process-wide logger: every later
/// log call at or above the resolved level prints one line, rendered as
/// `rendered_line` describes; calls below it print nothing.
pub fn install_logging(v: &VerbosityIndicator) {
    let level = resolve_level(v);
    set_builder(level);
}

} // verus!
