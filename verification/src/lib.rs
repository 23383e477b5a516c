//! Console-logging setup: maps a verbosity indicator (a small integer or a
//! case-insensitive level name) to a severity level, and installs a global
//! line formatter with a colored severity tag and a timestamp.
use vstd::prelude::*;

pub mod install;
pub mod levels;
pub mod render;

pub use install::install_logging;
pub use levels::SeverityLevel;
pub use levels::VerbosityIndicator;
pub use levels::level_of_indicator;
pub use levels::level_of_name;
pub use levels::level_of_verbosity;
pub use levels::lower_seq;
pub use levels::resolve_level;
pub use render::render_line;
pub use render::rendered_line;

verus! {

/// Setup of process-wide logging: anything that names a severity level — a
/// small integer or a level name — can set the logging level and enable
/// logging.
pub trait SetupLogging: Sized {
    /// The severity level that this indicator resolves to.
    spec fn resolved_level(&self) -> SeverityLevel;

    /// Maps the indicator to its severity level. Indicators that name no
    /// level fall back to `Info`. Once logging is enabled at some level,
    /// messages at that level and the more severe ones are shown; the less
    /// severe ones are suppressed.
    fn set_logging_level(self) -> (r: SeverityLevel)
        ensures
            r == self.resolved_level(),
    ;

    /// Resolves the indicator and installs the global logger: every later
    /// log call at or above the resolved level prints one line of the form
    /// `[LEVEL][YYYY-MM-DDTHH:MM:SS]message`, the tag colored and bold where
    /// the destination supports it.
    fn enable_logging(&self);
}

impl SetupLogging for &str {
    open spec fn resolved_level(&self) -> SeverityLevel {
        levels::level_of_name((*self)@)
    }

    fn set_logging_level(self) -> (r: SeverityLevel) {
        levels::resolve_name(self)
    }

    fn enable_logging(&self) {
        let loglevel = (*self).set_logging_level();
        install::set_builder(loglevel);
    }
}

impl SetupLogging for String {
    open spec fn resolved_level(&self) -> SeverityLevel {
        levels::level_of_name(self@)
    }

    fn set_logging_level(self) -> (r: SeverityLevel) {
        levels::resolve_name(self.as_str())
    }

    fn enable_logging(&self) {
        let loglevel = self.as_str().set_logging_level();
        install::set_builder(loglevel);
    }
}

impl SetupLogging for usize {
    open spec fn resolved_level(&self) -> SeverityLevel {
        levels::level_of_verbosity(*self as int)
    }

    fn set_logging_level(self) -> (r: SeverityLevel) {
        levels::resolve_verbosity(self)
    }

    fn enable_logging(&self) {
        let loglevel = (*self).set_logging_level();
        install::set_builder(loglevel);
    }
}

impl SetupLogging for u8 {
    open spec fn resolved_level(&self) -> SeverityLevel {
        levels::level_of_verbosity(*self as int)
    }

    fn set_logging_level(self) -> (r: SeverityLevel) {
        levels::resolve_verbosity(self as usize)
    }

    fn enable_logging(&self) {
        let loglevel = (*self).set_logging_level();
        install::set_builder(loglevel);
    }
}

} // verus!
