//! A simple console logger with custom formatting.

pub mod features;
pub mod featureset;
pub mod formats;
pub mod level;

use vstd::prelude::*;
use crate::logging::features::LoggingFeatures;
use crate::logging::formats::{default_fmt, is_default_format, LogFormat};
use crate::logging::level::LogLevel;
use crate::text::{replace_all, replace_str};
use crate::time::current_time;

verus! {

/// A simple console logger struct with custom formatting and more
#[derive(Debug, Clone, PartialEq, Eq)]
pub struct Logger {
    pub features: LoggingFeatures,
    pub format: LogFormat,
}

/// The name of a level as a log line shows it.
pub open spec fn level_name(level: LogLevel, lowercase: bool) -> Seq<char> {
    match level {
        LogLevel::OK => if lowercase { "ok"@ } else { "OK"@ },
        LogLevel::INFO => if lowercase { "info"@ } else { "INFO"@ },
        LogLevel::ERROR => if lowercase { "error"@ } else { "ERROR"@ },
        LogLevel::WARNING => if lowercase { "warning"@ } else { "WARNING"@ },
        LogLevel::CRITICAL => if lowercase { "critical"@ } else { "CRITICAL"@ },
        LogLevel::PANIC => if lowercase { "panic"@ } else { "PANIC"@ },
    }
}

/// The template that a format has for a level.
pub open spec fn template_of(format: LogFormat, level: LogLevel) -> Seq<char> {
    match level {
        LogLevel::OK => format.ok@,
        LogLevel::INFO => format.info@,
        LogLevel::ERROR => format.error@,
        LogLevel::WARNING => format.warning@,
        LogLevel::CRITICAL => format.critical@,
        LogLevel::PANIC => format.panic@,
    }
}

/// A template with its placeholders filled in: first every level name,
/// then every message, then every time. A placeholder that an earlier
/// filling brought in is filled like any other.
pub open spec fn filled(
    template: Seq<char>,
    level: Seq<char>,
    message: Seq<char>,
    time: Seq<char>,
) -> Seq<char> {
    replace_all(
        replace_all(replace_all(template, "[%<levelname>%]"@, level), "[%<message>%]"@, message),
        "[%<time>%]"@,
        time,
    )
}

impl Logger {
    /// Create a new Logger object
    #[must_use]
    pub fn new(features: LoggingFeatures, format: LogFormat) -> (r: Self)
        ensures
            r.features == features,
            r.format == format,
    {
        Self { features, format }
    }

    /// The name of `level`, in lower case where the format asks for it.
    pub fn map_loglevel(&self, level: &LogLevel) -> (r: String)
        ensures
            r@ == level_name(*level, self.format.log_options.levelname_lowercase),
    {
        let lowercase = self.format.log_options.levelname_lowercase;
        let name = match level {
            LogLevel::OK => if lowercase { "ok" } else { "OK" },
            LogLevel::INFO => if lowercase { "info" } else { "INFO" },
            LogLevel::ERROR => if lowercase { "error" } else { "ERROR" },
            LogLevel::WARNING => if lowercase { "warning" } else { "WARNING" },
            LogLevel::CRITICAL => if lowercase { "critical" } else { "CRITICAL" },
            LogLevel::PANIC => if lowercase { "panic" } else { "PANIC" },
        };
        String::from_str(name)
    }

    /// The log line for `message` at `level`, written at `time`.
    pub fn render(&self, level: &LogLevel, message: &str, time: &str) -> (r: String)
        ensures
            r@ == filled(
                template_of(self.format, *level),
                level_name(*level, self.format.log_options.levelname_lowercase),
                message@,
                time@,
            ),
    {
        let template = match level {
            LogLevel::OK => self.format.ok.as_str(),
            LogLevel::INFO => self.format.info.as_str(),
            LogLevel::ERROR => self.format.error.as_str(),
            LogLevel::WARNING => self.format.warning.as_str(),
            LogLevel::CRITICAL => self.format.critical.as_str(),
            LogLevel::PANIC => self.format.panic.as_str(),
        };
        let name = self.map_loglevel(level);
        let with_level = replace_str(template, "[%<levelname>%]", name.as_str());
        let with_message = replace_str(with_level.as_str(), "[%<message>%]", message);
        replace_str(with_message.as_str(), "[%<time>%]", time)
    }

    /// The log line for `message` at `level`, written now: the time is the
    /// current time in the format's timestamp format, and empty where that
    /// format cannot be written.
    pub fn parse(&self, level: &LogLevel, message: &str) -> (r: String)
        ensures
            exists|time: Seq<char>|
                r@ == filled(
                    template_of(self.format, *level),
                    level_name(*level, self.format.log_options.levelname_lowercase),
                    message@,
                    time,
                ),
    {
        let now = current_time(self.format.log_options.timestamp_format.as_str());
        match now {
            Some(time) => self.render(level, message, time.as_str()),
            None => self.render(level, message, ""),
        }
    }
}

impl Default for Logger {
    /// A logger with every feature off and the default format.
    fn default() -> (r: Self)
        ensures
            !r.features.enable_file_handler,
            is_default_format(r.format),
    {
        Logger { features: LoggingFeatures { enable_file_handler: false }, format: default_fmt() }
    }
}

} // verus!
