//! Templates of log lines. A template holds the placeholders
//! `[%<time>%]`, `[%<levelname>%]` and `[%<message>%]`.

use vstd::prelude::*;
use crate::colors::{BLUE, BOLD, C_RESET, RED, YELLOW};

verus! {

/// Struct for creating a log format
#[derive(Debug, Clone, PartialEq, Eq)]
pub struct LogFormatOptions {
    pub timestamp_format: String,
    pub levelname_lowercase: bool,
}

/// Struct for creating a log format
#[derive(Debug, Clone, PartialEq, Eq)]
pub struct LogFormat {
    pub info: String,
    pub error: String,
    pub ok: String,
    pub warning: String,
    pub critical: String,
    pub panic: String,
    pub log_options: LogFormatOptions,
}

/// The colored template: the time in bold, the level in `color`, then
/// `gap` and the message.
pub open spec fn colored_template(color: Seq<char>, gap: Seq<char>) -> Seq<char> {
    C_RESET@ + BOLD@ + "[%<time>%] "@ + color + "[%<levelname>%]"@ + C_RESET@ + gap
        + "[%<message>%]"@
}

/// Whether `format` is the default format: colored lines whose messages
/// start in one column, with the time to the minute.
pub open spec fn is_default_format(format: LogFormat) -> bool {
    &&& format.info@ == colored_template(BLUE@, "    "@)
    &&& format.error@ == colored_template(RED@, "   "@)
    &&& format.ok@ == colored_template(BLUE@, "   "@)
    &&& format.warning@ == colored_template(YELLOW@, " "@)
    &&& format.critical@ == colored_template(RED@, " "@)
    &&& format.panic@ == colored_template(RED@, "   "@)
    &&& format.log_options.timestamp_format@ == "%Y-%m-%d %H:%M"@
    &&& !format.log_options.levelname_lowercase
}

/// Whether `format` is the primitive format: the level, a colon and the
/// message, for every level alike, without a time.
pub open spec fn is_basic_format(format: LogFormat) -> bool {
    &&& format.info@ == "[%<levelname>%]: [%<message>%]"@
    &&& format.error@ == "[%<levelname>%]: [%<message>%]"@
    &&& format.ok@ == "[%<levelname>%]: [%<message>%]"@
    &&& format.warning@ == "[%<levelname>%]: [%<message>%]"@
    &&& format.critical@ == "[%<levelname>%]: [%<message>%]"@
    &&& format.panic@ == "[%<levelname>%]: [%<message>%]"@
    &&& format.log_options.timestamp_format@ == ""@
    &&& !format.log_options.levelname_lowercase
}

/// Writes the colored template for one level.
pub fn colored(color: &str, gap: &str) -> (r: String)
    ensures
        r@ == colored_template(color@, gap@),
{
    let mut text = String::from_str(C_RESET);
    text.append(BOLD);
    text.append("[%<time>%] ");
    text.append(color);
    text.append("[%<levelname>%]");
    text.append(C_RESET);
    text.append(gap);
    text.append("[%<message>%]");
    text
}

/// Default log format, used by Strawberry Chat
#[must_use]
pub fn default_fmt() -> (r: LogFormat)
    ensures
        is_default_format(r),
{
    LogFormat {
        info: colored(BLUE, "    "),
        error: colored(RED, "   "),
        ok: colored(BLUE, "   "),
        warning: colored(YELLOW, " "),
        critical: colored(RED, " "),
        panic: colored(RED, "   "),
        log_options: LogFormatOptions {
            timestamp_format: String::from_str("%Y-%m-%d %H:%M"),
            levelname_lowercase: false,
        },
    }
}

/// Primitive log format
#[must_use]
pub fn basic_fmt() -> (r: LogFormat)
    ensures
        is_basic_format(r),
{
    LogFormat {
        info: String::from_str("[%<levelname>%]: [%<message>%]"),
        error: String::from_str("[%<levelname>%]: [%<message>%]"),
        ok: String::from_str("[%<levelname>%]: [%<message>%]"),
        warning: String::from_str("[%<levelname>%]: [%<message>%]"),
        critical: String::from_str("[%<levelname>%]: [%<message>%]"),
        panic: String::from_str("[%<levelname>%]: [%<message>%]"),
        log_options: LogFormatOptions {
            timestamp_format: String::from_str(""),
            levelname_lowercase: false,
        },
    }
}

} // verus!
