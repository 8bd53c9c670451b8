//! How grave a log line is.

use vstd::prelude::*;

verus! {

/// The levels of the logger.
#[derive(Debug, Clone, Copy, PartialEq, Eq, Structural)]
pub enum LogLevel {
    OK,
    INFO,
    ERROR,
    WARNING,
    CRITICAL,
    PANIC,
}

} // verus!
