//! The clock.

use std::fmt::Write;
use vstd::prelude::*;

verus! {

/// Fetch the current time in a given time format.
///
/// This is `chrono::Local::now`, written through `DateTime::format` with
/// the given format. The text depends on the clock and on the time zone of
/// the machine, so nothing is promised about it. Where the format holds an
/// item that chrono does not know, writing fails and there is no text.
#[must_use]
#[verifier::external_body]
pub fn current_time(format: &str) -> Option<String> {
    let mut text = String::new();
    match write!(text, "{}", chrono::Local::now().format(format)) {
        Ok(()) => Some(text),
        Err(_) => None,
    }
}

} // verus!
