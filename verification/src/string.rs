//! Questions about strings.

use vstd::prelude::*;
use crate::text::{is_whitespace, is_whitespace_char, to_chars};

verus! {

/// The pattern of an ANSI escape sequence: an introducer, parameter bytes,
/// intermediate bytes and a final byte.
pub const ANSI_ESCAPE_PATTERN: &'static str = r"(?:\x1B[@-_]|[\x80-\x9F])[0-?]*[ -/]*[@-~]";

/// What `regex` makes of `text` when every match of `pattern` is replaced
/// by `replacement`, or `None` where `pattern` is no regular expression.
pub uninterp spec fn regex_replaced(
    pattern: Seq<char>,
    text: Seq<char>,
    replacement: Seq<char>,
) -> Option<Seq<char>>;

/// `regex::Regex::new` on `pattern`, then `Regex::replace_all` on `text`
/// with `replacement`. The result is a function of the three texts; where
/// the pattern does not compile there is none.
#[verifier::external_body]
fn regex_replace_all(pattern: &str, text: &str, replacement: &str) -> (r: Option<String>)
    ensures
        match regex_replaced(pattern@, text@, replacement@) {
            Some(replaced) => r matches Some(out) && out@ == replaced,
            None => r is None,
        },
{
    match regex::Regex::new(pattern) {
        Ok(re) => Some(re.replace_all(text, replacement).into_owned()),
        Err(_) => None,
    }
}

/// `text` without its ANSI escape sequences, for the outcome `stripped` of
/// the replacement: the replaced text, or `text` itself where there is no
/// outcome.
pub open spec fn without_ansi(text: Seq<char>, stripped: Option<Seq<char>>) -> Seq<char> {
    match stripped {
        Some(clean) => clean,
        None => text,
    }
}

/// Chooses between the replaced text and the text as it came.
pub fn strip_outcome(text: &str, stripped: Option<String>) -> (r: String)
    ensures
        r@ == without_ansi(
            text@,
            match stripped {
                Some(s) => Some(s@),
                None => None,
            },
        ),
{
    match stripped {
        Some(clean) => clean,
        None => String::from_str(text),
    }
}

/// Escape ansi characters from a string: every match of
/// `ANSI_ESCAPE_PATTERN` is taken out.
#[must_use]
pub fn escape_ansi(string: &str) -> (r: String)
    ensures
        r@ == without_ansi(string@, regex_replaced(ANSI_ESCAPE_PATTERN@, string@, ""@)),
{
    let stripped = regex_replace_all(ANSI_ESCAPE_PATTERN, string, "");
    strip_outcome(string, stripped)
}

/// Check if a variable contains a space character.
#[must_use]
pub fn contains_whitespace(string: &str) -> (r: bool)
    ensures
        r == string@.contains(' '),
{
    let chars = to_chars(string);
    let mut i: usize = 0;
    while i < chars.len()
        invariant
            i <= chars.len(),
            chars@ == string@,
            forall|k: int| 0 <= k < i ==> chars@[k] != ' ',
        decreases chars.len() - i,
    {
        if chars[i] == ' ' {
            return true;
        }
        i += 1;
    }
    false
}

/// Check if a variable is empty or holds nothing but whitespace.
#[must_use]
pub fn is_empty_or_whitespace(string: &str) -> (r: bool)
    ensures
        r == (forall|k: int| 0 <= k < string@.len() ==> is_whitespace_char(#[trigger] string@[k])),
{
    let chars = to_chars(string);
    let mut i: usize = 0;
    while i < chars.len()
        invariant
            i <= chars.len(),
            chars@ == string@,
            forall|k: int| 0 <= k < i ==> is_whitespace_char(#[trigger] chars@[k]),
        decreases chars.len() - i,
    {
        if !is_whitespace(chars[i]) {
            return false;
        }
        i += 1;
    }
    true
}

} // verus!
