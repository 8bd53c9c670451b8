//! Reading JSON.

use vstd::prelude::*;

verus! {

/// A JSON value of `serde_json`. What it holds is read through the
/// functions of `JSON`.
#[verifier::external_type_specification]
#[verifier::external_body]
pub struct ExJsonValue(serde_json::Value);

/// The error of `serde_json`.
#[verifier::external_type_specification]
#[verifier::external_body]
pub struct ExJsonError(serde_json::Error);

/// What a JSON value holds: for each JSON pointer that leads to a value
/// inside it, whether that value is an object, and its text where it is a
/// string.
pub uninterp spec fn json_entries(document: serde_json::Value) -> Map<
    Seq<char>,
    (bool, Option<Seq<char>>),
>;

/// What the JSON document written as `text` holds, or `None` where `text`
/// is no JSON document.
pub uninterp spec fn json_document(text: Seq<char>) -> Option<
    Map<Seq<char>, (bool, Option<Seq<char>>)>,
>;

/// The text of the string that stands at `pointer`, if a string stands
/// there.
pub open spec fn text_in(entries: Map<Seq<char>, (bool, Option<Seq<char>>)>, pointer: Seq<char>)
    -> Option<Seq<char>> {
    if entries.contains_key(pointer) {
        entries[pointer].1
    } else {
        None
    }
}

/// Whether an object stands at `pointer`.
pub open spec fn object_in(
    entries: Map<Seq<char>, (bool, Option<Seq<char>>)>,
    pointer: Seq<char>,
) -> bool {
    entries.contains_key(pointer) && entries[pointer].0
}

/// The model of a text that may be missing.
pub open spec fn text_of(text: Option<String>) -> Option<Seq<char>> {
    match text {
        Some(t) => Some(t@),
        None => None,
    }
}

/// The entry to JSON documents.
pub struct JSON;

impl JSON {
    /// Reads a JSON document: `serde_json::from_str` for a
    /// `serde_json::Value`. What the value holds depends on the text alone;
    /// a text that is no JSON document gives the error of `serde_json`.
    #[verifier::external_body]
    pub fn from_str(string: &str) -> (r: Result<serde_json::Value, serde_json::Error>)
        ensures
            match r {
                Ok(document) => json_document(string@) == Some(json_entries(document)),
                Err(_) => json_document(string@) is None,
            },
    {
        serde_json::from_str(string)
    }

    /// Looks up a JSON pointer: `serde_json::Value::pointer`, and of the
    /// value found `Value::is_object` and `Value::as_str`. A pointer that
    /// leads nowhere gives `None`.
    #[verifier::external_body]
    pub(crate) fn entry_at(document: &serde_json::Value, pointer: &str) -> (r: Option<
        (bool, Option<String>),
    >)
        ensures
            match r {
                Some((object, text)) => json_entries(*document).contains_key(pointer@)
                    && json_entries(*document)[pointer@] == (object, text_of(text)),
                None => !json_entries(*document).contains_key(pointer@),
            },
    {
        document.pointer(pointer).map(|found| (found.is_object(), found.as_str().map(String::from)))
    }

    /// The text of the string that stands at `pointer`.
    pub(crate) fn text_at(document: &serde_json::Value, pointer: &str) -> (r: Option<String>)
        ensures
            text_of(r) == text_in(json_entries(*document), pointer@),
    {
        match Self::entry_at(document, pointer) {
            Some((_, text)) => text,
            None => None,
        }
    }

    /// Whether an object stands at `pointer`.
    pub(crate) fn object_at(document: &serde_json::Value, pointer: &str) -> (r: bool)
        ensures
            r == object_in(json_entries(*document), pointer@),
    {
        match Self::entry_at(document, pointer) {
            Some((object, _)) => object,
            None => false,
        }
    }

    /// Whether anything stands at `pointer`.
    pub(crate) fn found_at(document: &serde_json::Value, pointer: &str) -> (r: bool)
        ensures
            r == json_entries(*document).contains_key(pointer@),
    {
        Self::entry_at(document, pointer).is_some()
    }
}

} // verus!
