//! Strings (String Loader) simplifies the localization of programs.

use vstd::prelude::*;
use crate::localization::{
    fill_params, filled, lookup, text_in, yaml_document, yaml_parse, yaml_texts,
};

verus! {

/// A string loader for one language.
pub struct Strings {
    pub language: String,
    pub lang_str_object: serde_yaml::Value,
    pub replace_placeholders: bool,
}

impl Strings {
    /// The text under `string` as `load` gives it: the document's text in
    /// the chosen language, with the color placeholders replaced where the
    /// loader asks for it.
    pub open spec fn text(&self, string: Seq<char>) -> Option<Seq<char>> {
        text_in(self.lang_str_object, self.language@, string, self.replace_placeholders)
    }

    /// Creates a loader around a document that was read already, and none
    /// where reading gave no document.
    pub fn from_document(
        language: &str,
        document: Option<serde_yaml::Value>,
        replace_placeholders: bool,
    ) -> (r: Option<Self>)
        ensures
            match document {
                Some(strings) => r matches Some(s) && s.language@ == language@
                    && s.lang_str_object == strings && s.replace_placeholders
                    == replace_placeholders,
                None => r is None,
            },
    {
        match document {
            Some(lang_str_object) => Some(
                Self { language: String::from_str(language), lang_str_object, replace_placeholders },
            ),
            None => None,
        }
    }

    /// Create a new Strings object that leaves color placeholders as they
    /// are. A text that is no YAML gives `None`.
    #[must_use]
    pub fn new(language: &str, lang_strings: &str) -> (r: Option<Self>)
        ensures
            match yaml_document(lang_strings@) {
                Some(texts) => r matches Some(s) && s.language@ == language@
                    && !s.replace_placeholders && yaml_texts(s.lang_str_object) == texts,
                None => r is None,
            },
    {
        Self::from_document(language, yaml_parse(lang_strings), false)
    }

    /// Create a new Strings object with the use of color placeholders. A
    /// text that is no YAML gives `None`.
    #[must_use]
    pub fn new_with_placeholders(language: &str, lang_strings: &str) -> (r: Option<Self>)
        ensures
            match yaml_document(lang_strings@) {
                Some(texts) => r matches Some(s) && s.language@ == language@
                    && s.replace_placeholders && yaml_texts(s.lang_str_object) == texts,
                None => r is None,
            },
    {
        Self::from_document(language, yaml_parse(lang_strings), true)
    }

    /// Load a string. A key without a text in the chosen language gives
    /// `None`.
    #[must_use]
    pub fn load(&self, string: &str) -> (r: Option<String>)
        ensures
            match self.text(string@) {
                Some(text) => r matches Some(found) && found@ == text,
                None => r is None,
            },
    {
        lookup(&self.lang_str_object, self.language.as_str(), string, self.replace_placeholders)
    }

    /// Load a string and replace the given parameters with the
    /// placeholders inside the string.
    #[must_use]
    pub fn load_with_params(&self, string: &str, params: &Vec<String>) -> (r: Option<String>)
        ensures
            match self.text(string@) {
                Some(text) => r matches Some(found) && found@ == filled(text, params@),
                None => r is None,
            },
    {
        match self.load(string) {
            Some(message) => Some(fill_params(message.as_str(), params)),
            None => None,
        }
    }
}

} // verus!
