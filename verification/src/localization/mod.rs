//! Localized strings, read from a YAML document that holds, for each
//! language, a text under each key.

use vstd::prelude::*;
use crate::colors::{
    BLUE, BOLD, CYAN, C_RESET, GREEN, MAGENTA, RED, RESET, UNDERLINE, WHITE, YELLOW,
};
use crate::number::{i64_to_string, integer_of, integer_text, parse_i64};
use crate::text::{find, find_first, from_chars, lemma_find_from, replace, replace_all, to_chars};

verus! {

/// A YAML value of `serde_yaml`.
#[verifier::external_type_specification]
#[verifier::external_body]
pub struct ExYamlValue(serde_yaml::Value);

/// The texts of a document: what stands, as a string, under a key below a
/// language.
pub uninterp spec fn yaml_texts(document: serde_yaml::Value) -> Map<
    (Seq<char>, Seq<char>),
    Seq<char>,
>;

/// The texts of the YAML document written as `text`, or `None` where
/// `text` is no YAML document.
pub uninterp spec fn yaml_document(text: Seq<char>) -> Option<
    Map<(Seq<char>, Seq<char>), Seq<char>>,
>;

/// Reads a YAML document: `serde_yaml::from_str` for a
/// `serde_yaml::Value`. What the value holds depends on the text alone; a
/// text that is no YAML gives `None`.
#[verifier::external_body]
pub(crate) fn yaml_parse(text: &str) -> (r: Option<serde_yaml::Value>)
    ensures
        match r {
            Some(document) => yaml_document(text@) == Some(yaml_texts(document)),
            None => yaml_document(text@) is None,
        },
{
    serde_yaml::from_str(text).ok()
}

/// Looks a text up: the document indexed by the language, that indexed by
/// the key, and `serde_yaml::Value::as_str` of what is found. Indexing
/// gives null where there is no such entry, and null is no string: the
/// result is the document's text for the pair, and `None` where it has
/// none.
#[verifier::external_body]
fn yaml_text_at(document: &serde_yaml::Value, language: &str, key: &str) -> (r: Option<String>)
    ensures
        match r {
            Some(text) => yaml_texts(*document).contains_key((language@, key@)) && yaml_texts(
                *document,
            )[(language@, key@)] == text@,
            None => !yaml_texts(*document).contains_key((language@, key@)),
        },
{
    document[language][key].as_str().map(String::from)
}

/// `raw` with each color placeholder replaced by its escape sequence, one
/// placeholder after the other in this order.
pub open spec fn colorized(raw: Seq<char>) -> Seq<char> {
    let a = replace_all(raw, "{red}"@, RED@);
    let b = replace_all(a, "{green}"@, GREEN@);
    let c = replace_all(b, "{yellow}"@, YELLOW@);
    let d = replace_all(c, "{blue}"@, BLUE@);
    let e = replace_all(d, "{magenta}"@, MAGENTA@);
    let f = replace_all(e, "{cyan}"@, CYAN@);
    let g = replace_all(f, "{white}"@, WHITE@);
    let h = replace_all(g, "{reset}"@, RESET@);
    let i = replace_all(h, "{creset}"@, C_RESET@);
    let j = replace_all(i, "{bold}"@, BOLD@);
    replace_all(j, "{underline}"@, UNDERLINE@)
}

/// `message` with the two characters at `at` replaced by `with`.
pub open spec fn spliced(message: Seq<char>, at: int, with: Seq<char>) -> Seq<char> {
    message.subrange(0, at) + with + message.subrange(at + 2, message.len() as int)
}

/// `message` after one parameter: the first `%s` takes the parameter as
/// it is; where there is no `%s`, the first `%d` takes it if it spells a
/// whole number, written plainly; else nothing changes.
pub open spec fn filled_once(message: Seq<char>, param: Seq<char>) -> Seq<char> {
    match find_first(message, "%s"@) {
        Some(at) => spliced(message, at, param),
        None => match find_first(message, "%d"@) {
            Some(at) => match integer_of(param) {
                Some(v) => spliced(message, at, integer_text(v)),
                None => message,
            },
            None => message,
        },
    }
}

/// `message` after the parameters from number `i` on, each in its turn.
pub open spec fn filled_from(message: Seq<char>, params: Seq<String>, i: int) -> Seq<char>
    decreases params.len() - i,
{
    if 0 <= i < params.len() {
        filled_from(filled_once(message, params[i]@), params, i + 1)
    } else {
        message
    }
}

/// `message` after all parameters, each in its turn.
pub open spec fn filled(message: Seq<char>, params: Seq<String>) -> Seq<char> {
    filled_from(message, params, 0)
}

/// Replaces the color placeholders of a text by their escape sequences.
pub fn colorize(raw: &str) -> (r: String)
    ensures
        r@ == colorized(raw@),
{
    let text = to_chars(raw);
    let a = replace(&text, &to_chars("{red}"), &to_chars(RED));
    let b = replace(&a, &to_chars("{green}"), &to_chars(GREEN));
    let c = replace(&b, &to_chars("{yellow}"), &to_chars(YELLOW));
    let d = replace(&c, &to_chars("{blue}"), &to_chars(BLUE));
    let e = replace(&d, &to_chars("{magenta}"), &to_chars(MAGENTA));
    let f = replace(&e, &to_chars("{cyan}"), &to_chars(CYAN));
    let g = replace(&f, &to_chars("{white}"), &to_chars(WHITE));
    let h = replace(&g, &to_chars("{reset}"), &to_chars(RESET));
    let i = replace(&h, &to_chars("{creset}"), &to_chars(C_RESET));
    let j = replace(&i, &to_chars("{bold}"), &to_chars(BOLD));
    let k = replace(&j, &to_chars("{underline}"), &to_chars(UNDERLINE));
    from_chars(&k)
}

/// Puts `with` in the place of the two characters at `at`.
fn splice(message: &Vec<char>, at: usize, with: &Vec<char>) -> (r: Vec<char>)
    requires
        at + 2 <= message.len(),
    ensures
        r@ == spliced(message@, at as int, with@),
{
    let mut out: Vec<char> = Vec::new();
    let mut i: usize = 0;
    while i < at
        invariant
            i <= at,
            at + 2 <= message.len(),
            out@ == message@.subrange(0, i as int),
        decreases at - i,
    {
        out.push(message[i]);
        i += 1;
    }
    let mut k: usize = 0;
    while k < with.len()
        invariant
            k <= with.len(),
            out@ == message@.subrange(0, at as int) + with@.take(k as int),
        decreases with.len() - k,
    {
        out.push(with[k]);
        k += 1;
    }
    assert(with@.take(with@.len() as int) == with@);
    let mut j: usize = at + 2;
    while j < message.len()
        invariant
            at + 2 <= j <= message.len(),
            out@ == message@.subrange(0, at as int) + with@ + message@.subrange(at + 2, j as int),
        decreases message.len() - j,
    {
        out.push(message[j]);
        j += 1;
    }
    out
}

/// Fills the placeholders `%s` and `%d` of a message with the parameters,
/// one parameter after the other.
pub fn fill_params(message: &str, params: &Vec<String>) -> (r: String)
    ensures
        r@ == filled(message@, params@),
{
    let mut text = to_chars(message);
    let text_mark = to_chars("%s");
    let number_mark = to_chars("%d");
    proof {
        reveal_strlit("%s");
        reveal_strlit("%d");
    }
    let mut i: usize = 0;
    while i < params.len()
        invariant
            i <= params.len(),
            text_mark@ == "%s"@,
            number_mark@ == "%d"@,
            text_mark@.len() == 2,
            number_mark@.len() == 2,
            filled_from(text@, params@, i as int) == filled(message@, params@),
        decreases params.len() - i,
    {
        proof {
            lemma_find_from(text@, text_mark@, 0);
            lemma_find_from(text@, number_mark@, 0);
        }
        match find(&text, &text_mark) {
            Some(at) => {
                let with = to_chars(params[i].as_str());
                text = splice(&text, at, &with);
            },
            None => match find(&text, &number_mark) {
                Some(at) => match parse_i64(params[i].as_str()) {
                    Some(v) => {
                        let plain = i64_to_string(v);
                        let with = to_chars(plain.as_str());
                        text = splice(&text, at, &with);
                    },
                    None => {},
                },
                None => {},
            },
        }
        i += 1;
    }
    from_chars(&text)
}

/// The text that `document` has under `key` in `language`, with the color
/// placeholders replaced where `colors` asks for it.
pub open spec fn text_in(
    document: serde_yaml::Value,
    language: Seq<char>,
    key: Seq<char>,
    colors: bool,
) -> Option<Seq<char>> {
    if yaml_texts(document).contains_key((language, key)) {
        let raw = yaml_texts(document)[(language, key)];
        Some(
            if colors {
                colorized(raw)
            } else {
                raw
            },
        )
    } else {
        None
    }
}

/// Looks up the text under `key` in `language`.
pub fn lookup(document: &serde_yaml::Value, language: &str, key: &str, colors: bool) -> (r:
    Option<String>)
    ensures
        match text_in(*document, language@, key@, colors) {
            Some(text) => r matches Some(found) && found@ == text,
            None => r is None,
        },
{
    match yaml_text_at(document, language, key) {
        Some(raw) => if colors {
            Some(colorize(raw.as_str()))
        } else {
            Some(raw)
        },
        None => None,
    }
}

/// `Localization` provides convenient access to localized strings and
/// supports color placeholders.
pub struct Localization {
    pub language: String,
    pub strings: serde_yaml::Value,
    pub color_placeholders: bool,
}

impl Localization {
    /// The text under `key` as `get` gives it: the document's text in the
    /// chosen language, with the color placeholders replaced where the
    /// instance asks for it.
    pub open spec fn text(&self, key: Seq<char>) -> Option<Seq<char>> {
        text_in(self.strings, self.language@, key, self.color_placeholders)
    }

    /// Creates a `Localization` instance around a document that was read
    /// already, and none where reading gave no document.
    pub fn from_document(
        language: &str,
        document: Option<serde_yaml::Value>,
        enable_placeholders: bool,
    ) -> (r: Option<Self>)
        ensures
            match document {
                Some(strings) => r matches Some(l) && l.language@ == language@ && l.strings
                    == strings && l.color_placeholders == enable_placeholders,
                None => r is None,
            },
    {
        match document {
            Some(strings) => Some(
                Self {
                    language: String::from_str(language),
                    strings,
                    color_placeholders: enable_placeholders,
                },
            ),
            None => None,
        }
    }

    /// Creates a new `Localization` instance from the text of a YAML
    /// document. A text that is no YAML gives `None`.
    #[must_use]
    pub fn new(language: &str, yaml_content: &str, enable_placeholders: bool) -> (r: Option<Self>)
        ensures
            match yaml_document(yaml_content@) {
                Some(texts) => r matches Some(l) && l.language@ == language@
                    && l.color_placeholders == enable_placeholders && yaml_texts(l.strings)
                    == texts,
                None => r is None,
            },
    {
        Self::from_document(language, yaml_parse(yaml_content), enable_placeholders)
    }

    /// Retrieves a localized string by key, optionally replacing color
    /// placeholders. A key without a text in the chosen language gives
    /// `None`.
    #[must_use]
    pub fn get(&self, key: &str) -> (r: Option<String>)
        ensures
            match self.text(key@) {
                Some(text) => r matches Some(found) && found@ == text,
                None => r is None,
            },
    {
        lookup(&self.strings, self.language.as_str(), key, self.color_placeholders)
    }

    /// Retrieves a localized string and replaces `%s`/`%d` placeholders
    /// with provided parameters.
    #[must_use]
    pub fn get_with_params(&self, key: &str, params: &Vec<String>) -> (r: Option<String>)
        ensures
            match self.text(key@) {
                Some(text) => r matches Some(found) && found@ == filled(text, params@),
                None => r is None,
            },
    {
        match self.get(key) {
            Some(message) => Some(fill_params(message.as_str(), params)),
            None => None,
        }
    }
}

} // verus!
