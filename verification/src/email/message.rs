//! What an email carries.

use vstd::prelude::*;

verus! {

/// How the body is to be read.
#[derive(Debug, Clone, Copy, PartialEq, Eq, Structural)]
pub enum ContentType {
    PLAIN,
    HTML,
}

impl Default for ContentType {
    fn default() -> (r: Self)
        ensures
            r == ContentType::PLAIN,
    {
        ContentType::PLAIN
    }
}

/// The body of an email.
#[derive(Debug, Clone, Copy, PartialEq, Eq)]
pub enum Content {
    Default,
    Plain(&'static str),
    Html(&'static str),
}

impl Default for Content {
    fn default() -> (r: Self)
        ensures
            r == Content::Default,
    {
        Content::Default
    }
}

impl Content {
    /// The text of the body; a body that was never set has none.
    pub open spec fn text(&self) -> Seq<char> {
        match self {
            Content::Default => ""@,
            Content::Plain(text) => text@,
            Content::Html(text) => text@,
        }
    }
}

} // verus!
