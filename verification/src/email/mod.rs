//! An email, built field by field.

pub mod credentials;
pub mod message;

use vstd::prelude::*;
use crate::email::message::{Content, ContentType};

verus! {

/// An email that is not sent yet.
#[derive(Debug, Clone, PartialEq, Eq)]
pub struct Email {
    pub from: String,
    pub to: String,
    pub subject: String,
    pub body_type: ContentType,
    pub content: Content,
}

impl Default for Email {
    /// An email with empty fields, a plain body type and no content.
    fn default() -> (r: Self)
        ensures
            r.from@.len() == 0,
            r.to@.len() == 0,
            r.subject@.len() == 0,
            r.body_type == ContentType::PLAIN,
            r.content == Content::Default,
    {
        Email {
            from: String::new(),
            to: String::new(),
            subject: String::new(),
            body_type: ContentType::PLAIN,
            content: Content::Default,
        }
    }
}

impl Email {
    /// An email with empty fields, a plain body type and no content.
    #[must_use]
    pub fn new() -> (r: Self)
        ensures
            r.from@.len() == 0,
            r.to@.len() == 0,
            r.subject@.len() == 0,
            r.body_type == ContentType::PLAIN,
            r.content == Content::Default,
    {
        Email {
            from: String::new(),
            to: String::new(),
            subject: String::new(),
            body_type: ContentType::PLAIN,
            content: Content::Default,
        }
    }

    /// Sets the subject and leaves everything else.
    #[must_use]
    pub fn subject(self, subject: &str) -> (r: Self)
        ensures
            r.subject@ == subject@,
            r.from == self.from,
            r.to == self.to,
            r.body_type == self.body_type,
            r.content == self.content,
    {
        let mut email = self;
        email.subject = String::from_str(subject);
        email
    }

    /// Sets the body and its type and leaves everything else.
    #[must_use]
    pub fn body(self, body_type: ContentType, content: Content) -> (r: Self)
        ensures
            r.body_type == body_type,
            r.content == content,
            r.from == self.from,
            r.to == self.to,
            r.subject == self.subject,
    {
        let mut email = self;
        email.body_type = body_type;
        email.content = content;
        email
    }

    /// Sets the sender and leaves everything else.
    #[must_use]
    pub fn from(self, from: &str) -> (r: Self)
        ensures
            r.from@ == from@,
            r.to == self.to,
            r.subject == self.subject,
            r.body_type == self.body_type,
            r.content == self.content,
    {
        let mut email = self;
        email.from = String::from_str(from);
        email
    }

    /// Sets the recipient and leaves everything else.
    #[must_use]
    pub fn to(self, to: &str) -> (r: Self)
        ensures
            r.to@ == to@,
            r.from == self.from,
            r.subject == self.subject,
            r.body_type == self.body_type,
            r.content == self.content,
    {
        let mut email = self;
        email.to = String::from_str(to);
        email
    }

    /// The text that is sent as the body: the content's text, and nothing
    /// for an email without content.
    pub fn body_text(&self) -> (r: &'static str)
        ensures
            r@ == self.content.text(),
    {
        match self.content {
            Content::Default => "",
            Content::Plain(text) => text,
            Content::Html(text) => text,
        }
    }
}

} // verus!
