//! A command of the bot: a name, alternate names, and the handler that
//! runs when a user calls one of them.

use vstd::prelude::*;
use crate::text::str_eq;

verus! {

/// What a handler answers: a reply to send, nothing, or an error message.
pub type CommandResponse = Result<Option<String>, String>;

/// A command with a handler of type `H`.
#[derive(Clone)]
pub struct Command<H> {
    /// Name of command (execution name, e.g. test -> /test)
    pub name: String,
    /// Aliases for commands
    pub aliases: Vec<&'static str>,
    /// Description of command
    pub description: String,
    /// Logic of command (function)
    pub handler: H,
}

impl<H> Command<H> {
    /// Whether `name` is one of the command's aliases.
    pub open spec fn has_alias(&self, name: Seq<char>) -> bool {
        exists|j: int| 0 <= j < self.aliases@.len() && (#[trigger] self.aliases@[j])@ == name
    }

    /// Whether a call of `name` means this command.
    pub open spec fn answers_to(&self, name: Seq<char>) -> bool {
        self.name@ == name || self.has_alias(name)
    }

    /// Whether `name` is one of the command's aliases.
    pub fn is_alias(&self, name: &str) -> (r: bool)
        ensures
            r == self.has_alias(name@),
    {
        let mut j: usize = 0;
        while j < self.aliases.len()
            invariant
                j <= self.aliases.len(),
                forall|k: int| 0 <= k < j ==> (#[trigger] self.aliases@[k])@ != name@,
            decreases self.aliases.len() - j,
        {
            if str_eq(self.aliases[j], name) {
                return true;
            }
            j += 1;
        }
        false
    }

    /// Whether the command's name is `name`.
    pub fn is_named(&self, name: &str) -> (r: bool)
        ensures
            r == (self.name@ == name@),
    {
        str_eq(self.name.as_str(), name)
    }
}

} // verus!
