//! The command registry and the dispatcher: a call by name or alias is
//! routed to the handler that was registered for it.

use vstd::prelude::*;
use crate::scapi::command::{Command, CommandResponse};
use crate::scapi::context::Context;

verus! {

/// What can go wrong between a call and its answer.
#[derive(Debug, Clone, PartialEq, Eq)]
pub enum CommandError {
    /// No registered command has this name or alias.
    CommandNotFound(String),
    /// The handler ran and failed with this message.
    HandlerError(String),
    /// This name or alias of a new command belongs to a registered one.
    NameCollision(String),
}

impl CommandError {
    /// The error in words.
    pub open spec fn text(&self) -> Seq<char> {
        match self {
            CommandError::CommandNotFound(name) => "Command not found: "@ + name@,
            CommandError::HandlerError(message) => message@,
            CommandError::NameCollision(name) => "Name is taken by another command: "@ + name@,
        }
    }

    /// The error in words. The message of a handler is passed on as it is.
    pub fn message(&self) -> (r: String)
        ensures
            r@ == self.text(),
    {
        match self {
            CommandError::CommandNotFound(name) => {
                let mut text = String::from_str("Command not found: ");
                text.append(name.as_str());
                text
            },
            CommandError::HandlerError(message) => message.clone(),
            CommandError::NameCollision(name) => {
                let mut text = String::from_str("Name is taken by another command: ");
                text.append(name.as_str());
                text
            },
        }
    }
}

/// The index of the first command at or after `from` whose name is `name`.
pub open spec fn first_named<H>(cmds: Seq<Command<H>>, name: Seq<char>, from: int) -> Option<int>
    decreases cmds.len() - from,
{
    if 0 <= from < cmds.len() {
        if cmds[from].name@ == name {
            Some(from)
        } else {
            first_named(cmds, name, from + 1)
        }
    } else {
        None
    }
}

/// The index of the first command at or after `from` that has the alias
/// `name`.
pub open spec fn first_aliased<H>(cmds: Seq<Command<H>>, name: Seq<char>, from: int) -> Option<
    int,
>
    decreases cmds.len() - from,
{
    if 0 <= from < cmds.len() {
        if cmds[from].has_alias(name) {
            Some(from)
        } else {
            first_aliased(cmds, name, from + 1)
        }
    } else {
        None
    }
}

/// The command that a call of `name` means: the first with that name, or
/// else the first with that alias.
pub open spec fn resolved<H>(cmds: Seq<Command<H>>, name: Seq<char>) -> Option<int> {
    match first_named(cmds, name, 0) {
        Some(i) => Some(i),
        None => first_aliased(cmds, name, 0),
    }
}

/// Whether no call can mean two of the commands.
pub open spec fn no_collisions<H>(cmds: Seq<Command<H>>) -> bool {
    forall|i: int, j: int, name: Seq<char>|
        0 <= i < j < cmds.len() ==> !(#[trigger] cmds[i].answers_to(name)
            && #[trigger] cmds[j].answers_to(name))
}

/// The index of the first alias at or after `from` that a registered
/// command answers to.
pub open spec fn first_taken_alias<H>(
    cmds: Seq<Command<H>>,
    aliases: Seq<&'static str>,
    from: int,
) -> Option<int>
    decreases aliases.len() - from,
{
    if 0 <= from < aliases.len() {
        if resolved(cmds, aliases[from]@) is Some {
            Some(from)
        } else {
            first_taken_alias(cmds, aliases, from + 1)
        }
    } else {
        None
    }
}

/// The first of the new command's names that a registered command answers
/// to: its name, or else the first such alias.
pub open spec fn first_collision<H>(cmds: Seq<Command<H>>, command: Command<H>) -> Option<
    Seq<char>,
> {
    if resolved(cmds, command.name@) is Some {
        Some(command.name@)
    } else {
        match first_taken_alias(cmds, command.aliases@, 0) {
            Some(j) => Some(command.aliases@[j]@),
            None => None,
        }
    }
}

/// What `first_named` finds has the name, nothing before it has, and where
/// it finds nothing, nothing has.
pub proof fn lemma_first_named<H>(cmds: Seq<Command<H>>, name: Seq<char>, from: int)
    requires
        0 <= from <= cmds.len(),
    ensures
        match first_named(cmds, name, from) {
            Some(i) => from <= i < cmds.len() && cmds[i].name@ == name && forall|k: int|
                from <= k < i ==> (#[trigger] cmds[k]).name@ != name,
            None => forall|k: int| from <= k < cmds.len() ==> (#[trigger] cmds[k]).name@ != name,
        },
    decreases cmds.len() - from,
{
    if from < cmds.len() && cmds[from].name@ != name {
        lemma_first_named(cmds, name, from + 1);
    }
}

/// What `first_aliased` finds has the alias, nothing before it has, and
/// where it finds nothing, nothing has.
pub proof fn lemma_first_aliased<H>(cmds: Seq<Command<H>>, name: Seq<char>, from: int)
    requires
        0 <= from <= cmds.len(),
    ensures
        match first_aliased(cmds, name, from) {
            Some(i) => from <= i < cmds.len() && cmds[i].has_alias(name) && forall|k: int|
                from <= k < i ==> !(#[trigger] cmds[k]).has_alias(name),
            None => forall|k: int|
                from <= k < cmds.len() ==> !(#[trigger] cmds[k]).has_alias(name),
        },
    decreases cmds.len() - from,
{
    if from < cmds.len() && !cmds[from].has_alias(name) {
        lemma_first_aliased(cmds, name, from + 1);
    }
}

/// What `first_taken_alias` finds is an alias that a registered command
/// answers to, and where it finds nothing, there is none.
pub proof fn lemma_first_taken_alias<H>(
    cmds: Seq<Command<H>>,
    aliases: Seq<&'static str>,
    from: int,
)
    requires
        0 <= from <= aliases.len(),
    ensures
        match first_taken_alias(cmds, aliases, from) {
            Some(j) => from <= j < aliases.len() && resolved(cmds, aliases[j]@) is Some,
            None => forall|k: int|
                from <= k < aliases.len() ==> resolved(cmds, (#[trigger] aliases[k])@) is None,
        },
    decreases aliases.len() - from,
{
    if from < aliases.len() && resolved(cmds, aliases[from]@) is None {
        lemma_first_taken_alias(cmds, aliases, from + 1);
    }
}

/// A call resolves to a command that answers to it, and resolves to none
/// exactly when no command answers to it.
pub proof fn lemma_resolved<H>(cmds: Seq<Command<H>>, name: Seq<char>)
    ensures
        match resolved(cmds, name) {
            Some(i) => 0 <= i < cmds.len() && cmds[i].answers_to(name),
            None => forall|k: int| 0 <= k < cmds.len() ==> !(#[trigger] cmds[k]).answers_to(name),
        },
{
    lemma_first_named(cmds, name, 0);
    lemma_first_aliased(cmds, name, 0);
}

/// Where no call can mean two commands, a command is reached by its name
/// and by each of its aliases, and by nothing else.
pub proof fn lemma_resolved_registered<H>(cmds: Seq<Command<H>>, i: int, name: Seq<char>)
    requires
        no_collisions(cmds),
        0 <= i < cmds.len(),
    ensures
        cmds[i].answers_to(name) <==> resolved(cmds, name) == Some(i),
{
    lemma_resolved(cmds, name);
    if cmds[i].answers_to(name) {
        let k = resolved(cmds, name)->Some_0;
        assert(cmds[k].answers_to(name));
        if k < i {
            assert(!(cmds[k].answers_to(name) && cmds[i].answers_to(name)));
        } else if i < k {
            assert(!(cmds[i].answers_to(name) && cmds[k].answers_to(name)));
        }
    }
}

/// Turns what a handler answered into the result of the dispatch: a reply
/// or nothing stays as it is, an error message becomes a `HandlerError`
/// with the same message.
pub fn conclude(response: CommandResponse) -> (r: Result<Option<String>, CommandError>)
    ensures
        match response {
            Ok(reply) => r == Ok::<Option<String>, CommandError>(reply),
            Err(message) => r == Err::<Option<String>, CommandError>(
                CommandError::HandlerError(message),
            ),
        },
{
    match response {
        Ok(reply) => Ok(reply),
        Err(message) => Err(CommandError::HandlerError(message)),
    }
}

/// The commands of a bot, in the order of registration. No name or alias
/// of one command is a name or alias of another: `register` sees to it.
pub struct CommandRegistry<H> {
    commands: Vec<Command<H>>,
}

impl<H> View for CommandRegistry<H> {
    type V = Seq<Command<H>>;

    closed spec fn view(&self) -> Seq<Command<H>> {
        self.commands@
    }
}

impl<H> CommandRegistry<H> {
    /// Whether no call can mean two of the registered commands. A new
    /// registry is so, and `register` keeps it so.
    pub open spec fn well_formed(&self) -> bool {
        no_collisions(self@)
    }

    /// A registry without commands.
    pub fn new() -> (r: Self)
        ensures
            r@ == Seq::<Command<H>>::empty(),
            r.well_formed(),
    {
        CommandRegistry { commands: Vec::new() }
    }

    /// The number of registered commands.
    pub fn len(&self) -> (n: usize)
        ensures
            n == self@.len(),
    {
        self.commands.len()
    }

    /// The command registered as number `i`.
    pub fn get(&self, i: usize) -> (r: &Command<H>)
        requires
            i < self@.len(),
        ensures
            *r == self@[i as int],
    {
        &self.commands[i]
    }

    /// Finds the command that a call of `name` means: first by name, then
    /// by alias.
    pub fn resolve(&self, name: &str) -> (r: Option<usize>)
        ensures
            match r {
                Some(i) => resolved(self@, name@) == Some(i as int) && i < self@.len(),
                None => resolved(self@, name@) is None,
            },
    {
        let mut i: usize = 0;
        while i < self.commands.len()
            invariant
                i <= self.commands.len(),
                first_named(self.commands@, name@, i as int) == first_named(
                    self.commands@,
                    name@,
                    0,
                ),
            decreases self.commands.len() - i,
        {
            if self.commands[i].is_named(name) {
                return Some(i);
            }
            i += 1;
        }
        let mut j: usize = 0;
        while j < self.commands.len()
            invariant
                j <= self.commands.len(),
                first_named(self.commands@, name@, 0) is None,
                first_aliased(self.commands@, name@, j as int) == first_aliased(
                    self.commands@,
                    name@,
                    0,
                ),
            decreases self.commands.len() - j,
        {
            if self.commands[j].is_alias(name) {
                return Some(j);
            }
            j += 1;
        }
        None
    }

    /// Registers a command behind those registered before.
    ///
    /// A command whose name or one of whose aliases already means a
    /// registered command is refused with `NameCollision`, carrying the
    /// first such name, and the registry stays as it was.
    pub fn register(&mut self, command: Command<H>) -> (r: Result<(), CommandError>)
        ensures
            match first_collision(old(self)@, command) {
                None => r is Ok && final(self)@ == old(self)@.push(command),
                Some(taken) => {
                    &&& r matches Err(CommandError::NameCollision(n))
                    &&& n@ == taken
                    &&& final(self)@ == old(self)@
                },
            },
            old(self).well_formed() ==> final(self).well_formed(),
    {
        if self.resolve(command.name.as_str()).is_some() {
            return Err(CommandError::NameCollision(command.name.clone()));
        }
        let mut j: usize = 0;
        while j < command.aliases.len()
            invariant
                j <= command.aliases.len(),
                self@ == old(self)@,
                resolved(self@, command.name@) is None,
                first_taken_alias(self@, command.aliases@, j as int) == first_taken_alias(
                    self@,
                    command.aliases@,
                    0,
                ),
            decreases command.aliases.len() - j,
        {
            if self.resolve(command.aliases[j]).is_some() {
                return Err(CommandError::NameCollision(String::from_str(command.aliases[j])));
            }
            j += 1;
        }
        proof {
            let cmds = self.commands@;
            let grown = cmds.push(command);
            lemma_first_taken_alias(cmds, command.aliases@, 0);
            if no_collisions(cmds) {
            assert forall|a: int, b: int, name: Seq<char>| 0 <= a < b < grown.len() implies !(
            #[trigger] grown[a].answers_to(name) && #[trigger] grown[b].answers_to(name)) by {
                if b < cmds.len() {
                    assert(grown[a] == cmds[a] && grown[b] == cmds[b]);
                    assert(!(cmds[a].answers_to(name) && cmds[b].answers_to(name)));
                } else if grown[b].answers_to(name) {
                    assert(grown[b] == command);
                    assert(grown[a] == cmds[a]);
                    lemma_resolved(cmds, name);
                    if command.name@ != name {
                        let k = choose|k: int|
                            0 <= k < command.aliases@.len() && (
                            #[trigger] command.aliases@[k])@ == name;
                        assert(resolved(cmds, command.aliases@[k]@) is None);
                    }
                }
            }
            }
        }
        self.commands.push(command);
        Ok(())
    }

    /// Runs the handler that a call of `name` means and returns what it
    /// returned, unchanged.
    ///
    /// Fails with `CommandNotFound`, carrying `name`, exactly when no
    /// registered command has that name or alias. Otherwise the handler of
    /// the resolved command runs once, on a context built from the three
    /// arguments for this call alone.
    pub fn invoke<C, R>(&self, name: &str, executor: String, args: Vec<String>, channel: C) -> (r:
        Result<R, CommandError>) where H: Fn(Context<C>) -> R
        requires
            resolved(self@, name@) matches Some(i) ==> call_requires(
                self@[i].handler,
                ((Context { executor, args, channel }),),
            ),
        ensures
            match resolved(self@, name@) {
                Some(i) => r matches Ok(out) && call_ensures(
                    self@[i].handler,
                    ((Context { executor, args, channel }),),
                    out,
                ),
                None => r matches Err(CommandError::CommandNotFound(n)) && n@ == name@,
            },
    {
        match self.resolve(name) {
            Some(i) => {
                let context = Context { executor, args, channel };
                Ok((self.commands[i].handler)(context))
            },
            None => Err(CommandError::CommandNotFound(String::from_str(name))),
        }
    }

    /// Routes a call to its handler and reports how it went.
    ///
    /// Fails with `CommandNotFound`, carrying `name`, exactly when no
    /// registered command has that name or alias. Otherwise the result is
    /// what the handler of the resolved command answered on a fresh
    /// context: its reply or nothing unchanged, its error message as a
    /// `HandlerError`.
    pub fn dispatch<C>(&self, name: &str, executor: String, args: Vec<String>, channel: C) -> (r:
        Result<Option<String>, CommandError>) where H: Fn(Context<C>) -> CommandResponse
        requires
            resolved(self@, name@) matches Some(i) ==> call_requires(
                self@[i].handler,
                ((Context { executor, args, channel }),),
            ),
        ensures
            match resolved(self@, name@) {
                Some(i) => exists|response: CommandResponse|
                    {
                        &&& call_ensures(
                            self@[i].handler,
                            ((Context { executor, args, channel }),),
                            response,
                        )
                        &&& match response {
                            Ok(reply) => r == Ok::<Option<String>, CommandError>(reply),
                            Err(message) => r == Err::<Option<String>, CommandError>(
                                CommandError::HandlerError(message),
                            ),
                        }
                    },
                None => r matches Err(CommandError::CommandNotFound(n)) && n@ == name@,
            },
    {
        match self.invoke(name, executor, args, channel) {
            Ok(response) => conclude(response),
            Err(e) => Err(e),
        }
    }
}

} // verus!
