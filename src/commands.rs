//! The commands this bot ships with.

use vstd::prelude::*;
use crate::command::{Command, CommandError, ContextView, InvocationContext, execution_view};

verus! {

/// Answers "ping" with "Pong!".
pub struct PingCommand;

/// Answers "help" with a short notice.
pub struct HelpCommand;

/// One of the commands this bot ships with.
pub enum BuiltinCommand {
    Ping(PingCommand),
    Help(HelpCommand),
}

impl Command for PingCommand {
    open spec fn spec_name(&self) -> Seq<char> {
        "ping"@
    }

    open spec fn spec_execute(&self, ctx: ContextView) -> Result<Seq<char>, Seq<char>> {
        Ok("Pong!"@)
    }

    fn name(&self) -> (r: &str) {
        "ping"
    }

    fn execute(&self, ctx: &InvocationContext) -> (r: Result<String, CommandError>) {
        Ok(String::from_str("Pong!"))
    }
}

impl HelpCommand {
    /// The help command.
    pub fn new() -> (r: Self)
        ensures
            r == HelpCommand,
    {
        HelpCommand
    }
}

impl Command for HelpCommand {
    open spec fn spec_name(&self) -> Seq<char> {
        "help"@
    }

    open spec fn spec_execute(&self, ctx: ContextView) -> Result<Seq<char>, Seq<char>> {
        Ok("This is the help command."@)
    }

    fn name(&self) -> (r: &str) {
        "help"
    }

    fn execute(&self, ctx: &InvocationContext) -> (r: Result<String, CommandError>) {
        Ok(String::from_str("This is the help command."))
    }
}

impl Command for BuiltinCommand {
    open spec fn spec_name(&self) -> Seq<char> {
        match self {
            BuiltinCommand::Ping(c) => c.spec_name(),
            BuiltinCommand::Help(c) => c.spec_name(),
        }
    }

    open spec fn spec_execute(&self, ctx: ContextView) -> Result<Seq<char>, Seq<char>> {
        match self {
            BuiltinCommand::Ping(c) => c.spec_execute(ctx),
            BuiltinCommand::Help(c) => c.spec_execute(ctx),
        }
    }

    fn name(&self) -> (r: &str) {
        match self {
            BuiltinCommand::Ping(c) => c.name(),
            BuiltinCommand::Help(c) => c.name(),
        }
    }

    fn execute(&self, ctx: &InvocationContext) -> (r: Result<String, CommandError>) {
        match self {
            BuiltinCommand::Ping(c) => c.execute(ctx),
            BuiltinCommand::Help(c) => c.execute(ctx),
        }
    }
}

/// The ping command, ready to be registered.
pub fn create_ping() -> (r: BuiltinCommand)
    ensures
        r == BuiltinCommand::Ping(PingCommand),
{
    BuiltinCommand::Ping(PingCommand)
}

/// The help command, ready to be registered.
pub fn create() -> (r: Option<BuiltinCommand>)
    ensures
        r == Some(BuiltinCommand::Help(HelpCommand)),
{
    Some(BuiltinCommand::Help(HelpCommand::new()))
}

/// The names of the built-in commands are valid and distinct.
pub proof fn lemma_builtin_names()
    ensures
        crate::command::valid_command_name("ping"@),
        crate::command::valid_command_name("help"@),
        "ping"@ != "help"@,
{
    reveal_strlit("ping");
    reveal_strlit("help");
    assert("ping"@[0] != "help"@[0]);
}

} // verus!
