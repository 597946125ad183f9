//! What the bot does once its session is ready.

use vstd::prelude::*;
use crate::commands::{BuiltinCommand, HelpCommand, PingCommand};
use crate::registry::{CommandRegistry, load_all_commands};

verus! {

/// Builds the registry of built-in commands into `commands` unless it is
/// built already; running it again changes nothing.
pub fn run(commands: &mut Option<CommandRegistry<BuiltinCommand>>)
    ensures
        old(commands).is_some() ==> *final(commands) == *old(commands),
        old(commands).is_none() ==> final(commands).is_some(),
        old(commands).is_none() ==> final(commands).unwrap().well_formed(),
        old(commands).is_none() ==> final(commands).unwrap()@ == seq![
            BuiltinCommand::Ping(PingCommand),
            BuiltinCommand::Help(HelpCommand),
        ],
{
    if commands.is_none() {
        *commands = Some(load_all_commands());
    }
}

} // verus!
