//! The registry: an ordered, duplicate-free mapping from names to commands.

use vstd::prelude::*;
use crate::command::{Command, valid_command_name};
use crate::commands::{BuiltinCommand, create, create_ping};
use crate::text::same_text;

verus! {

/// The names of a sequence of commands, in order.
pub open spec fn names_of<C: Command>(cmds: Seq<C>) -> Seq<Seq<char>> {
    cmds.map_values(|c: C| c.spec_name())
}

/// Every name is valid and no name occurs twice.
pub open spec fn names_ok(names: Seq<Seq<char>>) -> bool {
    &&& forall|i: int| 0 <= i < names.len() ==> valid_command_name(#[trigger] names[i])
    &&& forall|i: int, j: int|
        0 <= i < names.len() && 0 <= j < names.len() && i != j ==> #[trigger] names[i]
            != #[trigger] names[j]
}

/// Where `name` stands among `names`, if it does.
pub open spec fn position(names: Seq<Seq<char>>, name: Seq<char>) -> Option<int> {
    if exists|i: int| 0 <= i < names.len() && names[i] == name {
        Some(choose|i: int| 0 <= i < names.len() && names[i] == name)
    } else {
        None
    }
}

/// Whether registering `c` into `cmds` succeeds: its name is not taken.
pub open spec fn register_succeeds<C: Command>(cmds: Seq<C>, c: C) -> bool {
    position(names_of(cmds), c.spec_name()) is None
}

/// The commands after registering `c` into `cmds`: appended when its name
/// is free, unchanged otherwise.
pub open spec fn after_register<C: Command>(cmds: Seq<C>, c: C) -> Seq<C> {
    if register_succeeds(cmds, c) {
        cmds.push(c)
    } else {
        cmds
    }
}

/// Why a registration was refused.
pub enum RegistryError {
    /// A command with this name is registered already.
    DuplicateCommand { name: String },
}

/// The commands known to the bot, in registration order, each under a
/// distinct name.
pub struct CommandRegistry<C: Command> {
    entries: Vec<C>,
}

impl<C: Command> View for CommandRegistry<C> {
    type V = Seq<C>;

    closed spec fn view(&self) -> Seq<C> {
        self.entries@
    }
}

/// Under unique names, the position of a name is the index that holds it.
pub proof fn lemma_position_unique(names: Seq<Seq<char>>, i: int)
    requires
        names_ok(names),
        0 <= i < names.len(),
    ensures
        position(names, names[i]) == Some(i),
{
    assert(exists|k: int| 0 <= k < names.len() && names[k] == names[i]);
}

/// Registering a command with a valid name keeps every name valid and
/// distinct.
pub proof fn lemma_register_keeps_names_ok<C: Command>(cmds: Seq<C>, c: C)
    requires
        names_ok(names_of(cmds)),
        valid_command_name(c.spec_name()),
    ensures
        names_ok(names_of(after_register(cmds, c))),
{
    if register_succeeds(cmds, c) {
        let names = names_of(cmds.push(c));
        assert(names =~= names_of(cmds).push(c.spec_name()));
        assert forall|k: int| 0 <= k < cmds.len() implies names[k] != c.spec_name() by {
            if names[k] == c.spec_name() {
                assert(names_of(cmds)[k] == c.spec_name());
            }
        }
    }
}

impl<C: Command> CommandRegistry<C> {
    /// Whether the registry's invariant holds.
    pub open spec fn well_formed(&self) -> bool {
        names_ok(names_of(self@))
    }

    /// An empty registry.
    pub fn new() -> (r: Self)
        ensures
            r@ == Seq::<C>::empty(),
            r.well_formed(),
    {
        CommandRegistry { entries: Vec::new() }
    }

    /// The number of registered commands.
    pub fn len(&self) -> (r: usize)
        ensures
            r == self@.len(),
    {
        self.entries.len()
    }

    /// Where the command named `name` stands, if one is registered.
    pub fn find(&self, name: &str) -> (r: Option<usize>)
        requires
            self.well_formed(),
        ensures
            match r {
                Some(i) => position(names_of(self@), name@) == Some(i as int),
                None => position(names_of(self@), name@) is None,
            },
    {
        let ghost names = names_of(self@);
        let mut i: usize = 0;
        while i < self.entries.len()
            invariant
                names == names_of(self@),
                self@ == self.entries@,
                names_ok(names),
                i <= self.entries@.len(),
                forall|k: int| 0 <= k < i ==> names[k] != name@,
            decreases self.entries@.len() - i,
        {
            if same_text(self.entries[i].name(), name) {
                proof {
                    lemma_position_unique(names, i as int);
                }
                return Some(i);
            }
            i = i + 1;
        }
        None
    }

    /// The command registered under `name`, if any; the match is exact.
    pub fn lookup(&self, name: &str) -> (r: Option<&C>)
        requires
            self.well_formed(),
        ensures
            r.is_some() == (position(names_of(self@), name@) is Some),
            r.is_some() ==> *r.unwrap() == self@[position(names_of(self@), name@).unwrap()],
    {
        match self.find(name) {
            Some(i) => Some(&self.entries[i]),
            None => None,
        }
    }

    /// Adds `command` under its name, unless that name is taken, in which
    /// case the registry is left as it was and the duplicate is reported.
    pub fn register(&mut self, command: C) -> (r: Result<(), RegistryError>)
        requires
            old(self).well_formed(),
            valid_command_name(command.spec_name()),
        ensures
            final(self).well_formed(),
            final(self)@ == after_register(old(self)@, command),
            match r {
                Ok(()) => register_succeeds(old(self)@, command),
                Err(RegistryError::DuplicateCommand { name }) => !register_succeeds(
                    old(self)@,
                    command,
                ) && name@ == command.spec_name(),
            },
    {
        match self.find(command.name()) {
            Some(_) => {
                let name = String::from_str(command.name());
                Err(RegistryError::DuplicateCommand { name })
            },
            None => {
                let ghost before = self@;
                self.entries.push(command);
                proof {
                    lemma_register_keeps_names_ok(before, command);
                }
                Ok(())
            },
        }
    }

    /// Every registered command, in registration order.
    pub fn all(&self) -> (r: &[C])
        ensures
            r@ == self@,
    {
        self.entries.as_slice()
    }
}

/// The registry of the built-in commands: "ping", then "help".
pub fn load_all_commands() -> (r: CommandRegistry<BuiltinCommand>)
    ensures
        r.well_formed(),
        r@ == seq![BuiltinCommand::Ping(crate::commands::PingCommand), BuiltinCommand::Help(crate::commands::HelpCommand)],
{
    proof {
        crate::commands::lemma_builtin_names();
    }
    let mut registry = CommandRegistry::new();
    let ping = create_ping();
    let first = registry.register(ping);
    assert(first is Ok) by {
        assert(names_of(Seq::<BuiltinCommand>::empty()).len() == 0);
    }
    match create() {
        Some(help) => {
            let _ = registry.register(help);
        },
        None => {},
    }
    registry
}

} // verus!
