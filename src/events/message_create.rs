//! Dispatch of an incoming message to the command it names.

use vstd::prelude::*;
use crate::command::{Command, CommandError, ContextView, InvocationContext, MessageView, IncomingMessage, execution_view};
use crate::registry::{CommandRegistry, names_of, position};
use crate::text::{split_white_space, starts_with, tokens, views};

verus! {

/// How a message is resolved, before any command runs.
pub enum Resolution {
    /// Nothing is to be done.
    Ignore,
    /// The message names no registered command.
    Unknown,
    /// The command at this index is to run with these arguments.
    Invoke(int, Seq<Seq<char>>),
}

/// The tokens that follow `prefix` in `content`.
pub open spec fn command_tokens(prefix: Seq<char>, content: Seq<char>) -> Seq<Seq<char>> {
    tokens(content.skip(prefix.len() as int))
}

/// Resolves `msg` against the command names `names`: messages of bots,
/// messages that do not begin with `prefix`, and messages with nothing after
/// it are ignored; otherwise the first token names the command and the
/// rest are its arguments.
pub open spec fn resolve(names: Seq<Seq<char>>, prefix: Seq<char>, msg: MessageView) -> Resolution {
    if msg.author_is_bot {
        Resolution::Ignore
    } else if !prefix.is_prefix_of(msg.content) {
        Resolution::Ignore
    } else {
        let toks = command_tokens(prefix, msg.content);
        if toks.len() == 0 {
            Resolution::Ignore
        } else {
            match position(names, toks[0]) {
                Some(i) => Resolution::Invoke(i, toks.skip(1)),
                None => Resolution::Unknown,
            }
        }
    }
}

/// The model of a dispatch outcome.
pub enum OutcomeView {
    Ignored,
    UnknownCommand,
    Replied { command: int, text: Seq<char> },
    Failed { command: int, reason: Seq<char> },
}

/// What dispatching one message did.
pub enum DispatchOutcome {
    /// No command ran and nothing is to be sent.
    Ignored,
    /// The message named no registered command.
    UnknownCommand,
    /// The command at this index ran and gave this reply.
    Replied { command: usize, text: String },
    /// The command at this index ran and failed for this reason.
    Failed { command: usize, reason: String },
}

impl View for DispatchOutcome {
    type V = OutcomeView;

    open spec fn view(&self) -> OutcomeView {
        match self {
            DispatchOutcome::Ignored => OutcomeView::Ignored,
            DispatchOutcome::UnknownCommand => OutcomeView::UnknownCommand,
            DispatchOutcome::Replied { command, text } => OutcomeView::Replied {
                command: *command as int,
                text: text@,
            },
            DispatchOutcome::Failed { command, reason } => OutcomeView::Failed {
                command: *command as int,
                reason: reason@,
            },
        }
    }
}

/// The outcome of running command `i` when its execution gave `result`.
pub open spec fn completed(i: int, result: Result<Seq<char>, Seq<char>>) -> OutcomeView {
    match result {
        Ok(text) => OutcomeView::Replied { command: i, text },
        Err(reason) => OutcomeView::Failed { command: i, reason },
    }
}

/// The outcome of dispatching `msg` over the commands `cmds`.
pub open spec fn dispatched<C: Command>(cmds: Seq<C>, prefix: Seq<char>, msg: MessageView) -> OutcomeView {
    match resolve(names_of(cmds), prefix, msg) {
        Resolution::Ignore => OutcomeView::Ignored,
        Resolution::Unknown => OutcomeView::UnknownCommand,
        Resolution::Invoke(i, args) => completed(
            i,
            cmds[i].spec_execute(ContextView { message: msg, args }),
        ),
    }
}

/// The index of the command that an outcome ran, if any.
pub open spec fn invoked_command(o: OutcomeView) -> Option<int> {
    match o {
        OutcomeView::Replied { command, .. } => Some(command),
        OutcomeView::Failed { command, .. } => Some(command),
        _ => None,
    }
}

/// The reply sent when a message names no registered command.
pub open spec fn unknown_reply() -> Seq<char> {
    "Unknown command!"@
}

/// The reply sent when a command fails.
pub open spec fn failure_reply() -> Seq<char> {
    "Something went wrong while running that command."@
}

/// The text to send back for an outcome, if any.
pub open spec fn reply_of(o: OutcomeView) -> Option<Seq<char>> {
    match o {
        OutcomeView::Ignored => None,
        OutcomeView::UnknownCommand => Some(unknown_reply()),
        OutcomeView::Replied { text, .. } => Some(text),
        OutcomeView::Failed { .. } => Some(failure_reply()),
    }
}

impl DispatchOutcome {
    /// The text to send back to the channel the message came from, if any.
    pub fn reply(&self) -> (r: Option<String>)
        ensures
            match r {
                Some(t) => reply_of(self@) == Some(t@),
                None => reply_of(self@) is None,
            },
    {
        match self {
            DispatchOutcome::Ignored => None,
            DispatchOutcome::UnknownCommand => Some(String::from_str("Unknown command!")),
            DispatchOutcome::Replied { text, .. } => Some(text.clone()),
            DispatchOutcome::Failed { .. } => Some(
                String::from_str("Something went wrong while running that command."),
            ),
        }
    }

    /// The index of the command that ran, if one did.
    pub fn invoked(&self) -> (r: Option<usize>)
        ensures
            match r {
                Some(i) => invoked_command(self@) == Some(i as int),
                None => invoked_command(self@) is None,
            },
    {
        match self {
            DispatchOutcome::Replied { command, .. } => Some(*command),
            DispatchOutcome::Failed { command, .. } => Some(*command),
            _ => None,
        }
    }
}

/// The outcome of command `command` once its execution gave `result`: a
/// failure is kept as an outcome of its own and never escapes dispatch.
pub fn complete(command: usize, result: Result<String, CommandError>) -> (r: DispatchOutcome)
    ensures
        r@ == completed(command as int, execution_view(result)),
{
    match result {
        Ok(text) => DispatchOutcome::Replied { command, text },
        Err(e) => DispatchOutcome::Failed { command, reason: e.reason },
    }
}

/// Dispatches `msg`: resolves it against `registry` with the command prefix
/// `prefix` and runs the command it names, if any.
pub fn run<C: Command>(registry: &CommandRegistry<C>, prefix: &str, msg: &IncomingMessage) -> (r: DispatchOutcome)
    requires
        registry.well_formed(),
    ensures
        r@ == dispatched(registry@, prefix@, msg@),
{
    if msg.author_is_bot {
        return DispatchOutcome::Ignored;
    }
    let content = msg.content.as_str();
    if !starts_with(content, prefix) {
        return DispatchOutcome::Ignored;
    }
    let n = content.unicode_len();
    let rest = content.substring_char(prefix.unicode_len(), n);
    assert(rest@ =~= msg.content@.skip(prefix@.len() as int));
    let mut toks = split_white_space(rest);
    if toks.len() == 0 {
        return DispatchOutcome::Ignored;
    }
    let ghost all = views(toks@);
    let name = toks.remove(0);
    assert(views(toks@) =~= all.skip(1));
    match registry.find(name.as_str()) {
        None => DispatchOutcome::UnknownCommand,
        Some(i) => {
            let ctx = InvocationContext { message: msg.duplicate(), args: toks };
            let result = registry.all()[i].execute(&ctx);
            complete(i, result)
        },
    }
}

} // verus!
