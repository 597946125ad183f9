//! The capability that every command offers, and what it is handed.

use vstd::prelude::*;
use crate::text::has_no_white_space;

verus! {

/// A message as it arrives from the chat platform.
pub struct IncomingMessage {
    /// Whether the message was written by a bot account.
    pub author_is_bot: bool,
    /// The text of the message.
    pub content: String,
}

/// The model of an incoming message.
pub struct MessageView {
    pub author_is_bot: bool,
    pub content: Seq<char>,
}

impl View for IncomingMessage {
    type V = MessageView;

    open spec fn view(&self) -> MessageView {
        MessageView { author_is_bot: self.author_is_bot, content: self.content@ }
    }
}

impl IncomingMessage {
    /// A message with the given author flag and text.
    pub fn new(author_is_bot: bool, content: String) -> (r: Self)
        ensures
            r.author_is_bot == author_is_bot,
            r.content@ == content@,
    {
        IncomingMessage { author_is_bot, content }
    }

    /// A copy of this message.
    pub fn duplicate(&self) -> (r: Self)
        ensures
            r@ == self@,
    {
        IncomingMessage { author_is_bot: self.author_is_bot, content: self.content.clone() }
    }
}

/// What a command is handed when it is invoked: the message that named it
/// and the argument tokens that followed its name.
pub struct InvocationContext {
    pub message: IncomingMessage,
    pub args: Vec<String>,
}

/// The model of an invocation context.
pub struct ContextView {
    pub message: MessageView,
    pub args: Seq<Seq<char>>,
}

impl View for InvocationContext {
    type V = ContextView;

    open spec fn view(&self) -> ContextView {
        ContextView { message: self.message@, args: crate::text::views(self.args@) }
    }
}

/// The error a command reports when it cannot do its work.
pub struct CommandError {
    pub reason: String,
}

/// The model of what a command's execution gives: the reply text, or the
/// reason of its failure.
pub open spec fn execution_view(r: Result<String, CommandError>) -> Result<Seq<char>, Seq<char>> {
    match r {
        Ok(text) => Ok(text@),
        Err(e) => Err(e.reason@),
    }
}

/// A name that a command may be registered under: not empty, and without
/// whitespace, so that it reads as a single token.
pub open spec fn valid_command_name(name: Seq<char>) -> bool {
    &&& name.len() > 0
    &&& has_no_white_space(name)
}

/// A named unit of behaviour that the dispatcher can invoke.
pub trait Command {
    /// The name the command is registered and invoked under.
    spec fn spec_name(&self) -> Seq<char>;

    /// What an invocation in the given context gives: the reply to send,
    /// or the reason of a failure.
    spec fn spec_execute(&self, ctx: ContextView) -> Result<Seq<char>, Seq<char>>;

    /// The name the command answers to.
    fn name(&self) -> (r: &str)
        ensures
            r@ == self.spec_name(),
    ;

    /// Runs the command, giving the reply to send back or why it failed.
    fn execute(&self, ctx: &InvocationContext) -> (r: Result<String, CommandError>)
        ensures
            execution_view(r) == self.spec_execute(ctx@),
    ;
}

} // verus!
