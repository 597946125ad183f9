//! What holds of the registry and the dispatcher across all inputs.

use vstd::prelude::*;
use crate::command::{Command, ContextView, MessageView, valid_command_name};
use crate::events::message_create::{
    OutcomeView, Resolution, completed, dispatched, failure_reply, invoked_command, reply_of,
    resolve, unknown_reply,
};
use crate::registry::{
    after_register, lemma_position_unique, lemma_register_keeps_names_ok, names_of, names_ok,
    position, register_succeeds,
};
use crate::text::lemma_single_token;

verus! {

/// After a command is registered, looking up its name gives that command,
/// every command registered before is still found under its own name, and a
/// name under which nothing is registered gives nothing.
pub proof fn law_lookup_after_register<C: Command>(cmds: Seq<C>, c: C, absent: Seq<char>)
    requires
        names_ok(names_of(cmds)),
        valid_command_name(c.spec_name()),
        register_succeeds(cmds, c),
        forall|i: int| 0 <= i < after_register(cmds, c).len() ==> #[trigger] after_register(cmds, c)[i].spec_name() != absent,
    ensures
        position(names_of(after_register(cmds, c)), c.spec_name()) == Some(cmds.len() as int),
        after_register(cmds, c)[cmds.len() as int] == c,
        forall|i: int|
            0 <= i < cmds.len() ==> position(names_of(after_register(cmds, c)), #[trigger] cmds[i].spec_name())
                == Some(i) && after_register(cmds, c)[i] == cmds[i],
        position(names_of(after_register(cmds, c)), absent) is None,
{
    let after = after_register(cmds, c);
    let names = names_of(after);
    lemma_register_keeps_names_ok(cmds, c);
    lemma_position_unique(names, cmds.len() as int);
    assert forall|i: int| 0 <= i < cmds.len() implies position(names, #[trigger] cmds[i].spec_name())
        == Some(i) && after[i] == cmds[i] by {
        lemma_position_unique(names, i);
    }
    if exists|i: int| 0 <= i < names.len() && names[i] == absent {
        let i = choose|i: int| 0 <= i < names.len() && names[i] == absent;
        assert(after[i].spec_name() == absent);
    }
}

/// Registering a command whose name is taken is refused and changes
/// nothing; registering any command never drops one registered before, and
/// names stay distinct.
pub proof fn law_duplicates_are_signalled<C: Command>(cmds: Seq<C>, c: C)
    requires
        names_ok(names_of(cmds)),
        valid_command_name(c.spec_name()),
    ensures
        names_ok(names_of(after_register(cmds, c))),
        forall|i: int| 0 <= i < cmds.len() ==> #[trigger] after_register(cmds, c)[i] == cmds[i],
        register_succeeds(cmds, c) ==> after_register(cmds, c) == cmds.push(c),
        !register_succeeds(cmds, c) ==> after_register(cmds, c) == cmds,
        !register_succeeds(cmds, c) <==> exists|i: int|
            0 <= i < cmds.len() && #[trigger] cmds[i].spec_name() == c.spec_name(),
{
    lemma_register_keeps_names_ok(cmds, c);
    let names = names_of(cmds);
    if exists|i: int| 0 <= i < cmds.len() && #[trigger] cmds[i].spec_name() == c.spec_name() {
        let i = choose|i: int| 0 <= i < cmds.len() && #[trigger] cmds[i].spec_name() == c.spec_name();
        assert(names[i] == c.spec_name());
    }
    if !register_succeeds(cmds, c) {
        let i = choose|i: int| 0 <= i < names.len() && names[i] == c.spec_name();
        assert(cmds[i].spec_name() == c.spec_name());
    }
}

/// A message that does not begin with the prefix runs no command and gets
/// no reply.
pub proof fn law_no_prefix_no_dispatch<C: Command>(cmds: Seq<C>, prefix: Seq<char>, msg: MessageView)
    requires
        !prefix.is_prefix_of(msg.content),
    ensures
        dispatched(cmds, prefix, msg) == OutcomeView::Ignored,
        invoked_command(dispatched(cmds, prefix, msg)) is None,
        reply_of(dispatched(cmds, prefix, msg)) is None,
{
}

/// The tokens after the prefix of a message that is the prefix followed by
/// a single word are that word alone.
proof fn lemma_prefixed_word(prefix: Seq<char>, word: Seq<char>, msg: MessageView)
    requires
        valid_command_name(word),
        msg.content == prefix + word,
    ensures
        prefix.is_prefix_of(msg.content),
        crate::events::message_create::command_tokens(prefix, msg.content) == seq![word],
{
    assert(msg.content.subrange(0, prefix.len() as int) =~= prefix);
    assert(msg.content.skip(prefix.len() as int) =~= word);
    lemma_single_token(word);
}

/// A message from a person that is the prefix followed by the name of a
/// registered command runs exactly that command, once, with no arguments.
pub proof fn law_named_command_runs<C: Command>(cmds: Seq<C>, prefix: Seq<char>, msg: MessageView, i: int)
    requires
        names_ok(names_of(cmds)),
        0 <= i < cmds.len(),
        !msg.author_is_bot,
        msg.content == prefix + cmds[i].spec_name(),
    ensures
        resolve(names_of(cmds), prefix, msg) == Resolution::Invoke(i, Seq::<Seq<char>>::empty()),
        invoked_command(dispatched(cmds, prefix, msg)) == Some(i),
        dispatched(cmds, prefix, msg) == completed(
            i,
            cmds[i].spec_execute(ContextView { message: msg, args: Seq::<Seq<char>>::empty() }),
        ),
{
    let names = names_of(cmds);
    assert(names[i] == cmds[i].spec_name());
    lemma_prefixed_word(prefix, cmds[i].spec_name(), msg);
    lemma_position_unique(names, i);
    assert(seq![cmds[i].spec_name()].skip(1) =~= Seq::<Seq<char>>::empty());
}

/// A message from a person that is the prefix followed by a name under
/// which nothing is registered runs no command and gets exactly the
/// unknown-command reply.
pub proof fn law_unknown_command_reply<C: Command>(cmds: Seq<C>, prefix: Seq<char>, msg: MessageView, name: Seq<char>)
    requires
        valid_command_name(name),
        forall|i: int| 0 <= i < cmds.len() ==> #[trigger] cmds[i].spec_name() != name,
        !msg.author_is_bot,
        msg.content == prefix + name,
    ensures
        dispatched(cmds, prefix, msg) == OutcomeView::UnknownCommand,
        invoked_command(dispatched(cmds, prefix, msg)) is None,
        reply_of(dispatched(cmds, prefix, msg)) == Some(unknown_reply()),
{
    let names = names_of(cmds);
    lemma_prefixed_word(prefix, name, msg);
    if exists|i: int| 0 <= i < names.len() && names[i] == name {
        let i = choose|i: int| 0 <= i < names.len() && names[i] == name;
        assert(cmds[i].spec_name() == name);
    }
}

/// A command that fails yields the failure reply and nothing more: the
/// dispatch of any later message naming a registered command still runs
/// that command and gives what it gives.
pub proof fn law_failure_is_isolated<C: Command>(
    cmds: Seq<C>,
    prefix: Seq<char>,
    failing: MessageView,
    next: MessageView,
    i: int,
)
    requires
        names_ok(names_of(cmds)),
        dispatched(cmds, prefix, failing) is Failed,
        0 <= i < cmds.len(),
        !next.author_is_bot,
        next.content == prefix + cmds[i].spec_name(),
    ensures
        reply_of(dispatched(cmds, prefix, failing)) == Some(failure_reply()),
        invoked_command(dispatched(cmds, prefix, next)) == Some(i),
        dispatched(cmds, prefix, next) == completed(
            i,
            cmds[i].spec_execute(ContextView { message: next, args: Seq::<Seq<char>>::empty() }),
        ),
{
    law_named_command_runs(cmds, prefix, next, i);
}

/// Messages written by a bot are never dispatched, whatever they say.
pub proof fn law_bot_messages_ignored<C: Command>(cmds: Seq<C>, prefix: Seq<char>, msg: MessageView)
    requires
        msg.author_is_bot,
    ensures
        dispatched(cmds, prefix, msg) == OutcomeView::Ignored,
        reply_of(dispatched(cmds, prefix, msg)) is None,
{
}

} // verus!
