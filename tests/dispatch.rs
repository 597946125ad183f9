use uwu_bot::command::{Command, CommandError, IncomingMessage, InvocationContext};
use uwu_bot::commands::{create, create_ping, BuiltinCommand, HelpCommand, PingCommand};
use uwu_bot::events::message_create::{complete, run, DispatchOutcome};
use uwu_bot::events::ready;
use uwu_bot::registry::{load_all_commands, CommandRegistry, RegistryError};
use uwu_bot::text::{is_white_space_char, same_text, split_white_space, starts_with};

const PREFIX: &str = "dick";

fn message(content: &str) -> IncomingMessage {
    IncomingMessage::new(false, content.to_string())
}

fn bot_message(content: &str) -> IncomingMessage {
    IncomingMessage::new(true, content.to_string())
}

fn names(registry: &CommandRegistry<BuiltinCommand>) -> Vec<String> {
    registry.all().iter().map(|c| c.name().to_string()).collect()
}

#[test]
fn lookup_finds_registered_commands() {
    let registry = load_all_commands();
    assert_eq!(registry.len(), 2);
    assert_eq!(registry.lookup("ping").map(|c| c.name()), Some("ping"));
    assert_eq!(registry.lookup("help").map(|c| c.name()), Some("help"));
    assert_eq!(registry.find("ping"), Some(0));
    assert_eq!(registry.find("help"), Some(1));
}

#[test]
fn lookup_of_unregistered_name_is_none() {
    let registry = load_all_commands();
    assert!(registry.lookup("pong").is_none());
    assert!(registry.lookup("Ping").is_none());
    assert!(registry.lookup("pin").is_none());
    assert!(registry.lookup("").is_none());
    let empty: CommandRegistry<BuiltinCommand> = CommandRegistry::new();
    assert!(empty.lookup("ping").is_none());
}

#[test]
fn lookup_after_register_gives_the_command() {
    let mut registry: CommandRegistry<BuiltinCommand> = CommandRegistry::new();
    assert!(registry.register(BuiltinCommand::Help(HelpCommand::new())).is_ok());
    assert_eq!(registry.lookup("help").map(|c| c.name()), Some("help"));
    assert!(registry.lookup("ping").is_none());
    assert!(registry.register(create_ping()).is_ok());
    assert_eq!(registry.find("ping"), Some(1));
    assert_eq!(names(&registry), vec!["help".to_string(), "ping".to_string()]);
}

#[test]
fn duplicate_registration_is_refused() {
    let mut registry = load_all_commands();
    match registry.register(BuiltinCommand::Ping(PingCommand)) {
        Err(RegistryError::DuplicateCommand { name }) => assert_eq!(name, "ping"),
        Ok(()) => panic!("a duplicate name was accepted"),
    }
    assert_eq!(registry.len(), 2);
    assert_eq!(names(&registry), vec!["ping".to_string(), "help".to_string()]);
}

#[test]
fn message_without_prefix_is_ignored() {
    let registry = load_all_commands();
    for content in ["ping", "hello dick ping", "", "Dickping", "dic"] {
        let outcome = run(&registry, PREFIX, &message(content));
        assert!(matches!(outcome, DispatchOutcome::Ignored));
        assert_eq!(outcome.invoked(), None);
        assert_eq!(outcome.reply(), None);
    }
}

#[test]
fn prefix_ping_invokes_ping_once() {
    let registry = load_all_commands();
    let outcome = run(&registry, PREFIX, &message("dickping"));
    assert_eq!(outcome.invoked(), Some(0));
    assert_eq!(outcome.reply(), Some("Pong!".to_string()));
    let spaced = run(&registry, PREFIX, &message("dick  ping  extra"));
    assert_eq!(spaced.invoked(), Some(0));
}

#[test]
fn prefix_help_replies_with_help_text() {
    let registry = load_all_commands();
    let outcome = run(&registry, PREFIX, &message("dick help me please"));
    assert_eq!(outcome.invoked(), Some(1));
    assert_eq!(outcome.reply(), Some("This is the help command.".to_string()));
}

#[test]
fn unknown_command_gets_one_reply() {
    let registry = load_all_commands();
    let outcome = run(&registry, PREFIX, &message("dicknonexistent"));
    assert!(matches!(outcome, DispatchOutcome::UnknownCommand));
    assert_eq!(outcome.invoked(), None);
    assert_eq!(outcome.reply(), Some("Unknown command!".to_string()));
}

#[test]
fn prefix_alone_is_ignored() {
    let registry = load_all_commands();
    for content in ["dick", "dick   ", "dick\t\n"] {
        let outcome = run(&registry, PREFIX, &message(content));
        assert!(matches!(outcome, DispatchOutcome::Ignored));
    }
}

#[test]
fn failing_command_does_not_stop_dispatch() {
    let registry = load_all_commands();
    let failed = complete(1, Err(CommandError { reason: "broken".to_string() }));
    assert_eq!(failed.invoked(), Some(1));
    assert_eq!(
        failed.reply(),
        Some("Something went wrong while running that command.".to_string())
    );
    let next = run(&registry, PREFIX, &message("dickping"));
    assert_eq!(next.invoked(), Some(0));
    assert_eq!(next.reply(), Some("Pong!".to_string()));
}

#[test]
fn complete_keeps_a_reply() {
    let outcome = complete(3, Ok("done".to_string()));
    match outcome {
        DispatchOutcome::Replied { command, ref text } => {
            assert_eq!(command, 3);
            assert_eq!(text, "done");
        }
        _ => panic!("expected a reply"),
    }
}

#[test]
fn bot_messages_are_never_dispatched() {
    let registry = load_all_commands();
    for content in ["dickping", "dickhelp", "dicknonexistent", "ping", ""] {
        let outcome = run(&registry, PREFIX, &bot_message(content));
        assert!(matches!(outcome, DispatchOutcome::Ignored));
        assert_eq!(outcome.reply(), None);
    }
}

#[test]
fn other_prefixes_work() {
    let registry = load_all_commands();
    assert_eq!(run(&registry, "!", &message("!ping")).invoked(), Some(0));
    assert_eq!(run(&registry, "", &message("help")).invoked(), Some(1));
    assert!(matches!(run(&registry, "!", &message("?ping")), DispatchOutcome::Ignored));
}

#[test]
fn command_sees_message_and_arguments() {
    let ctx = InvocationContext {
        message: message("dickping a b"),
        args: vec!["a".to_string(), "b".to_string()],
    };
    assert_eq!(PingCommand.execute(&ctx).ok(), Some("Pong!".to_string()));
    assert_eq!(
        HelpCommand::new().execute(&ctx).ok(),
        Some("This is the help command.".to_string())
    );
    assert_eq!(PingCommand.name(), "ping");
    assert_eq!(HelpCommand.name(), "help");
}

#[test]
fn create_gives_the_help_command() {
    assert!(matches!(create(), Some(BuiltinCommand::Help(HelpCommand))));
    assert!(matches!(create_ping(), BuiltinCommand::Ping(PingCommand)));
}

#[test]
fn ready_builds_registry_once() {
    let mut slot: Option<CommandRegistry<BuiltinCommand>> = None;
    ready::run(&mut slot);
    let first = names(slot.as_ref().unwrap());
    assert_eq!(first, vec!["ping".to_string(), "help".to_string()]);
    ready::run(&mut slot);
    assert_eq!(names(slot.as_ref().unwrap()), first);
}

#[test]
fn split_white_space_gives_tokens() {
    assert_eq!(split_white_space("  a\tbc \n d "), vec!["a", "bc", "d"]);
    assert_eq!(split_white_space("ping"), vec!["ping"]);
    assert!(split_white_space("").is_empty());
    assert!(split_white_space(" \t ").is_empty());
    assert_eq!(split_white_space("x\u{3000}y\u{a0}z"), vec!["x", "y", "z"]);
    assert_eq!(split_white_space("é ü"), vec!["é", "ü"]);
}

#[test]
fn white_space_matches_std() {
    for u in 0u32..0x3100 {
        if let Some(c) = char::from_u32(u) {
            assert_eq!(is_white_space_char(c), c.is_whitespace(), "{}", u);
        }
    }
}

#[test]
fn text_comparisons() {
    assert!(starts_with("dickping", "dick"));
    assert!(starts_with("dick", "dick"));
    assert!(starts_with("abc", ""));
    assert!(!starts_with("dic", "dick"));
    assert!(!starts_with("Dickping", "dick"));
    assert!(same_text("ping", "ping"));
    assert!(!same_text("ping", "pong"));
    assert!(!same_text("ping", "pin"));
}
