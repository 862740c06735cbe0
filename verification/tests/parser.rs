use devin::session::parser::{parse, ParsedInput};
use devin::session::table::{
    command_for, command_table, lookup_command, Command, CMD_CONNECT, CMD_HELP, CMD_QUIT,
    CMD_SESSIONS,
};

fn command(command: Command, args: &[&str]) -> ParsedInput {
    ParsedInput::SlashCommand { command, args: args.iter().map(|arg| arg.to_string()).collect() }
}

fn chat(text: &str) -> ParsedInput {
    ParsedInput::ChatMessage { text: text.to_string() }
}

#[test]
fn blank_lines_are_empty() {
    assert_eq!(parse(""), ParsedInput::Empty);
    assert_eq!(parse("   "), ParsedInput::Empty);
    assert_eq!(parse(" \t\r\n"), ParsedInput::Empty);
    assert_eq!(parse("\u{3000}\u{a0}\u{2003}"), ParsedInput::Empty);
}

#[test]
fn registered_commands_keep_their_arguments_in_order() {
    assert_eq!(parse("/quit"), command(Command::Quit, &[]));
    assert_eq!(parse("/help"), command(Command::Help, &[]));
    assert_eq!(parse("/sessions"), command(Command::Sessions, &[]));
    assert_eq!(parse("/connect S2"), command(Command::Connect, &["S2"]));
    assert_eq!(parse("/connect  b \t a   c  "), command(Command::Connect, &["b", "a", "c"]));
    assert_eq!(parse("/quit now please"), command(Command::Quit, &["now", "please"]));
    assert_eq!(parse("/connect"), command(Command::Connect, &[]));
}

#[test]
fn a_slash_after_leading_white_space_is_a_command() {
    assert_eq!(parse("  /quit"), command(Command::Quit, &[]));
    assert_eq!(parse("\t/connect S1\n"), command(Command::Connect, &["S1"]));
}

#[test]
fn names_that_are_not_registered_are_unknown() {
    assert_eq!(parse("/frobnicate"), command(Command::Unknown, &[]));
    assert_eq!(parse("/frobnicate a b"), command(Command::Unknown, &["a", "b"]));
    assert_eq!(parse("/"), command(Command::Unknown, &[]));
    assert_eq!(parse("/ quit"), command(Command::Unknown, &["quit"]));
    assert_eq!(parse("/connectS1"), command(Command::Unknown, &[]));
    assert_eq!(parse("/quit/"), command(Command::Unknown, &[]));
}

#[test]
fn command_names_are_case_sensitive() {
    assert_eq!(parse("/Quit"), command(Command::Unknown, &[]));
    assert_eq!(parse("/HELP"), command(Command::Unknown, &[]));
    assert_eq!(parse("/Connect S1"), command(Command::Unknown, &["S1"]));
}

#[test]
fn other_lines_are_chat_text_without_the_white_space_around() {
    assert_eq!(parse("hello"), chat("hello"));
    assert_eq!(parse("  hello world  "), chat("hello world"));
    assert_eq!(parse("\thello   world\n"), chat("hello   world"));
    assert_eq!(parse("quit"), chat("quit"));
    assert_eq!(parse("what is 1/2?"), chat("what is 1/2?"));
    assert_eq!(parse("\u{3000}h\u{e9}llo \u{1f600}\u{a0}"), chat("h\u{e9}llo \u{1f600}"));
}

#[test]
fn every_line_is_one_of_the_three() {
    let samples = ["", " ", "/", "/x", "x", " /x y ", " x y ", "\u{85}", "//", "-"];
    for line in samples {
        let trimmed = line.trim();
        match parse(line) {
            ParsedInput::Empty => assert!(trimmed.is_empty()),
            ParsedInput::SlashCommand { args, .. } => {
                assert!(trimmed.starts_with('/'));
                let expected: Vec<&str> = line.split_whitespace().skip(1).collect();
                assert_eq!(args, expected);
            }
            ParsedInput::ChatMessage { text } => {
                assert!(!trimmed.is_empty() && !trimmed.starts_with('/'));
                assert_eq!(text, trimmed);
            }
        }
    }
}

#[test]
fn the_command_table_holds_the_four_commands() {
    let table = command_table();
    let rows: Vec<(&str, usize, Command)> =
        table.iter().map(|entry| (entry.name, entry.arity, entry.command)).collect();
    assert_eq!(
        rows,
        vec![
            ("/quit", 0, Command::Quit),
            ("/help", 0, Command::Help),
            ("/sessions", 0, Command::Sessions),
            ("/connect", 1, Command::Connect),
        ]
    );
    assert_eq!(CMD_QUIT, "/quit");
    assert_eq!(CMD_HELP, "/help");
    assert_eq!(CMD_SESSIONS, "/sessions");
    assert_eq!(CMD_CONNECT, "/connect");
}

#[test]
fn lookup_finds_registered_names_only() {
    let found = lookup_command("/connect").unwrap();
    assert_eq!((found.name, found.arity, found.command), ("/connect", 1, Command::Connect));
    assert!(lookup_command("/quit").is_some());
    assert!(lookup_command("quit").is_none());
    assert!(lookup_command("/QUIT").is_none());
    assert!(lookup_command("").is_none());
    assert_eq!(command_for("/sessions"), Command::Sessions);
    assert_eq!(command_for("/session"), Command::Unknown);
}
