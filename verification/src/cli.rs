//! The command line: which command of the client is asked for.

use crate::text::{equal, join};
use vstd::prelude::*;

verus! {

/// A command of the client.
#[derive(Debug, PartialEq, Eq)]
pub enum Commands {
    /// Configure the API token.
    Configure { token: String },
    /// Show the configured API token.
    Show,
    /// Check if the client is set up correctly.
    Doctor,
    /// Start an interactive session, resuming the session named if one is.
    Session { session_id: Option<String> },
}

/// The mathematical value of a `Commands`.
pub enum CommandsView {
    Configure { token: Seq<char> },
    Show,
    Doctor,
    Session { session_id: Option<Seq<char>> },
}

impl View for Commands {
    type V = CommandsView;

    open spec fn view(&self) -> CommandsView {
        match self {
            Commands::Configure { token } => CommandsView::Configure { token: token@ },
            Commands::Show => CommandsView::Show,
            Commands::Doctor => CommandsView::Doctor,
            Commands::Session { session_id } => CommandsView::Session {
                session_id: match session_id {
                    Some(id) => Some(id@),
                    None => None,
                },
            },
        }
    }
}

/// The command line, parsed: the command, if one was given.
#[derive(Debug, PartialEq, Eq)]
pub struct Cli {
    pub command: Option<Commands>,
}

impl View for Cli {
    type V = Option<CommandsView>;

    open spec fn view(&self) -> Option<CommandsView> {
        match self.command {
            Some(command) => Some(command@),
            None => None,
        }
    }
}

/// Why a command line was not understood.
#[derive(Debug, PartialEq, Eq)]
pub enum CliError {
    /// The first argument names no command.
    UnknownCommand(String),
    /// What is named was required and not given.
    MissingArgument(String),
    /// The argument was not expected where it stands.
    UnexpectedArgument(String),
}

/// The mathematical value of a `CliError`.
pub enum CliErrorView {
    UnknownCommand(Seq<char>),
    MissingArgument(Seq<char>),
    UnexpectedArgument(Seq<char>),
}

impl View for CliError {
    type V = CliErrorView;

    open spec fn view(&self) -> CliErrorView {
        match self {
            CliError::UnknownCommand(name) => CliErrorView::UnknownCommand(name@),
            CliError::MissingArgument(name) => CliErrorView::MissingArgument(name@),
            CliError::UnexpectedArgument(argument) => CliErrorView::UnexpectedArgument(argument@),
        }
    }
}

/// The arguments as texts.
pub open spec fn texts(args: Seq<&str>) -> Seq<Seq<char>> {
    Seq::new(args.len(), |i: int| args[i]@)
}

/// Whether an argument can stand for a value: it does not begin with a
/// hyphen.
pub open spec fn is_value(argument: Seq<char>) -> bool {
    argument.len() == 0 || argument.first() != '-'
}

/// The command that arguments ask for; the first argument is the name that
/// the program was called by.
///
/// - nothing more: no command;
/// - `configure <token>`;
/// - `show`, `doctor`;
/// - `session`, alone or followed by `-s <id>` or `--session-id <id>`.
///
/// Whatever else is given is an error: of the first argument, if it names
/// no command; else of the first argument that is missing or not expected.
pub open spec fn command_line(args: Seq<Seq<char>>) -> Result<Option<CommandsView>, CliErrorView> {
    if args.len() <= 1 {
        Ok(None)
    } else {
        let name = args[1];
        let rest = args.skip(2);
        if name == "configure"@ {
            if rest.len() == 0 {
                Err(CliErrorView::MissingArgument("<TOKEN>"@))
            } else if !is_value(rest[0]) {
                Err(CliErrorView::UnexpectedArgument(rest[0]))
            } else if rest.len() > 1 {
                Err(CliErrorView::UnexpectedArgument(rest[1]))
            } else {
                Ok(Some(CommandsView::Configure { token: rest[0] }))
            }
        } else if name == "show"@ || name == "doctor"@ {
            if rest.len() > 0 {
                Err(CliErrorView::UnexpectedArgument(rest[0]))
            } else if name == "show"@ {
                Ok(Some(CommandsView::Show))
            } else {
                Ok(Some(CommandsView::Doctor))
            }
        } else if name == "session"@ {
            if rest.len() == 0 {
                Ok(Some(CommandsView::Session { session_id: None }))
            } else if rest[0] == "-s"@ || rest[0] == "--session-id"@ {
                if rest.len() == 1 || !is_value(rest[1]) {
                    Err(CliErrorView::MissingArgument("--session-id <SESSION_ID>"@))
                } else if rest.len() > 2 {
                    Err(CliErrorView::UnexpectedArgument(rest[2]))
                } else {
                    Ok(Some(CommandsView::Session { session_id: Some(rest[1]) }))
                }
            } else {
                Err(CliErrorView::UnexpectedArgument(rest[0]))
            }
        } else {
            Err(CliErrorView::UnknownCommand(name))
        }
    }
}

/// The command that runs for a command line: the one given, or an
/// interactive session without a session to resume.
pub open spec fn selected_command(cli: Option<CommandsView>) -> CommandsView {
    match cli {
        Some(command) => command,
        None => CommandsView::Session { session_id: None },
    }
}

/// Decides `is_value`.
fn can_be_value(argument: &str) -> (can: bool)
    ensures
        can == is_value(argument@),
{
    argument.is_empty() || argument.get_char(0) != '-'
}

/// The error for an argument that was not expected.
fn unexpected(argument: &str) -> (error: CliError)
    ensures
        error@ == CliErrorView::UnexpectedArgument(argument@),
{
    CliError::UnexpectedArgument(String::from_str(argument))
}

/// The error for something required that was not given.
fn missing(name: &str) -> (error: CliError)
    ensures
        error@ == CliErrorView::MissingArgument(name@),
{
    CliError::MissingArgument(String::from_str(name))
}

impl Cli {
    /// Parses the arguments that the program was called with, its name
    /// first.
    pub fn try_parse_from(args: &[&str]) -> (parsed: Result<Cli, CliError>)
        ensures
            match parsed {
                Ok(cli) => command_line(texts(args@)) == Ok::<_, CliErrorView>(cli@),
                Err(error) => command_line(texts(args@)) == Err::<Option<CommandsView>, _>(error@),
            },
    {
        if args.len() <= 1 {
            return Ok(Cli { command: None });
        }
        let name = args[1];
        let given = args.len() - 2;
        if equal(name, "configure") {
            if given == 0 {
                Err(missing("<TOKEN>"))
            } else if !can_be_value(args[2]) {
                Err(unexpected(args[2]))
            } else if given > 1 {
                Err(unexpected(args[3]))
            } else {
                Ok(Cli { command: Some(Commands::Configure { token: String::from_str(args[2]) }) })
            }
        } else if equal(name, "show") {
            if given > 0 {
                Err(unexpected(args[2]))
            } else {
                Ok(Cli { command: Some(Commands::Show) })
            }
        } else if equal(name, "doctor") {
            if given > 0 {
                Err(unexpected(args[2]))
            } else {
                Ok(Cli { command: Some(Commands::Doctor) })
            }
        } else if equal(name, "session") {
            if given == 0 {
                Ok(Cli { command: Some(Commands::Session { session_id: None }) })
            } else if equal(args[2], "-s") || equal(args[2], "--session-id") {
                if given == 1 || !can_be_value(args[3]) {
                    Err(missing("--session-id <SESSION_ID>"))
                } else if given > 2 {
                    Err(unexpected(args[4]))
                } else {
                    Ok(
                        Cli {
                            command: Some(
                                Commands::Session { session_id: Some(String::from_str(args[3])) },
                            ),
                        },
                    )
                }
            } else {
                Err(unexpected(args[2]))
            }
        } else {
            Err(CliError::UnknownCommand(String::from_str(name)))
        }
    }

    /// The command that runs: the one given, or an interactive session
    /// without a session to resume.
    pub fn selected(self) -> (command: Commands)
        ensures
            command@ == selected_command(self@),
    {
        match self.command {
            Some(command) => command,
            None => Commands::Session { session_id: None },
        }
    }
}

impl CliError {
    /// The text that describes this error to the user.
    pub open spec fn text(self) -> Seq<char> {
        match self {
            CliError::UnknownCommand(name) => "unrecognized subcommand '"@ + name@ + "'"@,
            CliError::MissingArgument(name) => "a value is required for '"@ + name@
                + "' but none was supplied"@,
            CliError::UnexpectedArgument(argument) => "unexpected argument '"@ + argument@
                + "' found"@,
        }
    }

    /// The text that describes this error to the user.
    pub fn message(&self) -> (message: String)
        ensures
            message@ == self.text(),
    {
        match self {
            CliError::UnknownCommand(name) => join(
                "unrecognized subcommand '",
                name.as_str(),
            ).concat("'"),
            CliError::MissingArgument(name) => join(
                "a value is required for '",
                name.as_str(),
            ).concat("' but none was supplied"),
            CliError::UnexpectedArgument(argument) => join(
                "unexpected argument '",
                argument.as_str(),
            ).concat("' found"),
        }
    }
}

} // verus!
