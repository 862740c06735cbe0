//! The command table: the slash-commands that are registered, each with the
//! number of arguments it takes and what it stands for.

use crate::text::{same_text, to_chars};
use vstd::prelude::*;

verus! {

/// Leaves the session.
pub const CMD_QUIT: &'static str = "/quit";

/// Shows the commands.
pub const CMD_HELP: &'static str = "/help";

/// Lists the sessions.
pub const CMD_SESSIONS: &'static str = "/sessions";

/// Connects to a session.
pub const CMD_CONNECT: &'static str = "/connect";

/// What a slash-command stands for.
#[derive(Clone, Copy, Debug, PartialEq, Eq, Structural)]
pub enum Command {
    Quit,
    Help,
    Sessions,
    Connect,
    /// A name that is not registered.
    Unknown,
}

/// One row of the command table.
#[derive(Clone, Copy, Debug)]
pub struct CommandEntry {
    /// The name as it is typed, slash included.
    pub name: &'static str,
    /// How many arguments the command takes.
    pub arity: usize,
    /// What the command stands for.
    pub command: Command,
}

/// The registered commands.
pub open spec fn registered() -> Seq<CommandEntry> {
    seq![
        CommandEntry { name: CMD_QUIT, arity: 0, command: Command::Quit },
        CommandEntry { name: CMD_HELP, arity: 0, command: Command::Help },
        CommandEntry { name: CMD_SESSIONS, arity: 0, command: Command::Sessions },
        CommandEntry { name: CMD_CONNECT, arity: 1, command: Command::Connect },
    ]
}

/// The first row of `table` with the given name.
pub open spec fn find(table: Seq<CommandEntry>, name: Seq<char>) -> Option<CommandEntry>
    decreases table.len(),
{
    if table.len() == 0 {
        None
    } else if table.first().name@ == name {
        Some(table.first())
    } else {
        find(table.drop_first(), name)
    }
}

/// The registered command with the given name. Names are compared
/// character by character: case matters.
pub open spec fn lookup(name: Seq<char>) -> Option<CommandEntry> {
    find(registered(), name)
}

/// What `name` stands for: its registered command, or `Unknown`.
pub open spec fn command_named(name: Seq<char>) -> Command {
    match lookup(name) {
        Some(entry) => entry.command,
        None => Command::Unknown,
    }
}

/// How many arguments `command` takes. `Unknown` takes any.
pub open spec fn arity_of(command: Command) -> nat {
    match command {
        Command::Connect => 1,
        _ => 0,
    }
}

/// The command table.
pub fn command_table() -> (table: [CommandEntry; 4])
    ensures
        table@ == registered(),
{
    let table = [
        CommandEntry { name: CMD_QUIT, arity: 0, command: Command::Quit },
        CommandEntry { name: CMD_HELP, arity: 0, command: Command::Help },
        CommandEntry { name: CMD_SESSIONS, arity: 0, command: Command::Sessions },
        CommandEntry { name: CMD_CONNECT, arity: 1, command: Command::Connect },
    ];
    table
}

/// Looks `name` up in the command table.
pub fn lookup_command(name: &str) -> (found: Option<CommandEntry>)
    ensures
        found == lookup(name@),
{
    let table = command_table();
    let chars = to_chars(name);
    let mut i: usize = 0;
    assert(table@.skip(0) =~= table@);
    while i < table.len()
        invariant
            i <= table@.len(),
            table@ == registered(),
            chars@ == name@,
            lookup(name@) == find(table@.skip(i as int), name@),
        decreases table@.len() - i,
    {
        let entry = table[i];
        proof {
            let rest = table@.skip(i as int);
            assert(rest.drop_first() =~= table@.skip(i + 1));
        }
        if same_text(&chars, entry.name) {
            return Some(entry);
        }
        i += 1;
    }
    None
}

/// What `name` stands for.
pub fn command_for(name: &str) -> (command: Command)
    ensures
        command == command_named(name@),
{
    match lookup_command(name) {
        Some(entry) => entry.command,
        None => Command::Unknown,
    }
}

/// The table maps each name to one command: no two rows share a name.
/// Every row's arity is the arity of its command, and no row stands for
/// `Unknown`.
pub proof fn law_table_is_a_mapping()
    ensures
        forall|i: int|
            0 <= i < registered().len() ==> (#[trigger] registered()[i]).arity == arity_of(
                registered()[i].command,
            ),
        forall|i: int, j: int|
            0 <= i < j < registered().len() ==> (#[trigger] registered()[i]).name@ != (
            #[trigger] registered()[j]).name@,
        forall|i: int|
            0 <= i < registered().len() ==> (#[trigger] registered()[i]).command
                != Command::Unknown,
{
    reveal_strlit("/quit");
    reveal_strlit("/help");
    reveal_strlit("/sessions");
    reveal_strlit("/connect");
    let q = "/quit"@;
    let h = "/help"@;
    let s = "/sessions"@;
    let c = "/connect"@;
    assert(q.len() == 5 && h.len() == 5 && s.len() == 9 && c.len() == 8);
    assert(q[1] == 'q' && h[1] == 'h');
}

} // verus!
