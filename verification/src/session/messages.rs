//! The lines that the session shows.

use crate::api::models::SessionDetails;
use crate::output::{accent, plain, push_line, success, Line, SpanView, Style};
use crate::session::state::{SessionState, SessionView};
use crate::session::table::{CMD_CONNECT, CMD_HELP, CMD_QUIT, CMD_SESSIONS};
use crate::text::join;
use vstd::prelude::*;

verus! {

/// Opens the line shown when a session could not be connected to.
pub const CONNECT_FAILED: &'static str = "✗ Failed to connect to session:";

/// Opens the line shown when the sessions could not be listed.
pub const LIST_FAILED: &'static str = "✗ Failed to list sessions:";

/// Opens the line shown when no session could be created.
pub const CREATE_FAILED: &'static str = "✗ Failed to create session:";

/// Opens the line shown when the first reply of a new session did not come.
pub const FIRST_REPLY_FAILED: &'static str = "✗ Failed to get response:";

/// Opens the line shown when a message could not be sent.
pub const SEND_FAILED: &'static str = "✗ Failed to send message:";

/// What is shown when the session starts.
pub open spec fn welcome_lines() -> Seq<Seq<SpanView>> {
    seq![
        seq![plain("Welcome to Devin CLI"@)],
        seq![
            plain("Type "@),
            accent(CMD_QUIT@),
            plain(" to exit, "@),
            accent(CMD_HELP@),
            plain(" for help"@),
        ],
    ]
}

/// The farewell on `/quit`.
pub open spec fn goodbye_line() -> Seq<SpanView> {
    seq![plain("Goodbye!"@)]
}

/// The farewell on an interrupt from the terminal.
pub open spec fn interrupted_line() -> Seq<SpanView> {
    seq![plain("CTRL-C"@)]
}

/// The farewell at the end of input.
pub open spec fn end_of_input_line() -> Seq<SpanView> {
    seq![plain("CTRL-D"@)]
}

/// What is shown when a line could not be read.
pub open spec fn read_failed_line(detail: Seq<char>) -> Seq<SpanView> {
    seq![plain("Error: "@ + detail)]
}

/// The help text.
pub open spec fn help_lines() -> Seq<Seq<SpanView>> {
    seq![
        seq![plain("Available commands:"@)],
        seq![plain("  "@), accent(CMD_QUIT@), plain(" - Exit the session"@)],
        seq![plain("  "@), accent(CMD_HELP@), plain(" - Show this help message"@)],
        seq![plain("  "@), accent(CMD_SESSIONS@), plain(" - List all sessions"@)],
        seq![
            plain("  "@),
            accent(CMD_CONNECT@),
            plain(" <session_id> - Connect to an existing session"@),
        ],
        seq![plain("Any other input will be sent as a message to Devin."@)],
    ]
}

/// How `/connect` is used.
pub open spec fn usage_line() -> Seq<SpanView> {
    seq![plain("Usage: "@), accent(CMD_CONNECT@), plain(" <session_id>"@)]
}

/// What is shown for a command that is not registered.
pub open spec fn unknown_command_line() -> Seq<SpanView> {
    seq![plain("Unknown command. Type "@), accent(CMD_HELP@), plain(" for help."@)]
}

/// Confirms that `/connect` reached the session.
pub open spec fn connected_line(session_id: Seq<char>) -> Seq<SpanView> {
    seq![success("✓ Connected to session"@), plain(" "@ + session_id)]
}

/// Announces the session that is resumed at startup.
pub open spec fn connecting_line(session_id: Seq<char>) -> Seq<SpanView> {
    seq![plain("Connecting to existing session "@ + session_id + "..."@)]
}

/// Confirms that the session to resume was reached.
pub open spec fn resumed_line() -> Seq<SpanView> {
    seq![success("✓ Connected to session"@)]
}

/// Confirms that a session was created.
pub open spec fn created_line(session_id: Seq<char>) -> Seq<SpanView> {
    seq![success("✓ Created new session:"@), plain(" "@ + session_id)]
}

/// The agent's reply, as it came.
pub open spec fn reply_line(message: Seq<char>) -> Seq<SpanView> {
    seq![plain(message)]
}

/// One session of the list.
pub open spec fn session_line(session: SessionDetails) -> Seq<SpanView> {
    seq![plain("  "@ + session.session_id@ + " (created: "@ + session.created_at@ + ")"@)]
}

/// The list of sessions: a heading and one line for each, in their order,
/// or one line that says that there are none.
pub open spec fn sessions_lines(sessions: Seq<SessionDetails>) -> Seq<Seq<SpanView>> {
    if sessions.len() == 0 {
        seq![seq![plain("No sessions found."@)]]
    } else {
        seq![seq![plain("Available sessions:"@)]] + Seq::new(
            sessions.len(),
            |i: int| session_line(sessions[i]),
        )
    }
}

/// The prompt: bare without a session, else with the session's identifier.
pub open spec fn prompt_text(state: SessionView) -> Seq<char> {
    match state {
        SessionView::NoSession => "> "@,
        SessionView::InSession(id) => "["@ + id + "] > "@,
    }
}

/// What is shown when the session starts.
pub fn welcome() -> (lines: Vec<Line>)
    ensures
        lines.deep_view() == welcome_lines(),
{
    let mut lines: Vec<Line> = Vec::new();
    push_line(&mut lines, Line::plain("Welcome to Devin CLI"));
    push_line(
        &mut lines,
        Line::plain("Type ").with(Style::Accent, CMD_QUIT).with(Style::Plain, " to exit, ").with(
            Style::Accent,
            CMD_HELP,
        ).with(Style::Plain, " for help"),
    );
    assert(lines.deep_view() =~~= welcome_lines());
    lines
}

/// The farewell on `/quit`.
pub fn goodbye() -> (line: Line)
    ensures
        line@ == goodbye_line(),
{
    Line::plain("Goodbye!")
}

/// The farewell on an interrupt from the terminal.
pub fn interrupted() -> (line: Line)
    ensures
        line@ == interrupted_line(),
{
    Line::plain("CTRL-C")
}

/// The farewell at the end of input.
pub fn end_of_input() -> (line: Line)
    ensures
        line@ == end_of_input_line(),
{
    Line::plain("CTRL-D")
}

/// What is shown when a line could not be read.
pub fn read_failed(detail: &str) -> (line: Line)
    ensures
        line@ == read_failed_line(detail@),
{
    Line::plain(join("Error: ", detail).as_str())
}

/// The help text.
pub fn help() -> (lines: Vec<Line>)
    ensures
        lines.deep_view() == help_lines(),
{
    let mut lines: Vec<Line> = Vec::new();
    push_line(&mut lines, Line::plain("Available commands:"));
    push_line(
        &mut lines,
        Line::plain("  ").with(Style::Accent, CMD_QUIT).with(Style::Plain, " - Exit the session"),
    );
    push_line(
        &mut lines,
        Line::plain("  ").with(Style::Accent, CMD_HELP).with(
            Style::Plain,
            " - Show this help message",
        ),
    );
    push_line(
        &mut lines,
        Line::plain("  ").with(Style::Accent, CMD_SESSIONS).with(
            Style::Plain,
            " - List all sessions",
        ),
    );
    push_line(
        &mut lines,
        Line::plain("  ").with(Style::Accent, CMD_CONNECT).with(
            Style::Plain,
            " <session_id> - Connect to an existing session",
        ),
    );
    push_line(&mut lines, Line::plain("Any other input will be sent as a message to Devin."));
    assert(lines.deep_view() =~~= help_lines());
    lines
}

/// How `/connect` is used.
pub fn usage() -> (line: Line)
    ensures
        line@ == usage_line(),
{
    Line::plain("Usage: ").with(Style::Accent, CMD_CONNECT).with(Style::Plain, " <session_id>")
}

/// What is shown for a command that is not registered.
pub fn unknown_command() -> (line: Line)
    ensures
        line@ == unknown_command_line(),
{
    Line::plain("Unknown command. Type ").with(Style::Accent, CMD_HELP).with(
        Style::Plain,
        " for help.",
    )
}

/// Confirms that `/connect` reached the session.
pub fn connected(session_id: &str) -> (line: Line)
    ensures
        line@ == connected_line(session_id@),
{
    Line::new().with(Style::Success, "✓ Connected to session").with(
        Style::Plain,
        join(" ", session_id).as_str(),
    )
}

/// Announces the session that is resumed at startup.
pub fn connecting(session_id: &str) -> (line: Line)
    ensures
        line@ == connecting_line(session_id@),
{
    Line::plain(join("Connecting to existing session ", session_id).concat("...").as_str())
}

/// Confirms that the session to resume was reached.
pub fn resumed() -> (line: Line)
    ensures
        line@ == resumed_line(),
{
    Line::new().with(Style::Success, "✓ Connected to session")
}

/// Confirms that a session was created.
pub fn created(session_id: &str) -> (line: Line)
    ensures
        line@ == created_line(session_id@),
{
    Line::new().with(Style::Success, "✓ Created new session:").with(
        Style::Plain,
        join(" ", session_id).as_str(),
    )
}

/// The agent's reply, as it came.
pub fn reply(message: &str) -> (line: Line)
    ensures
        line@ == reply_line(message@),
{
    Line::plain(message)
}

/// The list of sessions.
pub fn session_list(found: &Vec<SessionDetails>) -> (lines: Vec<Line>)
    ensures
        lines.deep_view() == sessions_lines(found@),
{
    let mut lines: Vec<Line> = Vec::new();
    if found.len() == 0 {
        push_line(&mut lines, Line::plain("No sessions found."));
        return lines;
    }
    push_line(&mut lines, Line::plain("Available sessions:"));
    let ghost heading = seq![seq![plain("Available sessions:"@)]];
    let mut i: usize = 0;
    while i < found.len()
        invariant
            i <= found.len(),
            heading == seq![seq![plain("Available sessions:"@)]],
            lines.deep_view() == heading + Seq::new(i as nat, |k: int| session_line(found@[k])),
        decreases found.len() - i,
    {
        let session = &found[i];
        let text = join("  ", session.session_id.as_str()).concat(" (created: ").concat(
            session.created_at.as_str(),
        ).concat(")");
        push_line(&mut lines, Line::plain(text.as_str()));
        i += 1;
    }
    lines
}

/// The prompt shown before a line is read.
pub fn prompt(state: &SessionState) -> (text: String)
    ensures
        text@ == prompt_text(state@),
{
    match state {
        SessionState::NoSession => String::from_str("> "),
        SessionState::InSession(id) => join("[", id.as_str()).concat("] > "),
    }
}

} // verus!
