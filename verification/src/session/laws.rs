//! What holds of the session controller on every input.

use crate::api::client::ApiError;
use crate::api::models::{MessageResponse, SessionDetails};
use crate::output::{failure_count, failure_line, is_failure_line};
use crate::session::controller::{
    after_completed, after_input, calling, leaving, prompting, started, Completed,
    GatewayCallView, NextView,
};
use crate::session::driver::{after, after_read, Event, ReadOutcome};
use crate::session::messages::{
    created_line, end_of_input_line, goodbye_line, help_lines, interrupted_line,
    read_failed_line, unknown_command_line, usage_line, FIRST_REPLY_FAILED,
};
use crate::session::parser::{lemma_arguments_solid, parsed, ParsedInputView};
use crate::session::state::SessionView;
use crate::session::table::{command_named, find, Command};
use crate::text::{is_solid, lemma_one_word, lemma_word_then, tokens, trim};
use vstd::prelude::*;

verus! {

/// Whether a call ended in failure.
pub open spec fn has_failed(completed: Completed) -> bool {
    match completed {
        Completed::Listed(outcome) => outcome is Err,
        Completed::Connected { outcome, .. } => outcome is Err,
        Completed::Resumed { outcome, .. } => outcome is Err,
        Completed::Created(outcome) => outcome is Err,
        Completed::FirstReply(outcome) => outcome is Err,
        Completed::Sent(outcome) => outcome is Err,
    }
}

/// The controller holds no session or one session with a name: a state
/// that is well formed stays so, whatever happens.
pub proof fn law_state_stays_well_formed(state: SessionView, event: Event)
    requires
        state.wf(),
    ensures
        after(state, event).state.wf(),
        started(None).state.wf(),
{
}

/// Whether a call gave a session: one was created or reached.
pub open spec fn gave_session(completed: Completed) -> bool {
    match completed {
        Completed::Connected { outcome, .. } => outcome is Ok,
        Completed::Resumed { outcome, .. } => outcome is Ok,
        Completed::Created(outcome) => outcome is Ok,
        _ => false,
    }
}

/// The session changes only when a call gave a session: nothing that is
/// read and no other outcome of a call changes it.
pub proof fn law_only_a_given_session_changes_state(state: SessionView, event: Event)
    requires
        after(state, event).state != state,
    ensures
        event matches Event::Completed(completed) && gave_session(completed),
{
    if let Event::Read(outcome) = event {
        law_read_keeps_state(state, outcome);
    }
}

/// No line of input changes the session by itself, and none but `/quit`
/// ends the loop.
pub proof fn law_input_keeps_state(state: SessionView, input: ParsedInputView)
    ensures
        after_input(state, input).state == state,
        after_input(state, input).next is Exit <==> input == (ParsedInputView::SlashCommand {
            command: Command::Quit,
            args: Seq::empty(),
        }),
        !(after_input(state, input).next is Abort),
{
    if let ParsedInputView::SlashCommand { command, args } = input {
        if command == Command::Quit && args.len() == 0 {
            assert(args =~= Seq::empty());
        }
    }
}

/// Reading changes nothing by itself: whatever was read, the session is
/// the one it was.
pub proof fn law_read_keeps_state(state: SessionView, outcome: ReadOutcome)
    ensures
        after_read(state, outcome).state == state,
{
}

/// A call that failed leaves the session as it was, shows one line, which
/// reports the failure, and asks for no further call.
pub proof fn law_failure_keeps_state(state: SessionView, completed: Completed)
    requires
        has_failed(completed),
    ensures
        after_completed(state, completed).state == state,
        after_completed(state, completed).lines.len() == 1,
        is_failure_line(after_completed(state, completed).lines[0]),
        !(after_completed(state, completed).next is Call),
{
}

/// `/connect X` asks for the details of `X`, whatever the state. When they
/// come, the session is `X`; when they do not, it is the one it was.
pub proof fn law_connect(
    state: SessionView,
    line: Seq<char>,
    session_id: String,
    outcome: Result<SessionDetails, ApiError>,
)
    requires
        parsed(line) == (ParsedInputView::SlashCommand {
            command: Command::Connect,
            args: seq![session_id@],
        }),
    ensures
        after_input(state, parsed(line)) == calling(
            state,
            GatewayCallView::Connect { session_id: session_id@ },
        ),
        outcome is Ok ==> after_completed(state, Completed::Connected { session_id, outcome }).state
            == SessionView::InSession(session_id@),
        outcome is Err ==> after_completed(
            state,
            Completed::Connected { session_id, outcome },
        ).state == state,
{
    lemma_arguments_solid(line);
}

/// Chat text without a session creates one. When the session is created
/// and the fetch of its first reply then fails, the session stays: the
/// state is the new session, and of the lines shown since the text was
/// entered exactly one reports a failure.
pub proof fn law_created_session_stays(
    line: Seq<char>,
    session_id: String,
    error: ApiError,
)
    requires
        parsed(line) is ChatMessage,
        session_id@.len() > 0,
    ensures
        ({
            let entered = after_input(SessionView::NoSession, parsed(line));
            let created = after_completed(entered.state, Completed::Created(Ok(session_id)));
            let fetched = after_completed(created.state, Completed::FirstReply(Err(error)));
            &&& entered == calling(
                SessionView::NoSession,
                GatewayCallView::CreateSession { prompt: trim(line) },
            )
            &&& created.state == SessionView::InSession(session_id@)
            &&& created.next == NextView::Call(
                GatewayCallView::FetchFirstReply {
                    session_id: session_id@,
                    message: Seq::empty(),
                },
            )
            &&& fetched.state == SessionView::InSession(session_id@)
            &&& fetched.next is ReadLine
            &&& entered.lines + created.lines + fetched.lines == seq![
                created_line(session_id@),
                failure_line(FIRST_REPLY_FAILED@, error.text()),
            ]
            &&& failure_count(entered.lines + created.lines + fetched.lines) == 1
        }),
{
    let entered = after_input(SessionView::NoSession, parsed(line));
    let created = after_completed(entered.state, Completed::Created(Ok(session_id)));
    let fetched = after_completed(created.state, Completed::FirstReply(Err(error)));
    let shown = entered.lines + created.lines + fetched.lines;
    let one = seq![created_line(session_id@)];
    assert(shown.drop_last() =~= one);
    assert(failure_count(one.drop_last()) == 0);
    assert(failure_count(one) == 0);
}

/// `/sessions` never changes the session: not when it is entered, whatever
/// follows it on the line, and not when the list or a failure comes back.
pub proof fn law_sessions_keeps_state(
    state: SessionView,
    args: Seq<Seq<char>>,
    outcome: Result<Vec<SessionDetails>, ApiError>,
)
    ensures
        after_input(
            state,
            ParsedInputView::SlashCommand { command: Command::Sessions, args },
        ).state == state,
        after_completed(state, Completed::Listed(outcome)).state == state,
{
}

/// A command that is not registered is reported as unknown, in one line;
/// the session stays as it was and nothing is called.
pub proof fn law_unknown_command(state: SessionView, args: Seq<Seq<char>>)
    ensures
        after_input(
            state,
            ParsedInputView::SlashCommand { command: Command::Unknown, args },
        ) == prompting(state, seq![unknown_command_line()]),
{
}

/// `/connect` without an argument, or with more than one, shows how it is
/// used; the session stays as it was and nothing is called.
pub proof fn law_connect_usage(state: SessionView, args: Seq<Seq<char>>)
    requires
        args.len() != 1,
    ensures
        after_input(
            state,
            ParsedInputView::SlashCommand { command: Command::Connect, args },
        ) == prompting(state, seq![usage_line()]),
{
}

/// The ways out of the loop can be told apart: `/quit`, an interrupt, the
/// end of input and a failed read each leave with a line of their own.
pub proof fn law_farewells_differ(state: SessionView, detail: String)
    ensures
        after_read(state, ReadOutcome::Interrupted) == leaving(state, interrupted_line()),
        after_read(state, ReadOutcome::EndOfInput) == leaving(state, end_of_input_line()),
        after_read(state, ReadOutcome::Failed(detail)) == leaving(
            state,
            read_failed_line(detail@),
        ),
        goodbye_line() != interrupted_line(),
        goodbye_line() != end_of_input_line(),
        goodbye_line() != read_failed_line(detail@),
        interrupted_line() != end_of_input_line(),
        interrupted_line() != read_failed_line(detail@),
        end_of_input_line() != read_failed_line(detail@),
{
    reveal_strlit("Goodbye!");
    reveal_strlit("CTRL-C");
    reveal_strlit("CTRL-D");
    reveal_strlit("Error: ");
    let goodbye = goodbye_line()[0].text;
    let interrupted = interrupted_line()[0].text;
    let ended = end_of_input_line()[0].text;
    let failed = read_failed_line(detail@)[0].text;
    assert(interrupted[5] == 'C' && ended[5] == 'D');
    assert(failed[0] == 'E' && goodbye[0] == 'G' && interrupted[0] == 'C' && ended[0] == 'C');
}

/// `/quit` ends the loop from any state, with the farewell as the one line
/// shown and without a call.
pub proof fn law_quit(state: SessionView)
    ensures
        after_input(
            state,
            ParsedInputView::SlashCommand { command: Command::Quit, args: Seq::empty() },
        ) == leaving(state, goodbye_line()),
        leaving(state, goodbye_line()).next is Exit,
{
}

/// A message sent to a session leaves the session as it was, whether the
/// reply comes or not.
pub proof fn law_message_keeps_state(
    state: SessionView,
    outcome: Result<MessageResponse, ApiError>,
)
    ensures
        after_completed(state, Completed::Sent(outcome)).state == state,
        after_completed(state, Completed::FirstReply(outcome)).state == state,
{
}

/// The names of the registered commands are what they are typed as, and
/// each stands for its command.
pub proof fn lemma_registered_names()
    ensures
        command_named("/quit"@) == Command::Quit,
        command_named("/help"@) == Command::Help,
        command_named("/sessions"@) == Command::Sessions,
        command_named("/connect"@) == Command::Connect,
        "/quit"@.len() > 0 && is_solid("/quit"@) && "/quit"@.first() == '/',
        "/help"@.len() > 0 && is_solid("/help"@) && "/help"@.first() == '/',
        "/sessions"@.len() > 0 && is_solid("/sessions"@) && "/sessions"@.first() == '/',
        "/connect"@.len() > 0 && is_solid("/connect"@) && "/connect"@.first() == '/',
{
    reveal_strlit("/quit");
    reveal_strlit("/help");
    reveal_strlit("/sessions");
    reveal_strlit("/connect");
    reveal_with_fuel(find, 5);
    assert("/quit"@[1] == 'q' && "/help"@[1] == 'h');
}

/// A registered name alone on a line is that command without arguments.
pub proof fn lemma_bare_command(name: Seq<char>)
    requires
        name.len() > 0,
        is_solid(name),
        name.first() == '/',
    ensures
        parsed(name) == (ParsedInputView::SlashCommand {
            command: command_named(name),
            args: Seq::empty(),
        }),
{
    lemma_one_word(name);
    assert(tokens(name).drop_first() =~= Seq::<Seq<char>>::empty());
}

/// The line `/quit` ends the loop from any state, with the farewell as the
/// one line shown and without a call.
pub proof fn law_quit_line(state: SessionView)
    ensures
        after_input(state, parsed("/quit"@)) == leaving(state, goodbye_line()),
{
    lemma_registered_names();
    lemma_bare_command("/quit"@);
}

/// The line `/sessions` asks for the list of sessions, whatever the state,
/// and the state stays as it was whether the list or a failure comes back.
pub proof fn law_sessions_line(state: SessionView, outcome: Result<Vec<SessionDetails>, ApiError>)
    ensures
        after_input(state, parsed("/sessions"@)) == calling(
            state,
            GatewayCallView::ListSessions { limit: None },
        ),
        after_completed(state, Completed::Listed(outcome)).state == state,
{
    lemma_registered_names();
    lemma_bare_command("/sessions"@);
}

/// The line `/help` shows the help text, whatever the state; the session
/// stays as it was and nothing is called.
pub proof fn law_help_line(state: SessionView)
    ensures
        after_input(state, parsed("/help"@)) == prompting(state, help_lines()),
{
    lemma_registered_names();
    lemma_bare_command("/help"@);
}

/// The line `/connect X`, for a session identifier `X` that holds no white
/// space, asks for the details of `X`, whatever the state.
pub proof fn law_connect_line(state: SessionView, session_id: Seq<char>)
    requires
        session_id.len() > 0,
        is_solid(session_id),
    ensures
        parsed("/connect "@ + session_id) == (ParsedInputView::SlashCommand {
            command: Command::Connect,
            args: seq![session_id],
        }),
        after_input(state, parsed("/connect "@ + session_id)) == calling(
            state,
            GatewayCallView::Connect { session_id },
        ),
{
    lemma_registered_names();
    reveal_strlit("/connect");
    reveal_strlit("/connect ");
    let name = "/connect"@;
    let line = "/connect "@ + session_id;
    assert(line =~= name + seq![' '] + session_id);
    lemma_word_then(name, ' ', session_id);
    lemma_one_word(session_id);
    assert(tokens(line).drop_first() =~= seq![session_id]);
}

/// A line that holds one word which begins with a slash and is no
/// registered name is reported as an unknown command; the session stays as
/// it was and nothing is called.
pub proof fn law_unknown_line(state: SessionView, name: Seq<char>)
    requires
        name.len() > 0,
        is_solid(name),
        name.first() == '/',
        command_named(name) == Command::Unknown,
    ensures
        after_input(state, parsed(name)) == prompting(state, seq![unknown_command_line()]),
{
    lemma_bare_command(name);
}

} // verus!
