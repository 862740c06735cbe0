//! The session controller: a state machine from the session state and what
//! happened to the next state, the lines to show and what to do next.
//!
//! The controller performs no call itself. It names the call to make; the
//! caller makes it and hands the outcome back.

use crate::api::client::ApiError;
use crate::api::models::{MessageResponse, SessionDetails};
use crate::output::{failed, failure_line, push_line, Line, SpanView};
use crate::session::messages::{
    connected, connected_line, connecting, connecting_line, created, created_line, goodbye,
    goodbye_line, help, help_lines, prompt, prompt_text, reply, reply_line, resumed,
    resumed_line, session_list, sessions_lines, unknown_command, unknown_command_line, usage,
    usage_line, welcome, welcome_lines, CONNECT_FAILED, CREATE_FAILED, FIRST_REPLY_FAILED,
    LIST_FAILED, SEND_FAILED,
};
use crate::session::parser::{ParsedInput, ParsedInputView};
use crate::session::state::{session_named, SessionState, SessionView};
use crate::session::table::{arity_of, Command};
use crate::text::join;
use vstd::prelude::*;

verus! {

/// A call to the remote service, with everything that is handed to it.
#[derive(Debug, PartialEq, Eq)]
pub enum GatewayCall {
    /// List the sessions, at most `limit` of them if a limit is given.
    ListSessions { limit: Option<u32> },
    /// Get a session's details, to connect to it.
    Connect { session_id: String },
    /// Get a session's details, to resume it at startup.
    Resume { session_id: String },
    /// Create a session with `prompt` as its first message.
    CreateSession { prompt: String },
    /// Send `message` to the session just created, to fetch its first reply.
    FetchFirstReply { session_id: String, message: String },
    /// Send `message` to the session.
    SendMessage { session_id: String, message: String },
}

/// The mathematical value of a `GatewayCall`.
pub enum GatewayCallView {
    ListSessions { limit: Option<u32> },
    Connect { session_id: Seq<char> },
    Resume { session_id: Seq<char> },
    CreateSession { prompt: Seq<char> },
    FetchFirstReply { session_id: Seq<char>, message: Seq<char> },
    SendMessage { session_id: Seq<char>, message: Seq<char> },
}

impl View for GatewayCall {
    type V = GatewayCallView;

    open spec fn view(&self) -> GatewayCallView {
        match self {
            GatewayCall::ListSessions { limit } => GatewayCallView::ListSessions { limit: *limit },
            GatewayCall::Connect { session_id } => GatewayCallView::Connect {
                session_id: session_id@,
            },
            GatewayCall::Resume { session_id } => GatewayCallView::Resume {
                session_id: session_id@,
            },
            GatewayCall::CreateSession { prompt } => GatewayCallView::CreateSession {
                prompt: prompt@,
            },
            GatewayCall::FetchFirstReply { session_id, message } => {
                GatewayCallView::FetchFirstReply { session_id: session_id@, message: message@ }
            },
            GatewayCall::SendMessage { session_id, message } => GatewayCallView::SendMessage {
                session_id: session_id@,
                message: message@,
            },
        }
    }
}

/// A call that was made, with its outcome.
#[derive(Debug, PartialEq, Eq)]
pub enum Completed {
    /// The outcome of `ListSessions`.
    Listed(Result<Vec<SessionDetails>, ApiError>),
    /// The outcome of `Connect` for the session named.
    Connected { session_id: String, outcome: Result<SessionDetails, ApiError> },
    /// The outcome of `Resume` for the session named.
    Resumed { session_id: String, outcome: Result<SessionDetails, ApiError> },
    /// The outcome of `CreateSession`: the new session's identifier.
    Created(Result<String, ApiError>),
    /// The outcome of `FetchFirstReply`.
    FirstReply(Result<MessageResponse, ApiError>),
    /// The outcome of `SendMessage`.
    Sent(Result<MessageResponse, ApiError>),
}

/// What the caller does after a step.
#[derive(Debug, PartialEq, Eq)]
pub enum Next {
    /// Show `prompt` and read a line.
    ReadLine { prompt: String },
    /// Make this call.
    Call(GatewayCall),
    /// Leave the loop; the session ends well.
    Exit,
    /// Give up before the loop is entered; the command fails for `reason`.
    Abort { reason: String },
}

/// The mathematical value of a `Next`.
pub enum NextView {
    ReadLine { prompt: Seq<char> },
    Call(GatewayCallView),
    Exit,
    Abort { reason: Seq<char> },
}

impl View for Next {
    type V = NextView;

    open spec fn view(&self) -> NextView {
        match self {
            Next::ReadLine { prompt } => NextView::ReadLine { prompt: prompt@ },
            Next::Call(call) => NextView::Call(call@),
            Next::Exit => NextView::Exit,
            Next::Abort { reason } => NextView::Abort { reason: reason@ },
        }
    }
}

/// One step of the controller: the state it leaves, the lines to show, in
/// their order, and what to do next.
#[derive(Debug, PartialEq, Eq)]
pub struct Step {
    pub state: SessionState,
    pub lines: Vec<Line>,
    pub next: Next,
}

/// The mathematical value of a `Step`.
pub struct StepView {
    pub state: SessionView,
    pub lines: Seq<Seq<SpanView>>,
    pub next: NextView,
}

impl View for Step {
    type V = StepView;

    open spec fn view(&self) -> StepView {
        StepView { state: self.state@, lines: self.lines.deep_view(), next: self.next@ }
    }
}

/// The step that shows `lines`, keeps `state` and prompts for a line.
pub open spec fn prompting(state: SessionView, lines: Seq<Seq<SpanView>>) -> StepView {
    StepView { state, lines, next: NextView::ReadLine { prompt: prompt_text(state) } }
}

/// The step that shows nothing, keeps `state` and asks for `call`.
pub open spec fn calling(state: SessionView, call: GatewayCallView) -> StepView {
    StepView { state, lines: Seq::empty(), next: NextView::Call(call) }
}

/// The step that shows `line`, keeps `state` and leaves the loop.
pub open spec fn leaving(state: SessionView, line: Seq<SpanView>) -> StepView {
    StepView { state, lines: seq![line], next: NextView::Exit }
}

/// The first step. Without a session to resume, the welcome is shown and a
/// line is read. With one, it is announced and its details are asked for.
pub open spec fn started(target: Option<Seq<char>>) -> StepView {
    match target {
        None => prompting(SessionView::NoSession, welcome_lines()),
        Some(session_id) => StepView {
            state: SessionView::NoSession,
            lines: seq![connecting_line(session_id)],
            next: NextView::Call(GatewayCallView::Resume { session_id }),
        },
    }
}

/// The step that a parsed line of input leads to.
///
/// A blank line does nothing. Chat text creates a session when there is
/// none, and is sent to the session when there is one. A command that is
/// not registered, or one that takes no argument and was given some, is
/// reported as unknown. `/connect` takes one argument; with any other
/// number its usage is shown. No line of input changes the state by itself.
pub open spec fn after_input(state: SessionView, input: ParsedInputView) -> StepView {
    match input {
        ParsedInputView::Empty => prompting(state, Seq::empty()),
        ParsedInputView::ChatMessage { text } => match state {
            SessionView::NoSession => calling(
                state,
                GatewayCallView::CreateSession { prompt: text },
            ),
            SessionView::InSession(id) => calling(
                state,
                GatewayCallView::SendMessage { session_id: id, message: text },
            ),
        },
        ParsedInputView::SlashCommand { command, args } => {
            if args.len() != arity_of(command) {
                if command == Command::Connect {
                    prompting(state, seq![usage_line()])
                } else {
                    prompting(state, seq![unknown_command_line()])
                }
            } else {
                match command {
                    Command::Quit => leaving(state, goodbye_line()),
                    Command::Help => prompting(state, help_lines()),
                    Command::Sessions => calling(
                        state,
                        GatewayCallView::ListSessions { limit: None },
                    ),
                    Command::Connect => calling(
                        state,
                        GatewayCallView::Connect { session_id: args[0] },
                    ),
                    Command::Unknown => prompting(state, seq![unknown_command_line()]),
                }
            }
        },
    }
}

/// The step that the outcome of a call leads to.
///
/// Only a session that was created or reached becomes the state; every
/// failure leaves the state as it was and is shown in one line. A session
/// that was created is followed by the fetch of its first reply, an empty
/// message, and stays the state whether or not that reply comes. A session
/// to resume that is not reached ends the command.
pub open spec fn after_completed(state: SessionView, completed: Completed) -> StepView {
    match completed {
        Completed::Listed(Ok(sessions)) => prompting(state, sessions_lines(sessions@)),
        Completed::Listed(Err(error)) => prompting(
            state,
            seq![failure_line(LIST_FAILED@, error.text())],
        ),
        Completed::Connected { session_id, outcome: Ok(_) } => prompting(
            session_named(session_id@),
            seq![connected_line(session_id@)],
        ),
        Completed::Connected { session_id, outcome: Err(error) } => prompting(
            state,
            seq![failure_line(CONNECT_FAILED@, error.text())],
        ),
        Completed::Resumed { session_id, outcome: Ok(_) } => prompting(
            session_named(session_id@),
            seq![resumed_line()] + welcome_lines(),
        ),
        Completed::Resumed { session_id, outcome: Err(error) } => StepView {
            state,
            lines: seq![failure_line(CONNECT_FAILED@, error.text())],
            next: NextView::Abort { reason: "Failed to connect to session: "@ + error.text() },
        },
        Completed::Created(Ok(session_id)) => StepView {
            state: session_named(session_id@),
            lines: seq![created_line(session_id@)],
            next: NextView::Call(
                GatewayCallView::FetchFirstReply {
                    session_id: session_id@,
                    message: Seq::empty(),
                },
            ),
        },
        Completed::Created(Err(error)) => prompting(
            state,
            seq![failure_line(CREATE_FAILED@, error.text())],
        ),
        Completed::FirstReply(Ok(response)) => prompting(
            state,
            seq![reply_line(response.message@)],
        ),
        Completed::FirstReply(Err(error)) => prompting(
            state,
            seq![failure_line(FIRST_REPLY_FAILED@, error.text())],
        ),
        Completed::Sent(Ok(response)) => prompting(state, seq![reply_line(response.message@)]),
        Completed::Sent(Err(error)) => prompting(
            state,
            seq![failure_line(SEND_FAILED@, error.text())],
        ),
    }
}

/// The step that shows `lines`, keeps `state` and prompts for a line.
fn prompt_again(state: SessionState, lines: Vec<Line>) -> (step: Step)
    ensures
        step@ == prompting(state@, lines.deep_view()),
{
    let prompt = prompt(&state);
    Step { state, lines, next: Next::ReadLine { prompt } }
}

/// The step that shows `line`, keeps `state` and prompts for a line.
fn show(state: SessionState, line: Line) -> (step: Step)
    ensures
        step@ == prompting(state@, seq![line@]),
{
    prompt_again(state, one_line(line))
}

/// The step that shows nothing, keeps `state` and asks for `call`.
fn ask(state: SessionState, call: GatewayCall) -> (step: Step)
    ensures
        step@ == calling(state@, call@),
{
    let lines: Vec<Line> = Vec::new();
    assert(lines.deep_view() =~= Seq::<Seq<SpanView>>::empty());
    Step { state, lines, next: Next::Call(call) }
}

/// The step that shows `line`, keeps `state` and leaves the loop.
pub(crate) fn leave(state: SessionState, line: Line) -> (step: Step)
    ensures
        step@ == leaving(state@, line@),
{
    Step { state, lines: one_line(line), next: Next::Exit }
}

/// The list that holds `line` alone.
fn one_line(line: Line) -> (lines: Vec<Line>)
    ensures
        lines.deep_view() == seq![line@],
{
    let mut lines: Vec<Line> = Vec::new();
    push_line(&mut lines, line);
    lines
}

/// Starts the session, resuming the session named `target` if one is given.
pub fn start(target: Option<String>) -> (step: Step)
    ensures
        step@ == started(
            match target {
                Some(session_id) => Some(session_id@),
                None => None,
            },
        ),
{
    match target {
        None => prompt_again(SessionState::NoSession, welcome()),
        Some(session_id) => {
            let lines = one_line(connecting(session_id.as_str()));
            Step {
                state: SessionState::NoSession,
                lines,
                next: Next::Call(GatewayCall::Resume { session_id }),
            }
        },
    }
}

/// Acts on a parsed line of input.
pub fn on_input(state: SessionState, input: ParsedInput) -> (step: Step)
    ensures
        step@ == after_input(state@, input@),
{
    match input {
        ParsedInput::Empty => {
            let lines: Vec<Line> = Vec::new();
            assert(lines.deep_view() =~= Seq::<Seq<SpanView>>::empty());
            prompt_again(state, lines)
        },
        ParsedInput::ChatMessage { text } => {
            let call = match &state {
                SessionState::NoSession => GatewayCall::CreateSession { prompt: text },
                SessionState::InSession(id) => GatewayCall::SendMessage {
                    session_id: id.clone(),
                    message: text,
                },
            };
            ask(state, call)
        },
        ParsedInput::SlashCommand { command, args } => {
            let mut args = args;
            match command {
                Command::Connect => {
                    if args.len() == 1 {
                        let ghost given = args.deep_view();
                        let session_id = args.remove(0);
                        assert(session_id@ == given[0]);
                        ask(state, GatewayCall::Connect { session_id })
                    } else {
                        show(state, usage())
                    }
                },
                Command::Unknown => show(state, unknown_command()),
                _ => {
                    if args.len() != 0 {
                        show(state, unknown_command())
                    } else {
                        match command {
                            Command::Quit => leave(state, goodbye()),
                            Command::Help => prompt_again(state, help()),
                            _ => ask(state, GatewayCall::ListSessions { limit: None }),
                        }
                    }
                },
            }
        },
    }
}

/// Acts on the outcome of a call.
pub fn on_completed(state: SessionState, completed: Completed) -> (step: Step)
    ensures
        step@ == after_completed(state@, completed),
{
    match completed {
        Completed::Listed(Ok(sessions)) => prompt_again(state, session_list(&sessions)),
        Completed::Listed(Err(error)) => show(
            state,
            failed(LIST_FAILED, error.message().as_str()),
        ),
        Completed::Connected { session_id, outcome: Ok(_) } => {
            let line = connected(session_id.as_str());
            show(SessionState::named(session_id), line)
        },
        Completed::Connected { session_id, outcome: Err(error) } => show(
            state,
            failed(CONNECT_FAILED, error.message().as_str()),
        ),
        Completed::Resumed { session_id, outcome: Ok(_) } => {
            let mut lines = one_line(resumed());
            let mut rest = welcome();
            let ghost first = lines.deep_view();
            let ghost second = rest.deep_view();
            lines.append(&mut rest);
            assert(lines.deep_view() =~= first + second);
            prompt_again(SessionState::named(session_id), lines)
        },
        Completed::Resumed { session_id, outcome: Err(error) } => {
            let detail = error.message();
            let lines = one_line(failed(CONNECT_FAILED, detail.as_str()));
            let reason = join("Failed to connect to session: ", detail.as_str());
            Step { state, lines, next: Next::Abort { reason } }
        },
        Completed::Created(Ok(session_id)) => {
            let lines = one_line(created(session_id.as_str()));
            let call = GatewayCall::FetchFirstReply {
                session_id: session_id.clone(),
                message: String::new(),
            };
            Step { state: SessionState::named(session_id), lines, next: Next::Call(call) }
        },
        Completed::Created(Err(error)) => show(
            state,
            failed(CREATE_FAILED, error.message().as_str()),
        ),
        Completed::FirstReply(Ok(response)) => show(state, reply(response.message.as_str())),
        Completed::FirstReply(Err(error)) => show(
            state,
            failed(FIRST_REPLY_FAILED, error.message().as_str()),
        ),
        Completed::Sent(Ok(response)) => show(state, reply(response.message.as_str())),
        Completed::Sent(Err(error)) => show(
            state,
            failed(SEND_FAILED, error.message().as_str()),
        ),
    }
}

} // verus!
