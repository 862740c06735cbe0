use devin::api::client::ApiError;
use devin::api::models::{MessageResponse, SessionDetails};
use devin::output::{Line, Style};
use devin::session::controller::{
    on_completed, on_input, start, Completed, GatewayCall, Next, Step,
};
use devin::session::driver::{advance, on_read, Event, ReadOutcome};
use devin::session::messages::{
    prompt, CONNECT_FAILED, CREATE_FAILED, FIRST_REPLY_FAILED, LIST_FAILED, SEND_FAILED,
};
use devin::session::parser::parse;
use devin::session::state::SessionState;

fn in_session(id: &str) -> SessionState {
    SessionState::InSession(id.to_string())
}

fn read_line(state: SessionState, line: &str) -> Step {
    advance(state, Event::Read(ReadOutcome::Line(line.to_string())))
}

fn completed(state: SessionState, completed: Completed) -> Step {
    advance(state, Event::Completed(completed))
}

fn bare_prompt() -> Next {
    Next::ReadLine { prompt: "> ".to_string() }
}

fn prompt_of(id: &str) -> Next {
    Next::ReadLine { prompt: format!("[{}] > ", id) }
}

fn details(id: &str, created_at: &str) -> SessionDetails {
    SessionDetails {
        session_id: id.to_string(),
        status: "running".to_string(),
        created_at: created_at.to_string(),
        updated_at: None,
    }
}

fn reply(message: &str) -> MessageResponse {
    MessageResponse { message: message.to_string(), done: false }
}

fn refused() -> ApiError {
    ApiError::ConnectionError("connection refused".to_string())
}

fn failure(marker: &str, detail: &str) -> Line {
    Line::new().with(Style::Failure, marker).with(Style::Plain, &format!(" {}", detail))
}

fn texts(lines: &[Line]) -> Vec<String> {
    lines.iter().map(|line| line.text()).collect()
}

fn failures(lines: &[Line]) -> usize {
    lines.iter().filter(|line| line.is_failure()).count()
}

fn states() -> Vec<SessionState> {
    vec![SessionState::NoSession, in_session("S1"), in_session("another session")]
}

#[test]
fn the_prompt_shows_the_session() {
    assert_eq!(prompt(&SessionState::NoSession), "> ");
    assert_eq!(prompt(&in_session("S1")), "[S1] > ");
}

#[test]
fn the_empty_identifier_names_no_session() {
    assert_eq!(SessionState::named(String::new()), SessionState::NoSession);
    assert_eq!(SessionState::named("S1".to_string()), in_session("S1"));
    assert_eq!(SessionState::NoSession.session_id(), None);
    assert_eq!(in_session("S1").session_id(), Some("S1"));
}

#[test]
fn starting_without_a_session_welcomes_and_prompts() {
    let step = start(None);
    assert_eq!(step.state, SessionState::NoSession);
    assert_eq!(
        texts(&step.lines),
        vec!["Welcome to Devin CLI", "Type /quit to exit, /help for help"]
    );
    assert_eq!(
        step.lines[1],
        Line::plain("Type ")
            .with(Style::Accent, "/quit")
            .with(Style::Plain, " to exit, ")
            .with(Style::Accent, "/help")
            .with(Style::Plain, " for help")
    );
    assert_eq!(step.next, bare_prompt());
}

#[test]
fn starting_with_a_session_asks_for_its_details() {
    let step = start(Some("S7".to_string()));
    assert_eq!(step.state, SessionState::NoSession);
    assert_eq!(texts(&step.lines), vec!["Connecting to existing session S7..."]);
    assert_eq!(step.next, Next::Call(GatewayCall::Resume { session_id: "S7".to_string() }));
}

#[test]
fn a_session_that_is_resumed_becomes_the_state() {
    let step = completed(
        SessionState::NoSession,
        Completed::Resumed { session_id: "S7".to_string(), outcome: Ok(details("S7", "today")) },
    );
    assert_eq!(step.state, in_session("S7"));
    assert_eq!(
        texts(&step.lines),
        vec![
            "\u{2713} Connected to session",
            "Welcome to Devin CLI",
            "Type /quit to exit, /help for help"
        ]
    );
    assert_eq!(step.lines[0], Line::new().with(Style::Success, "\u{2713} Connected to session"));
    assert_eq!(step.next, prompt_of("S7"));
}

#[test]
fn a_session_that_cannot_be_resumed_ends_the_command() {
    let step = completed(
        SessionState::NoSession,
        Completed::Resumed { session_id: "S7".to_string(), outcome: Err(refused()) },
    );
    assert_eq!(step.state, SessionState::NoSession);
    assert_eq!(
        step.lines,
        vec![failure(CONNECT_FAILED, "Failed to connect to API: connection refused")]
    );
    assert_eq!(
        step.next,
        Next::Abort {
            reason: "Failed to connect to session: Failed to connect to API: connection refused"
                .to_string()
        }
    );
}

#[test]
fn blank_input_does_nothing() {
    for state in states() {
        let before = prompt(&state);
        let step = read_line(state, "   ");
        assert!(step.lines.is_empty());
        assert_eq!(step.next, Next::ReadLine { prompt: before });
    }
    let step = read_line(in_session("S1"), "");
    assert_eq!(step.state, in_session("S1"));
}

#[test]
fn quit_ends_the_loop_from_any_state() {
    for state in states() {
        let step = read_line(state, "/quit");
        assert_eq!(texts(&step.lines), vec!["Goodbye!"]);
        assert_eq!(step.next, Next::Exit);
    }
    let step = read_line(in_session("S1"), "  /quit  ");
    assert_eq!(step.state, in_session("S1"));
    assert_eq!(step.next, Next::Exit);
}

#[test]
fn help_shows_the_commands() {
    let step = read_line(in_session("S1"), "/help");
    assert_eq!(step.state, in_session("S1"));
    assert_eq!(
        texts(&step.lines),
        vec![
            "Available commands:",
            "  /quit - Exit the session",
            "  /help - Show this help message",
            "  /sessions - List all sessions",
            "  /connect <session_id> - Connect to an existing session",
            "Any other input will be sent as a message to Devin.",
        ]
    );
    assert_eq!(
        step.lines[4],
        Line::plain("  ")
            .with(Style::Accent, "/connect")
            .with(Style::Plain, " <session_id> - Connect to an existing session")
    );
    assert_eq!(step.next, prompt_of("S1"));
}

#[test]
fn unknown_command_is_reported_and_changes_nothing() {
    for state in states() {
        let before = prompt(&state);
        let step = read_line(state, "/frobnicate");
        assert_eq!(texts(&step.lines), vec!["Unknown command. Type /help for help."]);
        assert_eq!(step.next, Next::ReadLine { prompt: before });
    }
    let step = read_line(in_session("S1"), "/frobnicate");
    assert_eq!(step.state, in_session("S1"));
    assert_eq!(
        step.lines,
        vec![Line::plain("Unknown command. Type ")
            .with(Style::Accent, "/help")
            .with(Style::Plain, " for help.")]
    );
}

#[test]
fn a_command_without_arguments_that_is_given_some_is_unknown() {
    for line in ["/quit now", "/help me", "/sessions all"] {
        let step = read_line(in_session("S1"), line);
        assert_eq!(step.state, in_session("S1"));
        assert_eq!(texts(&step.lines), vec!["Unknown command. Type /help for help."]);
        assert_eq!(step.next, prompt_of("S1"));
    }
}

#[test]
fn connect_takes_one_argument() {
    for line in ["/connect", "/connect S2 S3", "/connect a b c"] {
        let step = read_line(in_session("S1"), line);
        assert_eq!(step.state, in_session("S1"));
        assert_eq!(texts(&step.lines), vec!["Usage: /connect <session_id>"]);
        assert_eq!(
            step.lines,
            vec![Line::plain("Usage: ")
                .with(Style::Accent, "/connect")
                .with(Style::Plain, " <session_id>")]
        );
        assert_eq!(step.next, prompt_of("S1"));
    }
}

#[test]
fn connect_asks_for_the_details_of_the_session() {
    for state in states() {
        let step = read_line(state, "/connect S2");
        assert!(step.lines.is_empty());
        assert_eq!(step.next, Next::Call(GatewayCall::Connect { session_id: "S2".to_string() }));
    }
    let step = read_line(in_session("S1"), "/connect S2");
    assert_eq!(step.state, in_session("S1"));
}

#[test]
fn connect_that_succeeds_moves_to_the_session_from_any_state() {
    for state in states() {
        let step = completed(
            state,
            Completed::Connected {
                session_id: "S2".to_string(),
                outcome: Ok(details("S2", "yesterday")),
            },
        );
        assert_eq!(step.state, in_session("S2"));
        assert_eq!(texts(&step.lines), vec!["\u{2713} Connected to session S2"]);
        assert_eq!(
            step.lines,
            vec![Line::new()
                .with(Style::Success, "\u{2713} Connected to session")
                .with(Style::Plain, " S2")]
        );
        assert_eq!(step.next, prompt_of("S2"));
    }
}

#[test]
fn connect_that_fails_keeps_the_state() {
    let step = read_line(in_session("S1"), "/connect S2");
    assert_eq!(step.next, Next::Call(GatewayCall::Connect { session_id: "S2".to_string() }));
    let step = completed(
        step.state,
        Completed::Connected { session_id: "S2".to_string(), outcome: Err(refused()) },
    );
    assert_eq!(step.state, in_session("S1"));
    assert_eq!(
        step.lines,
        vec![failure(CONNECT_FAILED, "Failed to connect to API: connection refused")]
    );
    assert_eq!(
        texts(&step.lines),
        vec!["\u{2717} Failed to connect to session: Failed to connect to API: connection refused"]
    );
    assert_eq!(failures(&step.lines), 1);
    assert_eq!(step.next, prompt_of("S1"));
}

#[test]
fn sessions_asks_for_the_list_and_keeps_the_state() {
    for state in states() {
        let step = read_line(state, "/sessions");
        assert!(step.lines.is_empty());
        assert_eq!(step.next, Next::Call(GatewayCall::ListSessions { limit: None }));
    }
    let step = read_line(in_session("S1"), "/sessions");
    assert_eq!(step.state, in_session("S1"));
}

#[test]
fn the_list_of_sessions_is_shown_in_its_order() {
    let step = completed(
        in_session("S1"),
        Completed::Listed(Ok(vec![details("S2", "2024-01-02"), details("S1", "2024-01-01")])),
    );
    assert_eq!(step.state, in_session("S1"));
    assert_eq!(
        texts(&step.lines),
        vec!["Available sessions:", "  S2 (created: 2024-01-02)", "  S1 (created: 2024-01-01)"]
    );
    assert_eq!(step.next, prompt_of("S1"));
}

#[test]
fn an_empty_list_of_sessions_says_so() {
    let step = completed(SessionState::NoSession, Completed::Listed(Ok(vec![])));
    assert_eq!(step.state, SessionState::NoSession);
    assert_eq!(texts(&step.lines), vec!["No sessions found."]);
    assert_eq!(step.next, bare_prompt());
}

#[test]
fn a_list_that_fails_keeps_the_state() {
    for state in states() {
        let before = prompt(&state);
        let step = completed(
            state,
            Completed::Listed(Err(ApiError::RequestError(
                "API returned status: 500 Internal Server Error".to_string(),
            ))),
        );
        assert_eq!(
            step.lines,
            vec![failure(
                LIST_FAILED,
                "API request failed: API returned status: 500 Internal Server Error"
            )]
        );
        assert_eq!(step.next, Next::ReadLine { prompt: before });
    }
    let step = completed(in_session("S1"), Completed::Listed(Err(refused())));
    assert_eq!(step.state, in_session("S1"));
}

#[test]
fn chat_without_a_session_creates_one() {
    let step = read_line(SessionState::NoSession, "  hello  ");
    assert_eq!(step.state, SessionState::NoSession);
    assert!(step.lines.is_empty());
    assert_eq!(step.next, Next::Call(GatewayCall::CreateSession { prompt: "hello".to_string() }));
}

#[test]
fn chat_in_a_session_is_sent_to_it() {
    let step = read_line(in_session("S1"), "how are you?");
    assert_eq!(step.state, in_session("S1"));
    assert!(step.lines.is_empty());
    assert_eq!(
        step.next,
        Next::Call(GatewayCall::SendMessage {
            session_id: "S1".to_string(),
            message: "how are you?".to_string()
        })
    );
}

#[test]
fn a_new_session_shows_its_first_reply() {
    let mut shown: Vec<Line> = Vec::new();
    let mut step = read_line(SessionState::NoSession, "hello");
    shown.append(&mut step.lines);
    assert_eq!(step.next, Next::Call(GatewayCall::CreateSession { prompt: "hello".to_string() }));

    let mut step = completed(step.state, Completed::Created(Ok("S1".to_string())));
    shown.append(&mut step.lines);
    assert_eq!(step.state, in_session("S1"));
    assert_eq!(
        step.next,
        Next::Call(GatewayCall::FetchFirstReply {
            session_id: "S1".to_string(),
            message: String::new()
        })
    );

    let mut step = completed(step.state, Completed::FirstReply(Ok(reply("hi there"))));
    shown.append(&mut step.lines);
    assert_eq!(step.state, in_session("S1"));
    assert_eq!(step.next, prompt_of("S1"));

    assert_eq!(texts(&shown), vec!["\u{2713} Created new session: S1", "hi there"]);
    assert_eq!(
        shown[0],
        Line::new().with(Style::Success, "\u{2713} Created new session:").with(Style::Plain, " S1")
    );
    assert_eq!(failures(&shown), 0);
}

#[test]
fn a_new_session_stays_when_its_first_reply_fails() {
    let mut shown: Vec<Line> = Vec::new();
    let mut step = read_line(SessionState::NoSession, "hello");
    shown.append(&mut step.lines);
    let mut step = completed(step.state, Completed::Created(Ok("S1".to_string())));
    shown.append(&mut step.lines);
    let mut step = completed(step.state, Completed::FirstReply(Err(refused())));
    shown.append(&mut step.lines);

    assert_eq!(step.state, in_session("S1"));
    assert_eq!(step.next, prompt_of("S1"));
    assert_eq!(
        shown,
        vec![
            Line::new()
                .with(Style::Success, "\u{2713} Created new session:")
                .with(Style::Plain, " S1"),
            failure(FIRST_REPLY_FAILED, "Failed to connect to API: connection refused"),
        ]
    );
    assert_eq!(failures(&shown), 1);
}

#[test]
fn a_session_that_is_not_created_leaves_no_session() {
    let step = completed(
        SessionState::NoSession,
        Completed::Created(Err(ApiError::ParseError("missing field `session_id`".to_string()))),
    );
    assert_eq!(step.state, SessionState::NoSession);
    assert_eq!(
        step.lines,
        vec![failure(
            CREATE_FAILED,
            "Failed to parse API response: missing field `session_id`"
        )]
    );
    assert_eq!(step.next, bare_prompt());
}

#[test]
fn a_created_session_without_a_name_is_no_session() {
    let step = completed(SessionState::NoSession, Completed::Created(Ok(String::new())));
    assert_eq!(step.state, SessionState::NoSession);
    assert_eq!(texts(&step.lines), vec!["\u{2713} Created new session: "]);
    assert_eq!(
        step.next,
        Next::Call(GatewayCall::FetchFirstReply {
            session_id: String::new(),
            message: String::new()
        })
    );
}

#[test]
fn a_reply_is_shown_as_it_came() {
    let step = completed(in_session("S1"), Completed::Sent(Ok(reply("line one\nline two"))));
    assert_eq!(step.state, in_session("S1"));
    assert_eq!(step.lines, vec![Line::plain("line one\nline two")]);
    assert_eq!(step.next, prompt_of("S1"));
}

#[test]
fn a_message_that_is_not_sent_keeps_the_session() {
    let step = completed(in_session("S1"), Completed::Sent(Err(refused())));
    assert_eq!(step.state, in_session("S1"));
    assert_eq!(
        step.lines,
        vec![failure(SEND_FAILED, "Failed to connect to API: connection refused")]
    );
    assert_eq!(step.next, prompt_of("S1"));
}

#[test]
fn an_interrupt_ends_the_loop() {
    let step = advance(in_session("S1"), Event::Read(ReadOutcome::Interrupted));
    assert_eq!(step.state, in_session("S1"));
    assert_eq!(texts(&step.lines), vec!["CTRL-C"]);
    assert_eq!(step.next, Next::Exit);
}

#[test]
fn the_end_of_input_ends_the_loop() {
    let step = advance(SessionState::NoSession, Event::Read(ReadOutcome::EndOfInput));
    assert_eq!(texts(&step.lines), vec!["CTRL-D"]);
    assert_eq!(step.next, Next::Exit);
}

#[test]
fn a_failed_read_is_shown_and_ends_the_loop() {
    let failed = ReadOutcome::Failed("Io(broken)".to_string());
    let step = advance(SessionState::NoSession, Event::Read(failed));
    assert_eq!(texts(&step.lines), vec!["Error: Io(broken)"]);
    assert_eq!(step.next, Next::Exit);
}

#[test]
fn the_parts_agree_with_advance() {
    assert_eq!(
        on_read(in_session("S1"), ReadOutcome::Line("/help".to_string())),
        read_line(in_session("S1"), "/help")
    );
    assert_eq!(on_input(in_session("S1"), parse("/help")), read_line(in_session("S1"), "/help"));
    assert_eq!(
        on_completed(in_session("S1"), Completed::Listed(Ok(vec![]))),
        completed(in_session("S1"), Completed::Listed(Ok(vec![])))
    );
}

#[test]
fn a_conversation_from_start_to_quit() {
    let mut calls = 0;
    let mut shown: Vec<String> = Vec::new();
    let mut inputs = vec!["hello", "", "/sessions", "/connect S2", "more", "/quit"].into_iter();
    let mut step = start(None);
    loop {
        shown.extend(texts(&step.lines));
        let event = match step.next {
            Next::ReadLine { .. } => {
                Event::Read(ReadOutcome::Line(inputs.next().unwrap().to_string()))
            }
            Next::Call(call) => {
                calls += 1;
                Event::Completed(match call {
                    GatewayCall::ListSessions { .. } => {
                        Completed::Listed(Ok(vec![details("S1", "now")]))
                    }
                    GatewayCall::Connect { session_id } => {
                        Completed::Connected { session_id, outcome: Err(refused()) }
                    }
                    GatewayCall::Resume { session_id } => {
                        Completed::Resumed { session_id, outcome: Err(refused()) }
                    }
                    GatewayCall::CreateSession { prompt } => {
                        assert_eq!(prompt, "hello");
                        Completed::Created(Ok("S1".to_string()))
                    }
                    GatewayCall::FetchFirstReply { session_id, message } => {
                        assert_eq!((session_id.as_str(), message.as_str()), ("S1", ""));
                        Completed::FirstReply(Ok(reply("hi there")))
                    }
                    GatewayCall::SendMessage { session_id, message } => {
                        assert_eq!((session_id.as_str(), message.as_str()), ("S1", "more"));
                        Completed::Sent(Ok(reply("sure")))
                    }
                })
            }
            Next::Exit => break,
            Next::Abort { reason } => panic!("{}", reason),
        };
        step = advance(step.state, event);
    }
    assert_eq!(step.state, in_session("S1"));
    assert_eq!(calls, 5);
    assert_eq!(
        shown,
        vec![
            "Welcome to Devin CLI",
            "Type /quit to exit, /help for help",
            "\u{2713} Created new session: S1",
            "hi there",
            "Available sessions:",
            "  S1 (created: now)",
            "\u{2717} Failed to connect to session: Failed to connect to API: connection refused",
            "sure",
            "Goodbye!",
        ]
    );
}
