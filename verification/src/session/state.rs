//! The session state: no session, or the one session that is active.

use vstd::prelude::*;

verus! {

/// The session that the controller holds, if any.
#[derive(Debug, PartialEq, Eq)]
pub enum SessionState {
    /// No session was created or connected to yet.
    NoSession,
    /// The session that was last created or connected to.
    InSession(String),
}

/// The mathematical value of a `SessionState`.
pub enum SessionView {
    NoSession,
    InSession(Seq<char>),
}

impl View for SessionState {
    type V = SessionView;

    open spec fn view(&self) -> SessionView {
        match self {
            SessionState::NoSession => SessionView::NoSession,
            SessionState::InSession(id) => SessionView::InSession(id@),
        }
    }
}

impl SessionView {
    /// An active session has a name: its identifier is not empty.
    pub open spec fn wf(self) -> bool {
        self matches SessionView::InSession(id) ==> id.len() > 0
    }
}

/// The state that holds the session named `id`. The empty identifier names
/// no session.
pub open spec fn session_named(id: Seq<char>) -> SessionView {
    if id.len() == 0 {
        SessionView::NoSession
    } else {
        SessionView::InSession(id)
    }
}

impl SessionState {
    /// The state that holds the session named `id`.
    pub fn named(id: String) -> (state: SessionState)
        ensures
            state@ == session_named(id@),
            state@.wf(),
    {
        if id.as_str().is_empty() {
            SessionState::NoSession
        } else {
            SessionState::InSession(id)
        }
    }

    /// The identifier of the active session, if there is one.
    pub fn session_id(&self) -> (id: Option<&str>)
        ensures
            match self@ {
                SessionView::NoSession => id is None,
                SessionView::InSession(name) => id is Some && id->0@ == name,
            },
    {
        match self {
            SessionState::NoSession => None,
            SessionState::InSession(id) => Some(id.as_str()),
        }
    }
}

} // verus!
