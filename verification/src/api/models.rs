//! The values exchanged with the remote service.

use vstd::prelude::*;

verus! {

/// Body of the request that opens a session.
#[derive(Debug, PartialEq, Eq)]
pub struct CreateSessionRequest {
    pub prompt: String,
}

/// What the service answers when a session was opened.
#[derive(Debug, PartialEq, Eq)]
pub struct CreateSessionResponse {
    pub session_id: String,
    pub url: String,
    pub is_new_session: bool,
}

/// Body of the request that sends a message to a session.
#[derive(Debug, PartialEq, Eq)]
pub struct SendMessageRequest {
    pub message: String,
}

/// The agent's reply to a message.
#[derive(Debug, PartialEq, Eq)]
pub struct MessageResponse {
    pub message: String,
    pub done: bool,
}

/// Summary of one session: read-only, used for display.
#[derive(Debug, PartialEq, Eq)]
pub struct SessionDetails {
    pub session_id: String,
    pub status: String,
    pub created_at: String,
    pub updated_at: Option<String>,
}

/// What the service answers when asked for the sessions.
#[derive(Debug, PartialEq, Eq)]
pub struct ListSessionsResponse {
    pub sessions: Vec<SessionDetails>,
}

} // verus!
