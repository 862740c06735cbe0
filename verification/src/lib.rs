//! Core of a command-line client for conversing with a remote agent through
//! persistent sessions: command parsing, the session state machine, and the
//! text it renders.

pub mod api;
pub mod cli;
pub mod commands;
pub mod config;
pub mod output;
pub mod session;
pub mod text;
