//! The interactive session: the command table, the parser of input lines,
//! the session state and the controller that moves it.

pub mod controller;
pub mod driver;
pub mod laws;
pub mod messages;
pub mod parser;
pub mod state;
pub mod table;
