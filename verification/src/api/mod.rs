//! The remote agent service as the client sees it: the values exchanged
//! with it, the requests that reach it and the errors that come back.

pub mod client;
pub mod models;
