//! The decisions of the read loop: what the end of a read leads to, and
//! the one function that moves the session on whatever happened.
//!
//! The loop itself, with the terminal and the network, is the caller's: it
//! shows the lines of a step, does what the step asks for next and hands
//! back what happened.

use crate::session::controller::{
    after_completed, after_input, leave, leaving, on_completed, on_input, Completed, Step,
    StepView,
};
use crate::session::messages::{
    end_of_input, end_of_input_line, interrupted, interrupted_line, read_failed,
    read_failed_line,
};
use crate::session::parser::{parse, parsed};
use crate::session::state::{SessionState, SessionView};
use vstd::prelude::*;

verus! {

/// What reading a line from the terminal gave.
#[derive(Debug, PartialEq, Eq)]
pub enum ReadOutcome {
    /// A line, without its line end.
    Line(String),
    /// The terminal's interrupt signal.
    Interrupted,
    /// The end of input.
    EndOfInput,
    /// Any other failure, described.
    Failed(String),
}

/// What happened since the last step.
#[derive(Debug, PartialEq, Eq)]
pub enum Event {
    /// The read that was asked for ended.
    Read(ReadOutcome),
    /// The call that was asked for ended.
    Completed(Completed),
}

/// The step that the end of a read leads to: a line is parsed and acted on;
/// an interrupt, the end of input and a failed read each leave the loop
/// with a line of their own.
pub open spec fn after_read(state: SessionView, outcome: ReadOutcome) -> StepView {
    match outcome {
        ReadOutcome::Line(line) => after_input(state, parsed(line@)),
        ReadOutcome::Interrupted => leaving(state, interrupted_line()),
        ReadOutcome::EndOfInput => leaving(state, end_of_input_line()),
        ReadOutcome::Failed(detail) => leaving(state, read_failed_line(detail@)),
    }
}

/// The step that an event leads to.
pub open spec fn after(state: SessionView, event: Event) -> StepView {
    match event {
        Event::Read(outcome) => after_read(state, outcome),
        Event::Completed(completed) => after_completed(state, completed),
    }
}

/// Acts on the end of a read.
pub fn on_read(state: SessionState, outcome: ReadOutcome) -> (step: Step)
    ensures
        step@ == after_read(state@, outcome),
{
    match outcome {
        ReadOutcome::Line(line) => on_input(state, parse(line.as_str())),
        ReadOutcome::Interrupted => leave(state, interrupted()),
        ReadOutcome::EndOfInput => leave(state, end_of_input()),
        ReadOutcome::Failed(detail) => leave(state, read_failed(detail.as_str())),
    }
}

/// Acts on an event: the one function that moves the session.
pub fn advance(state: SessionState, event: Event) -> (step: Step)
    ensures
        step@ == after(state@, event),
{
    match event {
        Event::Read(outcome) => on_read(state, outcome),
        Event::Completed(completed) => on_completed(state, completed),
    }
}

} // verus!
