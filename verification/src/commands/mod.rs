//! What each command of the client shows.

pub mod configure;
pub mod doctor;
pub mod show;

use crate::output::{failed, failure_line, plain, push_line, Line, SpanView};
use vstd::prelude::*;

verus! {

/// Opens the line shown when no token is configured.
pub const NOT_CONFIGURED: &'static str = "✗ API token not configured:";

/// How a token is configured.
pub const CONFIGURE_HINT: &'static str =
    "\nRun 'devin configure <token>' to set up your API token.";

/// What a command shows and how it ends.
#[derive(Debug, PartialEq, Eq)]
pub struct Report {
    /// The lines to show, in their order.
    pub lines: Vec<Line>,
    /// Why the command failed, if it did.
    pub failure: Option<String>,
}

/// The mathematical value of a `Report`.
pub struct ReportView {
    pub lines: Seq<Seq<SpanView>>,
    pub failure: Option<Seq<char>>,
}

impl View for Report {
    type V = ReportView;

    open spec fn view(&self) -> ReportView {
        ReportView {
            lines: self.lines.deep_view(),
            failure: match self.failure {
                Some(reason) => Some(reason@),
                None => None,
            },
        }
    }
}

/// What is shown when no token is configured: the failure, then how to
/// configure one.
pub open spec fn not_configured_lines(detail: Seq<char>) -> Seq<Seq<SpanView>> {
    seq![failure_line(NOT_CONFIGURED@, detail), seq![plain(CONFIGURE_HINT@)]]
}

/// The report of a command that found no token, for the reason `detail`.
pub open spec fn not_configured_report(detail: Seq<char>) -> ReportView {
    ReportView { lines: not_configured_lines(detail), failure: Some(detail) }
}

/// What is shown when no token is configured.
pub fn not_configured(detail: &str) -> (lines: Vec<Line>)
    ensures
        lines.deep_view() == not_configured_lines(detail@),
{
    let mut lines: Vec<Line> = Vec::new();
    push_line(&mut lines, failed(NOT_CONFIGURED, detail));
    push_line(&mut lines, Line::plain(CONFIGURE_HINT));
    lines
}

} // verus!
