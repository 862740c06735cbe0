//! Rendered output: lines made of styled spans of text.
//!
//! The library decides what is shown and in which role (success, failure,
//! command name); how a role looks on a terminal is left to the caller.

use crate::text::join;
use vstd::prelude::*;

verus! {

/// The role of a span of text within a rendered line.
#[derive(Clone, Copy, Debug, PartialEq, Eq, Structural)]
pub enum Style {
    /// Ordinary text.
    Plain,
    /// A confirmation that something succeeded.
    Success,
    /// The marker that opens a line reporting a failure.
    Failure,
    /// The name of a command that the user can type.
    Accent,
}

/// A run of text shown in one style.
#[derive(Debug, PartialEq, Eq)]
pub struct Span {
    pub style: Style,
    pub text: String,
}

/// The mathematical value of a `Span`.
pub struct SpanView {
    pub style: Style,
    pub text: Seq<char>,
}

impl View for Span {
    type V = SpanView;

    open spec fn view(&self) -> SpanView {
        SpanView { style: self.style, text: self.text@ }
    }
}

impl DeepView for Span {
    type V = SpanView;

    open spec fn deep_view(&self) -> SpanView {
        self@
    }
}

/// One line of output: its spans, shown one after the other.
#[derive(Debug, PartialEq, Eq)]
pub struct Line {
    pub spans: Vec<Span>,
}

impl View for Line {
    type V = Seq<SpanView>;

    open spec fn view(&self) -> Seq<SpanView> {
        self.spans.deep_view()
    }
}

impl DeepView for Line {
    type V = Seq<SpanView>;

    open spec fn deep_view(&self) -> Seq<SpanView> {
        self@
    }
}

/// A span of ordinary text.
pub open spec fn plain(text: Seq<char>) -> SpanView {
    SpanView { style: Style::Plain, text }
}

/// A span that confirms a success.
pub open spec fn success(text: Seq<char>) -> SpanView {
    SpanView { style: Style::Success, text }
}

/// A span that marks a failure.
pub open spec fn failure(text: Seq<char>) -> SpanView {
    SpanView { style: Style::Failure, text }
}

/// A span that names a command.
pub open spec fn accent(text: Seq<char>) -> SpanView {
    SpanView { style: Style::Accent, text }
}

/// A failure: the marker, then what went wrong.
pub open spec fn failure_line(marker: Seq<char>, detail: Seq<char>) -> Seq<SpanView> {
    seq![failure(marker), plain(" "@ + detail)]
}

/// The characters of a line, styles set aside.
pub open spec fn line_text(line: Seq<SpanView>) -> Seq<char>
    decreases line.len(),
{
    if line.len() == 0 {
        Seq::empty()
    } else {
        line_text(line.drop_last()) + line.last().text
    }
}

/// Whether a line reports a failure: it opens with a failure marker.
pub open spec fn is_failure_line(line: Seq<SpanView>) -> bool {
    line.len() > 0 && line.first().style == Style::Failure
}

/// How many of `lines` report a failure.
pub open spec fn failure_count(lines: Seq<Seq<SpanView>>) -> nat
    decreases lines.len(),
{
    if lines.len() == 0 {
        0
    } else {
        failure_count(lines.drop_last()) + if is_failure_line(lines.last()) {
            1nat
        } else {
            0nat
        }
    }
}

impl Line {
    /// The line without any span.
    pub fn new() -> (line: Line)
        ensures
            line@ == Seq::<SpanView>::empty(),
    {
        let line = Line { spans: Vec::new() };
        line
    }

    /// A line of ordinary text.
    pub fn plain(text: &str) -> (line: Line)
        ensures
            line@ == seq![plain(text@)],
    {
        Line::new().with(Style::Plain, text)
    }

    /// This line followed by one more span.
    pub fn with(self, style: Style, text: &str) -> (line: Line)
        ensures
            line@ == self@.push(SpanView { style, text: text@ }),
    {
        let mut spans = self.spans;
        spans.push(Span { style, text: String::from_str(text) });
        let line = Line { spans };
        line
    }

    /// Whether this line reports a failure.
    pub fn is_failure(&self) -> (r: bool)
        ensures
            r == is_failure_line(self@),
    {
        self.spans.len() > 0 && matches!(self.spans[0].style, Style::Failure)
    }

    /// The characters of the line, styles set aside.
    pub fn text(&self) -> (text: String)
        ensures
            text@ == line_text(self@),
    {
        let mut text = String::new();
        let mut i: usize = 0;
        while i < self.spans.len()
            invariant
                i <= self.spans.len(),
                text@ == line_text(self@.take(i as int)),
            decreases self.spans.len() - i,
        {
            proof {
                let next = self@.take(i + 1);
                assert(next.drop_last() =~= self@.take(i as int));
            }
            text.append(self.spans[i].text.as_str());
            i += 1;
        }
        assert(self@.take(i as int) =~= self@);
        text
    }
}

/// Adds `line` below `lines`.
pub fn push_line(lines: &mut Vec<Line>, line: Line)
    ensures
        final(lines).deep_view() == old(lines).deep_view().push(line@),
{
    lines.push(line);
}

/// A failure: the marker, then what went wrong.
pub fn failed(marker: &str, detail: &str) -> (line: Line)
    ensures
        line@ == failure_line(marker@, detail@),
{
    Line::new().with(Style::Failure, marker).with(Style::Plain, join(" ", detail).as_str())
}

} // verus!
