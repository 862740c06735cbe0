//! The command parser: classifies a line of input as blank, a slash-command
//! or chat text.

use crate::session::table::{command_for, command_named, lookup, Command};
use crate::text::{
    is_blank, is_solid, is_whitespace, leading_whitespace, lemma_tokens_first, lemma_tokens_solid,
    lemma_trim_blank, lemma_trim_shape, split_whitespace, substring, to_chars, tokens, trim,
    trim_bounds,
};
use vstd::prelude::*;

verus! {

/// A line of input, classified.
#[derive(Debug, PartialEq, Eq)]
pub enum ParsedInput {
    /// Nothing but white space.
    Empty,
    /// A line that begins with a slash: the command that its first token
    /// names, and the tokens after it.
    SlashCommand { command: Command, args: Vec<String> },
    /// Anything else: the line without the white space around it.
    ChatMessage { text: String },
}

/// The mathematical value of a `ParsedInput`.
pub enum ParsedInputView {
    Empty,
    SlashCommand { command: Command, args: Seq<Seq<char>> },
    ChatMessage { text: Seq<char> },
}

impl View for ParsedInput {
    type V = ParsedInputView;

    open spec fn view(&self) -> ParsedInputView {
        match self {
            ParsedInput::Empty => ParsedInputView::Empty,
            ParsedInput::SlashCommand { command, args } => ParsedInputView::SlashCommand {
                command: *command,
                args: args.deep_view(),
            },
            ParsedInput::ChatMessage { text } => ParsedInputView::ChatMessage { text: text@ },
        }
    }
}

/// What a line of input is.
///
/// A line that trimming leaves empty is `Empty`. A line whose first
/// character after trimming is a slash is a `SlashCommand`: its first token
/// names the command, the tokens after it are the arguments. Any other line
/// is a `ChatMessage` that carries the trimmed line.
pub open spec fn parsed(line: Seq<char>) -> ParsedInputView {
    let trimmed = trim(line);
    if trimmed.len() == 0 {
        ParsedInputView::Empty
    } else if trimmed.first() == '/' {
        ParsedInputView::SlashCommand {
            command: command_named(tokens(line).first()),
            args: tokens(line).drop_first(),
        }
    } else {
        ParsedInputView::ChatMessage { text: trimmed }
    }
}

/// Classifies a line of input. Every line is one of the three.
pub fn parse(line: &str) -> (input: ParsedInput)
    ensures
        input@ == parsed(line@),
{
    let chars = to_chars(line);
    let (start, end) = trim_bounds(&chars);
    if start == end {
        return ParsedInput::Empty;
    }
    if chars[start] == '/' {
        let mut words = split_whitespace(line);
        proof {
            lemma_tokens_first(line@);
        }
        let ghost all = words.deep_view();
        let name = words.remove(0);
        assert(words.deep_view() =~= all.drop_first());
        ParsedInput::SlashCommand { command: command_for(name.as_str()), args: words }
    } else {
        ParsedInput::ChatMessage { text: substring(line, start, end) }
    }
}

/// A line of nothing but white space is `Empty`.
pub proof fn law_blank_is_empty(line: Seq<char>)
    requires
        is_blank(line),
    ensures
        parsed(line) == ParsedInputView::Empty,
{
    lemma_trim_blank(line);
}

/// A line that begins with a slash and whose first token is a registered
/// name is that command, with the tokens after the first as its arguments,
/// in their order.
pub proof fn law_registered_command(line: Seq<char>)
    requires
        line.len() > 0,
        line.first() == '/',
        lookup(tokens(line).first()) is Some,
    ensures
        parsed(line) == (ParsedInputView::SlashCommand {
            command: lookup(tokens(line).first())->0.command,
            args: tokens(line).drop_first(),
        }),
{
    lemma_trim_shape(line);
}

/// A line that is not blank and whose first character that is not white
/// space is no slash is a `ChatMessage`, and its text is the line with only
/// the white space at its two ends removed: the line is that text between
/// two blank texts, and the text neither begins nor ends with white space.
pub proof fn law_chat_message(line: Seq<char>)
    requires
        !is_blank(line),
        trim(line).first() != '/',
    ensures
        parsed(line) == (ParsedInputView::ChatMessage { text: trim(line) }),
        trim(line).len() > 0,
        !is_whitespace(trim(line).first()),
        !is_whitespace(trim(line).last()),
        exists|before: Seq<char>, after: Seq<char>|
            #![auto]
            is_blank(before) && is_blank(after) && line == before + trim(line) + after,
{
    lemma_trim_shape(line);
    let before = line.take(leading_whitespace(line) as int);
    let after = line.skip((leading_whitespace(line) + trim(line).len()) as int);
    assert(is_blank(before) && is_blank(after) && line == before + trim(line) + after);
}

/// The arguments of a slash-command hold at least one character each and no
/// white space.
pub proof fn lemma_arguments_solid(line: Seq<char>)
    requires
        parsed(line) is SlashCommand,
    ensures
        forall|k: int|
            0 <= k < parsed(line)->args.len() ==> (#[trigger] parsed(line)->args[k]).len() > 0
                && is_solid(parsed(line)->args[k]),
{
    lemma_tokens_solid(line);
    lemma_trim_blank(line);
    lemma_tokens_first(line);
    let args = parsed(line)->args;
    assert forall|k: int| 0 <= k < args.len() implies (#[trigger] args[k]).len() > 0
        && is_solid(args[k]) by {
        assert(args[k] == tokens(line)[k + 1]);
    }
}

} // verus!
