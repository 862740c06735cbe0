//! The `show` command: the configured token, masked for display.

use crate::commands::{not_configured, not_configured_report, Report, ReportView};
use crate::output::{plain, push_line, Line, SpanView};
use crate::text::join;
use vstd::prelude::*;
use vstd::utf8::{
    decode_utf8, encode_utf8, encode_utf8_decode_utf8, encode_utf8_valid_utf8, is_ascii_chars,
    is_ascii_chars_encode_utf8, is_char_boundary, is_char_boundary_iff_not_is_continuation_byte,
};

verus! {

/// How many bytes of a token stay visible at each end.
pub const VISIBLE: usize = 4;

/// Whether a token can be masked: one of more than eight bytes splits into
/// characters after its first four bytes and before its last four.
pub open spec fn maskable(token: Seq<char>) -> bool {
    let bytes = encode_utf8(token);
    bytes.len() > 8 ==> is_char_boundary(bytes, 4) && is_char_boundary(bytes, bytes.len() - 4)
}

/// A token as it is displayed. A token of at most eight bytes is shown as
/// it is. Of a longer one only the first four and the last four bytes are
/// shown, with three dots between them.
pub open spec fn masked(token: Seq<char>) -> Seq<char> {
    let bytes = encode_utf8(token);
    if bytes.len() <= 8 {
        token
    } else {
        decode_utf8(bytes.subrange(0, 4)) + "..."@ + decode_utf8(
            bytes.subrange(bytes.len() - 4, bytes.len() as int),
        )
    }
}

/// Masks a token for display, showing only its first and last four bytes.
pub fn mask_token(token: &str) -> (shown: String)
    requires
        maskable(token@),
    ensures
        shown@ == masked(token@),
{
    let len = token.as_bytes().len();
    if len <= 2 * VISIBLE {
        return String::from_str(token);
    }
    let (first, _) = token.split_at(VISIBLE);
    let (_, last) = token.split_at(len - VISIBLE);
    proof {
        encode_utf8_decode_utf8(first@);
        encode_utf8_decode_utf8(last@);
    }
    String::from_str(first).concat("...").concat(last)
}

/// Decides `maskable`.
pub fn can_mask(token: &str) -> (can: bool)
    ensures
        can == maskable(token@),
{
    let len = token.as_bytes().len();
    len <= 2 * VISIBLE || (token.is_char_boundary(VISIBLE) && token.is_char_boundary(
        len - VISIBLE,
    ))
}

/// Masks a token for display if it can be masked.
pub fn try_mask_token(token: &str) -> (shown: Option<String>)
    ensures
        maskable(token@) ==> shown is Some && shown->0@ == masked(token@),
        !maskable(token@) ==> shown is None,
{
    if can_mask(token) {
        Some(mask_token(token))
    } else {
        None
    }
}

/// A token of ASCII characters can be masked, and what is shown of a long
/// one is its first four characters, three dots and its last four
/// characters.
pub proof fn law_masked_ascii(token: Seq<char>)
    requires
        is_ascii_chars(token),
    ensures
        maskable(token),
        token.len() <= 8 ==> masked(token) == token,
        token.len() > 8 ==> masked(token) == token.take(4) + "..."@ + token.skip(token.len() - 4),
{
    let bytes = encode_utf8(token);
    is_ascii_chars_encode_utf8(token);
    encode_utf8_valid_utf8(token);
    if token.len() > 8 {
        let n = token.len() as int;
        let head = token.take(4);
        let tail = token.skip(n - 4);
        is_char_boundary_iff_not_is_continuation_byte(bytes, 4);
        is_char_boundary_iff_not_is_continuation_byte(bytes, n - 4);
        is_ascii_chars_encode_utf8(head);
        is_ascii_chars_encode_utf8(tail);
        assert(encode_utf8(head) =~= bytes.subrange(0, 4));
        assert(encode_utf8(tail) =~= bytes.subrange(n - 4, n));
        encode_utf8_decode_utf8(head);
        encode_utf8_decode_utf8(tail);
    }
}

/// The line that shows a token, masked.
pub open spec fn token_line(token: Seq<char>) -> Seq<SpanView> {
    seq![plain("API Token: "@ + masked(token))]
}

/// What the command shows for a token that was resolved, or for the reason
/// why none was: the masked token, or the failure and how to mend it.
pub open spec fn shown(token: Result<Seq<char>, Seq<char>>) -> ReportView {
    match token {
        Ok(token) => ReportView { lines: seq![token_line(token)], failure: None },
        Err(detail) => not_configured_report(detail),
    }
}

/// Shows the token that was resolved, masked, or the reason why none was.
pub fn show(token: Result<String, String>) -> (report: Report)
    requires
        token matches Ok(found) ==> maskable(found@),
    ensures
        report@ == shown(
            match token {
                Ok(found) => Ok(found@),
                Err(detail) => Err(detail@),
            },
        ),
{
    match token {
        Ok(found) => {
            let mut lines: Vec<Line> = Vec::new();
            assert(lines.deep_view() =~= Seq::<Seq<SpanView>>::empty());
            push_line(
                &mut lines,
                Line::plain(join("API Token: ", mask_token(found.as_str()).as_str()).as_str()),
            );
            Report { lines, failure: None }
        },
        Err(detail) => {
            let lines = not_configured(detail.as_str());
            Report { lines, failure: Some(detail) }
        },
    }
}

} // verus!
