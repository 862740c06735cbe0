//! The `doctor` command: checks that the client is set up.

use crate::api::client::{ApiClient, ApiError};
use crate::commands::{not_configured, not_configured_report, Report, ReportView};
use crate::output::{failed, failure_line, plain, push_line, success, Line, SpanView, Style};
use vstd::prelude::*;

verus! {

/// Opens the line shown when the service is not reached.
pub const API_UNREACHABLE: &'static str = "✗ Failed to connect to Devin API:";

/// What is shown once a token was found and a client was made for it.
pub open spec fn client_ready_lines() -> Seq<Seq<SpanView>> {
    seq![
        seq![success("✓ API token is configured"@)],
        seq![plain("\nChecking API connectivity..."@)],
        seq![success("✓ API client created successfully"@)],
    ]
}

/// Confirms that the service is reached.
pub open spec fn api_connected_line() -> Seq<SpanView> {
    seq![success("✓ Connected to Devin API successfully"@)]
}

/// The diagnosis for a token that was resolved, or for the reason why none
/// was.
///
/// Without a token the command fails for that reason. With one, a client is
/// made and its connection is checked: the command fails if the token is
/// empty, and ends well otherwise.
pub open spec fn diagnosis(token: Result<Seq<char>, Seq<char>>) -> ReportView {
    match token {
        Err(detail) => not_configured_report(detail),
        Ok(token) => if token.len() > 0 {
            ReportView { lines: client_ready_lines().push(api_connected_line()), failure: None }
        } else {
            let reason = "Failed to connect to API: API token is empty"@;
            ReportView {
                lines: client_ready_lines().push(failure_line(API_UNREACHABLE@, reason)),
                failure: Some(reason),
            }
        },
    }
}

/// Checks the set-up for a token that was resolved, or for the reason why
/// none was.
pub fn diagnose(token: Result<String, String>) -> (report: Report)
    ensures
        report@ == diagnosis(
            match token {
                Ok(found) => Ok(found@),
                Err(detail) => Err(detail@),
            },
        ),
{
    match token {
        Err(detail) => {
            let lines = not_configured(detail.as_str());
            Report { lines, failure: Some(detail) }
        },
        Ok(token) => {
            let mut lines: Vec<Line> = Vec::new();
            push_line(&mut lines, Line::new().with(Style::Success, "✓ API token is configured"));
            push_line(&mut lines, Line::plain("\nChecking API connectivity..."));
            let client = ApiClient::new(token.as_str());
            push_line(
                &mut lines,
                Line::new().with(Style::Success, "✓ API client created successfully"),
            );
            assert(lines.deep_view() =~~= client_ready_lines());
            match client.check_connection() {
                Ok(()) => {
                    push_line(
                        &mut lines,
                        Line::new().with(Style::Success, "✓ Connected to Devin API successfully"),
                    );
                    Report { lines, failure: None }
                },
                Err(error) => {
                    let reason = error.message();
                    proof {
                        lemma_empty_token_reason(error);
                    }
                    push_line(&mut lines, failed(API_UNREACHABLE, reason.as_str()));
                    Report { lines, failure: Some(reason) }
                },
            }
        },
    }
}

/// The text of the error for an empty token.
proof fn lemma_empty_token_reason(error: ApiError)
    requires
        error matches ApiError::ConnectionError(detail) && detail@ == "API token is empty"@,
    ensures
        error.text() == "Failed to connect to API: API token is empty"@,
{
    reveal_strlit("Failed to connect to API: ");
    reveal_strlit("API token is empty");
    reveal_strlit("Failed to connect to API: API token is empty");
}

} // verus!
