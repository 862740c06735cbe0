//! The `configure` command: stores the token.

use crate::output::{success, Line, SpanView, Style};
use vstd::prelude::*;

verus! {

/// Confirms that the token was stored.
pub open spec fn configured_line() -> Seq<SpanView> {
    seq![success("API token configured successfully"@)]
}

/// Confirms that the token was stored.
pub fn configured() -> (line: Line)
    ensures
        line@ == configured_line(),
{
    Line::new().with(Style::Success, "API token configured successfully")
}

} // verus!
