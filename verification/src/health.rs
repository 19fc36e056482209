//! The health command's report of one `/health` ping: the status line and the
//! body shown beneath it.

use vstd::prelude::*;
use crate::calls::{parses_as_json, pretty_json, render_json};
use crate::checks::{is_success, ProbeOutcome, Tint};

verus! {

/// One status line of the health command: a styled label, then the detail.
#[derive(Clone, Debug)]
pub struct StatusLine {
    pub label: String,
    pub tint: Tint,
    pub detail: String,
}

/// The status line for a ping: an answer shows its status, green on 2xx and red
/// otherwise; a timeout (checked first) shows `timed out` in yellow; a refused
/// connection says the service is not running locally; any other error is shown
/// as an error.
pub open spec fn status_line_of(o: ProbeOutcome) -> (Seq<char>, Tint, Seq<char>) {
    match o {
        ProbeOutcome::Reply { code, status_text } => (
            "status:"@,
            if is_success(code) { Tint::Green } else { Tint::Red },
            status_text@,
        ),
        ProbeOutcome::Failed { connect, timeout, message } => if timeout {
            ("status:"@, Tint::Yellow, "timed out"@)
        } else if connect {
            ("status:"@, Tint::Red, "connection refused — service not running locally"@)
        } else {
            ("error:"@, Tint::Red, message@)
        },
    }
}

/// The status line for a health ping.
pub fn health_status_line(outcome: &ProbeOutcome) -> (r: StatusLine)
    ensures
        (r.label@, r.tint, r.detail@) == status_line_of(*outcome),
{
    match outcome {
        ProbeOutcome::Reply { code, status_text } => StatusLine {
            label: "status:".to_owned(),
            tint: if 200 <= *code && *code <= 299 { Tint::Green } else { Tint::Red },
            detail: status_text.clone(),
        },
        ProbeOutcome::Failed { connect, timeout, message } => {
            if *timeout {
                StatusLine { label: "status:".to_owned(), tint: Tint::Yellow, detail: "timed out".to_owned() }
            } else if *connect {
                StatusLine {
                    label: "status:".to_owned(),
                    tint: Tint::Red,
                    detail: "connection refused — service not running locally".to_owned(),
                }
            } else {
                StatusLine { label: "error:".to_owned(), tint: Tint::Red, detail: message.clone() }
            }
        },
    }
}

/// The body shown under an answered ping: serde_json's pretty rendering when it
/// is a JSON document, else the body as it came.
pub fn pretty_or_raw(body: &str) -> (r: String)
    ensures
        parses_as_json(body@) ==> r@ == pretty_json(body@),
        !parses_as_json(body@) ==> r@ == body@,
{
    match render_json(body) {
        Some(pretty) => pretty,
        None => body.to_owned(),
    }
}

} // verus!
