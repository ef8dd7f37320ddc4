//! The response side of the executor: classify an HTTP response by its status
//! class and render the one message block that is printed for it.

use vstd::prelude::*;
use vstd::string::StringExecFns;

use crate::json::EncodingError;
use crate::json::colorize;
use crate::json::json_parses;
use crate::json::json_quote;

verus! {

/// A status in the 2xx class counts as success; everything else is an error.
pub open spec fn is_success_status(status: u16) -> bool {
    200 <= status < 300
}

/// The message printed when a successful response has an empty body.
pub open spec fn spec_success_message() -> Seq<char> {
    "Operation successful"@
}

/// The label put in front of a rendered error status.
pub open spec fn error_prefix() -> Seq<char> {
    "Error: "@
}

/// What one HTTP response came to: a success with its body text (possibly
/// empty), or a failure with the description of its status line.
#[derive(Debug)]
pub enum ResponseOutcome {
    Success { body: String },
    Failure { status_text: String },
}

/// Classify a response by its status code: 2xx keeps the body text, anything
/// else keeps the status description instead.
pub fn classify_response(status: u16, status_text: String, body: String) -> (r: ResponseOutcome)
    ensures
        is_success_status(status) ==> (r matches ResponseOutcome::Success { body: b } && b@
            == body@),
        !is_success_status(status) ==> (r matches ResponseOutcome::Failure { status_text: t } && t@
            == status_text@),
{
    if 200 <= status && status < 300 {
        ResponseOutcome::Success { body }
    } else {
        ResponseOutcome::Failure { status_text }
    }
}

/// What rendering owes for each outcome: an empty success body becomes the
/// literal success message; a non-empty success body renders exactly when it
/// is valid JSON; a failure always renders, behind the error label.
pub open spec fn renders(outcome: ResponseOutcome, r: Result<String, EncodingError>) -> bool {
    match outcome {
        ResponseOutcome::Success { body } => {
            &&& body@.len() == 0 ==> (r matches Ok(m) && m@ == spec_success_message())
            &&& body@.len() > 0 ==> (r is Ok <==> json_parses(body@))
        },
        ResponseOutcome::Failure { status_text } => r matches Ok(m) && error_prefix().is_prefix_of(
            m@,
        ),
    }
}

/// Render the message block that is printed for one outcome.
///
/// A success with an empty body becomes the literal success message, never a
/// JSON render of empty text. A success with text succeeds exactly when the
/// text is valid JSON, which it then pretty-prints. A failure always renders:
/// the status description is first quoted as a JSON string — which parses by
/// construction — and the result is put behind the error label.
pub fn render_outcome(outcome: ResponseOutcome) -> (r: Result<String, EncodingError>)
    ensures
        renders(outcome, r),
{
    match outcome {
        ResponseOutcome::Success { body } => {
            if body.as_str().is_empty() {
                Ok(String::from_str("Operation successful"))
            } else {
                colorize(body.as_str())
            }
        },
        ResponseOutcome::Failure { status_text } => {
            let quoted = json_quote(status_text.as_str());
            match colorize(quoted.as_str()) {
                Ok(rendered) => {
                    let message = String::from_str("Error: ").concat(rendered.as_str());
                    proof {
                        assert(message@.subrange(0, error_prefix().len() as int) =~= error_prefix());
                    }
                    Ok(message)
                },
                Err(e) => Err(e),
            }
        },
    }
}

/// Handle one response: classify it by status, then render its message block.
///
/// For every status and body this either returns the text to print, or
/// reports that a successful response carried text that is not valid JSON —
/// the one case the caller treats as fatal.
pub fn handle_response(status: u16, status_text: String, body: String) -> (r: Result<
    String,
    EncodingError,
>)
    ensures
        is_success_status(status) && body@.len() == 0 ==> (r matches Ok(m) && m@
            == spec_success_message()),
        is_success_status(status) && body@.len() > 0 ==> (r is Ok <==> json_parses(body@)),
        !is_success_status(status) ==> (r matches Ok(m) && error_prefix().is_prefix_of(m@)),
{
    render_outcome(classify_response(status, status_text, body))
}

} // verus!
