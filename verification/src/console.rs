//! What the console shows of an outcome.

use vstd::prelude::*;
use crate::error::{outcome_view, ClientError, ClientErrorView};
use crate::policy::{FAILURE_LABEL, RESPONSE_LABEL};

verus! {

/// The line that reports an outcome: the completion behind the response
/// label, or the failure's message behind the failure label.
pub open spec fn report_of(outcome: Result<Seq<char>, ClientErrorView>) -> Seq<char> {
    match outcome {
        Ok(text) => RESPONSE_LABEL@ + text,
        Err(error) => FAILURE_LABEL@ + error.message(),
    }
}

/// Formats the line that the console prints when the exchange is over.
pub fn render_outcome(outcome: &Result<String, ClientError>) -> (line: String)
    ensures
        line@ == report_of(outcome_view(*outcome)),
{
    match outcome {
        Ok(text) => {
            RESPONSE_LABEL.to_string().concat(text.as_str())
        },
        Err(error) => {
            let message = error.message();
            FAILURE_LABEL.to_string().concat(message.as_str())
        },
    }
}

} // verus!
