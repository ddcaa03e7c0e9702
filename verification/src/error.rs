//! The ways in which an exchange fails.

use vstd::prelude::*;
use crate::policy::MISSING_CREDENTIAL;

verus! {

/// Why an exchange yielded no completion. A response without choices is not
/// among the failures: it yields the fallback text.
#[derive(Debug, PartialEq, Eq)]
pub enum ClientError {
    /// No credential is configured. Nothing was sent.
    Configuration,
    /// The endpoint was not reached, or the connection broke; holds the
    /// transport's own message.
    Transport(String),
    /// The body of the response does not have the expected shape; holds the
    /// decoder's own message.
    Deserialization(String),
}

/// A `ClientError` as contracts see it.
pub enum ClientErrorView {
    Configuration,
    Transport(Seq<char>),
    Deserialization(Seq<char>),
}

impl View for ClientError {
    type V = ClientErrorView;

    open spec fn view(&self) -> ClientErrorView {
        match self {
            ClientError::Configuration => ClientErrorView::Configuration,
            ClientError::Transport(message) => ClientErrorView::Transport(message@),
            ClientError::Deserialization(message) => ClientErrorView::Deserialization(message@),
        }
    }
}

impl ClientErrorView {
    /// The text that a failure is reported with. What the transport or the
    /// decoder said is passed on as it is.
    pub open spec fn message(self) -> Seq<char> {
        match self {
            ClientErrorView::Configuration => MISSING_CREDENTIAL@,
            ClientErrorView::Transport(message) => message,
            ClientErrorView::Deserialization(message) => message,
        }
    }
}

impl ClientError {
    /// The text that the failure is reported with.
    pub fn message(&self) -> (text: String)
        ensures
            text@ == self@.message(),
    {
        match self {
            ClientError::Configuration => MISSING_CREDENTIAL.to_string(),
            ClientError::Transport(message) => message.clone(),
            ClientError::Deserialization(message) => message.clone(),
        }
    }
}

/// An outcome as contracts see it: the completion, or the failure.
pub open spec fn outcome_view(outcome: Result<String, ClientError>) -> Result<
    Seq<char>,
    ClientErrorView,
> {
    match outcome {
        Ok(text) => Ok(text@),
        Err(error) => Err(error@),
    }
}

} // verus!
