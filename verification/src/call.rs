//! The one HTTP call of an exchange: what is sent, where, and under which
//! credential.

use vstd::prelude::*;
use crate::chat::{build_request, request_for, ChatRequest, ChatRequestView};
use crate::error::ClientError;
use crate::policy::{AUTHORIZATION_SCHEME, ENDPOINT, JSON_CONTENT_TYPE};

verus! {

/// One HTTPS POST: where it goes, the values of its authorization and
/// content-type headers, and the body, which goes out as JSON.
#[derive(Debug, PartialEq, Eq)]
pub struct HttpCall {
    pub url: String,
    pub authorization: String,
    pub content_type: String,
    pub body: ChatRequest,
}

/// An `HttpCall` as contracts see it.
pub struct HttpCallView {
    pub url: Seq<char>,
    pub authorization: Seq<char>,
    pub content_type: Seq<char>,
    pub body: ChatRequestView,
}

impl View for HttpCall {
    type V = HttpCallView;

    open spec fn view(&self) -> HttpCallView {
        HttpCallView {
            url: self.url@,
            authorization: self.authorization@,
            content_type: self.content_type@,
            body: self.body@,
        }
    }
}

/// The value of the authorization header for `credential`.
pub open spec fn bearer(credential: Seq<char>) -> Seq<char> {
    AUTHORIZATION_SCHEME@ + credential
}

/// The call that is made for `prompt` under `credential`.
pub open spec fn call_for(prompt: Seq<char>, credential: Seq<char>) -> HttpCallView {
    HttpCallView {
        url: ENDPOINT@,
        authorization: bearer(credential),
        content_type: JSON_CONTENT_TYPE@,
        body: request_for(prompt),
    }
}

/// Formats the value of the authorization header.
pub fn authorization_value(credential: &str) -> (value: String)
    ensures
        value@ == bearer(credential@),
{
    AUTHORIZATION_SCHEME.to_string().concat(credential)
}

/// Decides what is sent for `prompt`: with a credential, the call that
/// carries the prompt; without one, nothing, and the failure says so.
pub fn prepare_call(prompt: &str, credential: Option<String>) -> (prepared: Result<
    HttpCall,
    ClientError,
>)
    ensures
        credential is None ==> prepared == Err::<HttpCall, ClientError>(ClientError::Configuration),
        credential matches Some(value) ==> prepared matches Ok(call) && call@ == call_for(
            prompt@,
            value@,
        ),
{
    match credential {
        None => Err(ClientError::Configuration),
        Some(value) => Ok(
            HttpCall {
                url: ENDPOINT.to_string(),
                authorization: authorization_value(value.as_str()),
                content_type: JSON_CONTENT_TYPE.to_string(),
                body: build_request(prompt),
            },
        ),
    }
}

} // verus!
