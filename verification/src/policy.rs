//! The fixed values of the client's policy, each under a name, so that one
//! can be replaced without touching the control flow that uses it.

use vstd::prelude::*;

verus! {

/// Identifier of the model that every request names.
pub const MODEL_ID: &'static str = "gpt-4o-mini";

/// Content of the system message that opens every conversation.
pub const SYSTEM_PREAMBLE: &'static str = "You are a helpful assistant.";

/// Upper bound on the number of tokens in a completion.
pub const MAX_TOKENS: u32 = 1000;

/// Sampling temperature of every request, in tenths: 7 stands for 0.7.
pub const TEMPERATURE_TENTHS: u32 = 7;

/// Largest temperature that a request may carry, in tenths: 2.0.
pub const TEMPERATURE_TENTHS_LIMIT: u32 = 20;

/// Address that requests are posted to.
pub const ENDPOINT: &'static str = "https://api.openai.com/v1/chat/completions";

/// Name of the environment variable that holds the credential.
pub const CREDENTIAL_VARIABLE: &'static str = "OPENAI_API_KEY";

/// Name of the header that carries the credential.
pub const AUTHORIZATION_HEADER: &'static str = "Authorization";

/// What stands before the credential in the authorization header.
pub const AUTHORIZATION_SCHEME: &'static str = "Bearer ";

/// Name of the header that says what the body is.
pub const CONTENT_TYPE_HEADER: &'static str = "Content-Type";

/// Content type of the request body.
pub const JSON_CONTENT_TYPE: &'static str = "application/json";

/// Text that is reported when the service answers without any choice.
pub const NO_RESPONSE: &'static str = "No response from API";

/// Message of the error that is reported when no credential is configured.
pub const MISSING_CREDENTIAL: &'static str = "Missing OPENAI_API_KEY in environment";

/// What the console shows before it reads the prompt.
pub const PROMPT_LABEL: &'static str = "Enter your prompt: ";

/// What the console shows before a completion.
pub const RESPONSE_LABEL: &'static str = "Response from GPT-4o Mini: ";

/// What the console shows before the message of a failure.
pub const FAILURE_LABEL: &'static str = "Error calling GPT-4o Mini API: ";

} // verus!
